//! What a drop target gets of a data object, for each format that it may ask for.

use vstd::prelude::*;

use crate::data_object::{
    global_content, hands_out, offer, passes_on, resolvable, resolved, DataObject, DataReply,
    DragItem, FormatEtc,
};
use crate::memory::{drop_files_block, file_group_block};
use crate::wide::{drop_list_units, strings};

verus! {

/// A format asks for content in global memory exactly when the lowest bit of its media is set and
/// its aspect is the content; no other bit of the media and no other field has a say.
pub proof fn law_memory_is_the_lowest_bit(format: FormatEtc)
    ensures
        global_content(format) <==> format.tymed & 1 != 0 && format.aspect == 1,
{
    let tymed = format.tymed;
    assert((tymed & 1 != 0) == (tymed % 2 == 1)) by (bit_vector);
}

/// Files are handed out as a drop list and as nothing else: a request in global memory for the
/// clipboard format of drop lists is one for the files, and every other goes on to the shell.
pub proof fn law_files_answer_for_drop_lists<F, P>(
    object: DataObject<F, P>,
    files: Vec<F>,
    format: FormatEtc,
)
    requires
        object.item == DragItem::<F, P>::Files(files),
    ensures
        object.request_of(Some(format)) is DropFiles <==> format.tymed & 1 != 0 && format.aspect
            == 1 && format.cf_format == 15,
        object.request_of(Some(format)) is DropFiles || object.request_of(Some(format)) is Shell,
        object.request_of(None) is Shell,
{
    law_memory_is_the_lowest_bit(format);
}

/// Data answers for the two clipboard formats that the system registered, whatever their numbers
/// and whichever is the greater: a request in global memory for the one of the contents is one
/// for the contents, one for that of the descriptors, where it is another, is one for the
/// descriptors, and every other goes on to the shell.
pub proof fn law_data_answers_for_its_two_formats<F, P>(
    object: DataObject<F, P>,
    provider: P,
    types: Vec<String>,
    format: FormatEtc,
)
    requires
        object.item == (DragItem::<F, P>::Data { provider, types }),
    ensures
        object.request_of(Some(format)) is Contents <==> format.tymed & 1 != 0 && format.aspect
            == 1 && format.cf_format == object.content_format,
        object.request_of(Some(format)) is Descriptors <==> format.tymed & 1 != 0 && format.aspect
            == 1 && format.cf_format == object.descriptor_format && format.cf_format
            != object.content_format,
        !(object.request_of(Some(format)) is DropFiles),
        object.request_of(None) is Shell,
{
    law_memory_is_the_lowest_bit(format);
}

/// The numbers of the two formats are names and no more: give the formats of one data object and
/// of a request other numbers, different ones to different formats, and the request asks for the
/// same as before.
pub proof fn law_numbers_are_only_names<F, P>(
    object: DataObject<F, P>,
    other: DataObject<F, P>,
    asked: FormatEtc,
    renamed: FormatEtc,
)
    requires
        object.item is Data,
        other.item == object.item,
        renamed.tymed == asked.tymed,
        renamed.aspect == asked.aspect,
        renamed.cf_format == other.content_format <==> asked.cf_format == object.content_format,
        renamed.cf_format == other.descriptor_format <==> asked.cf_format
            == object.descriptor_format,
    ensures
        other.request_of(Some(renamed)) == object.request_of(Some(asked)),
{
}

/// What is listed for files is one format: drop lists, in global memory, the whole content, for
/// no device. What is listed for data are the contents and the descriptors in the same way.
pub proof fn law_listed_formats<F, P>(object: DataObject<F, P>)
    ensures
        object.item is Files ==> object.offers().len() == 1 && object.offers()[0].cf_format == 15,
        object.item is Data ==> object.offers().len() == 2 && object.offers()[0].cf_format
            == object.content_format && object.offers()[1].cf_format == object.descriptor_format,
        forall|i: int|
            0 <= i < object.offers().len() ==> {
                let format = #[trigger] object.offers()[i];
                format.ptd == 0 && format.aspect == 1 && format.lindex == 0 && format.tymed == 1
            },
        forall|cf_format: u16| #[trigger] offer(cf_format).cf_format == cf_format,
{
}

/// A block that is handed out is handed out whole, as global memory: it has the length of the
/// bytes, and each byte at its place.
pub proof fn law_blocks_are_whole(reply: DataReply, bytes: Seq<u8>)
    ensures
        hands_out(reply, bytes) <==> {
            &&& reply matches DataReply::Medium(medium)
            &&& medium.tymed == 1
            &&& medium.data@.len() == bytes.len()
            &&& forall|i: int| 0 <= i < bytes.len() ==> #[trigger] medium.data@[i] == bytes[i]
        },
{
    if let DataReply::Medium(medium) = reply {
        if medium.data@.len() == bytes.len() && (forall|i: int|
            0 <= i < bytes.len() ==> #[trigger] medium.data@[i] == bytes[i]) {
            assert(medium.data@ =~= bytes);
        }
    }
}

/// What a provider makes is handed out whole, whatever bytes it is made of: as many as there are,
/// and each at its place. Where it makes nothing, and only there, the shell is asked.
pub proof fn law_contents_are_whole(reply: DataReply, contents: Option<Vec<u8>>)
    requires
        passes_on(reply, contents),
    ensures
        reply is Shell <==> contents is None,
        contents matches Some(data) ==> {
            &&& reply matches DataReply::Medium(medium)
            &&& medium.tymed == 1
            &&& medium.data@.len() == data@.len()
            &&& forall|i: int| 0 <= i < data@.len() ==> #[trigger] medium.data@[i] == data@[i]
        },
{
}

/// Two virtual files whose contents differ are handed out as blocks that differ: nothing of the
/// contents is lost on the way.
pub proof fn law_different_contents_stay_different(
    one: DataReply,
    two: DataReply,
    first: Vec<u8>,
    second: Vec<u8>,
)
    requires
        passes_on(one, Some(first)),
        passes_on(two, Some(second)),
        first@ != second@,
    ensures
        one->Medium_0.data@ != two->Medium_0.data@,
{
}

/// Each item is resolved by itself: there is one string for each item, in their order, and it is
/// one that the call for this item may give.
pub proof fn law_every_item_is_resolved<T, A: Fn(&T) -> Vec<u16>>(
    absolute: A,
    items: Seq<T>,
    wide: Seq<Vec<u16>>,
)
    ensures
        resolved(absolute, items, wide) <==> wide.len() == items.len() && forall|i: int|
            0 <= i < items.len() ==> call_ensures(absolute, (&items[i],), #[trigger] wide[i]),
        resolvable(absolute, items) <==> forall|i: int|
            0 <= i < items.len() ==> call_requires(absolute, (&#[trigger] items[i],)),
{
}

/// A request for the contents of a virtual file asks the provider by the name at its index, and
/// hands out what the provider makes of it, whole; where it makes nothing, the shell is asked.
pub proof fn law_contents_are_those_of_the_name<
    F,
    P: Fn(&str) -> Option<Vec<u8>>,
    A: Fn(&F) -> Vec<u16>,
    N: Fn(&String) -> Vec<u16>,
>(
    object: DataObject<F, P>,
    provider: P,
    types: Vec<String>,
    format: FormatEtc,
    absolute_file: A,
    absolute_name: N,
    reply: DataReply,
)
    requires
        object.item == (DragItem::<F, P>::Data { provider, types }),
        format.tymed & 1 != 0,
        format.aspect == 1,
        format.cf_format == object.content_format,
        object.get_data_ensures(Some(format), absolute_file, absolute_name, reply),
    ensures
        exists|name: &str, contents: Option<Vec<u8>>|
            {
                &&& #[trigger] call_ensures(provider, (name,), contents)
                &&& name@ == types@[format.lindex as int]@
                &&& match contents {
                    Some(data) => reply matches DataReply::Medium(medium) && medium.tymed == 1
                        && medium.data@ == data@,
                    None => reply is Shell,
                }
            },
{
    law_data_answers_for_its_two_formats(object, provider, types, format);
    let (name, contents) = choose|name: &str, contents: Option<Vec<u8>>|
        #[trigger] call_ensures(provider, (name,), contents) && name@
            == types@[format.lindex as int]@ && passes_on(reply, contents);
    law_contents_are_whole(reply, contents);
    if let Some(data) = contents {
        assert(reply->Medium_0.data@ =~= data@);
    }
    assert(call_ensures(provider, (name,), contents));
}

/// A request for the files hands out the block of the drop list of all their absolute paths.
pub proof fn law_files_are_all_handed_out<
    F,
    P: Fn(&str) -> Option<Vec<u8>>,
    A: Fn(&F) -> Vec<u16>,
    N: Fn(&String) -> Vec<u16>,
>(
    object: DataObject<F, P>,
    files: Vec<F>,
    format: FormatEtc,
    absolute_file: A,
    absolute_name: N,
    reply: DataReply,
)
    requires
        object.item == DragItem::<F, P>::Files(files),
        format.tymed & 1 != 0,
        format.aspect == 1,
        format.cf_format == 15,
        object.get_data_ensures(Some(format), absolute_file, absolute_name, reply),
    ensures
        exists|wide: Seq<Vec<u16>>|
            {
                &&& wide.len() == files@.len()
                &&& forall|i: int|
                    0 <= i < files@.len() ==> call_ensures(
                        absolute_file,
                        (&files@[i],),
                        #[trigger] wide[i],
                    )
                &&& reply matches DataReply::Medium(medium)
                &&& medium.tymed == 1
                &&& medium.data@ == drop_files_block(drop_list_units(#[trigger] strings(wide)))
            },
{
    law_files_answer_for_drop_lists(object, files, format);
    let wide = choose|wide: Seq<Vec<u16>>|
        #[trigger] resolved(absolute_file, files@, wide) && hands_out(
            reply,
            drop_files_block(drop_list_units(strings(wide))),
        );
    law_every_item_is_resolved(absolute_file, files@, wide);
    law_blocks_are_whole(reply, drop_files_block(drop_list_units(strings(wide))));
    assert(reply->Medium_0.data@ =~= drop_files_block(drop_list_units(strings(wide))));
}

/// A request for the descriptors hands out the block of the absolute names of all virtual files.
pub proof fn law_names_are_all_handed_out<
    F,
    P: Fn(&str) -> Option<Vec<u8>>,
    A: Fn(&F) -> Vec<u16>,
    N: Fn(&String) -> Vec<u16>,
>(
    object: DataObject<F, P>,
    provider: P,
    types: Vec<String>,
    format: FormatEtc,
    absolute_file: A,
    absolute_name: N,
    reply: DataReply,
)
    requires
        object.item == (DragItem::<F, P>::Data { provider, types }),
        format.tymed & 1 != 0,
        format.aspect == 1,
        format.cf_format == object.descriptor_format,
        format.cf_format != object.content_format,
        object.get_data_ensures(Some(format), absolute_file, absolute_name, reply),
    ensures
        exists|wide: Seq<Vec<u16>>|
            {
                &&& wide.len() == types@.len()
                &&& forall|i: int|
                    0 <= i < types@.len() ==> call_ensures(
                        absolute_name,
                        (&types@[i],),
                        #[trigger] wide[i],
                    )
                &&& reply matches DataReply::Medium(medium)
                &&& medium.tymed == 1
                &&& medium.data@ == file_group_block(#[trigger] strings(wide))
            },
{
    law_data_answers_for_its_two_formats(object, provider, types, format);
    let wide = choose|wide: Seq<Vec<u16>>|
        #[trigger] resolved(absolute_name, types@, wide) && hands_out(
            reply,
            file_group_block(strings(wide)),
        );
    law_every_item_is_resolved(absolute_name, types@, wide);
    law_blocks_are_whole(reply, file_group_block(strings(wide)));
    assert(reply->Medium_0.data@ =~= file_group_block(strings(wide)));
}

/// A request in another medium, under another aspect, or in a format of which the item has none
/// is left to the shell, and so is one that names no format.
pub proof fn law_the_rest_is_left_to_the_shell<
    F,
    P: Fn(&str) -> Option<Vec<u8>>,
    A: Fn(&F) -> Vec<u16>,
    N: Fn(&String) -> Vec<u16>,
>(
    object: DataObject<F, P>,
    format: Option<FormatEtc>,
    absolute_file: A,
    absolute_name: N,
    reply: DataReply,
)
    requires
        format matches Some(format) ==> {
            ||| format.tymed & 1 == 0
            ||| format.aspect != 1
            ||| object.item is Files && format.cf_format != 15
            ||| object.item is Data && format.cf_format != object.content_format
                && format.cf_format != object.descriptor_format
        },
        object.get_data_ensures(format, absolute_file, absolute_name, reply),
    ensures
        reply is Shell,
        object.request_of(format) is Shell,
{
    if let Some(format) = format {
        law_memory_is_the_lowest_bit(format);
    }
}

/// A request can be made of every item of which the outside calls take the parts: of files whose
/// paths are taken, of contents at an index that there is, and of descriptors of one or more
/// files whose names have up to 258 units.
pub proof fn law_requests_can_be_made<
    F,
    P: Fn(&str) -> Option<Vec<u8>>,
    A: Fn(&F) -> Vec<u16>,
    N: Fn(&String) -> Vec<u16>,
>(
    object: DataObject<F, P>,
    format: Option<FormatEtc>,
    absolute_file: A,
    absolute_name: N,
)
    requires
        match object.item {
            DragItem::Files(files) => forall|i: int|
                0 <= i < files@.len() ==> call_requires(absolute_file, (&#[trigger] files@[i],)),
            DragItem::Data { provider, types } => {
                &&& format matches Some(format) ==> format.cf_format == object.content_format ==> 0
                    <= format.lindex < types@.len() && forall|name: &str|
                    name@ == types@[format.lindex as int]@ ==> #[trigger] call_requires(
                        provider,
                        (name,),
                    )
                &&& format matches Some(format) ==> format.cf_format == object.descriptor_format
                    ==> types@.len() > 0
                &&& forall|i: int|
                    0 <= i < types@.len() ==> call_requires(absolute_name, (&#[trigger] types@[i],))
                &&& forall|i: int, name: Vec<u16>|
                    0 <= i < types@.len() && #[trigger] call_ensures(
                        absolute_name,
                        (&types@[i],),
                        name,
                    ) ==> name@.len() <= 258
            },
        },
    ensures
        object.get_data_requires(format, absolute_file, absolute_name),
{
    if let DragItem::Data { provider, types } = object.item {
        law_every_item_is_resolved(absolute_name, types@, Seq::empty());
    }
    if let DragItem::Files(files) = object.item {
        law_every_item_is_resolved(absolute_file, files@, Seq::empty());
    }
}

} // verus!
