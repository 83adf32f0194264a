//! The data object of a drag: which formats it offers, and what it hands out for them.

use vstd::prelude::*;

use crate::codes::{
    CF_HDROP, DVASPECT_CONTENT, DV_E_FORMATETC, E_NOTIMPL, OLE_E_ADVISENOTSUPPORTED, S_OK,
    TYMED_HGLOBAL,
};
use crate::memory::{
    described_files, described_name, drop_files_block, dropped_paths, file_group, file_group_block,
    get_hglobal, law_drop_files_read_back, law_file_group_read_back, name_fits, paths_are_wide,
};
use crate::wide::{drop_list, drop_list_units, nul_free, strings};

verus! {

/// What is dragged: files, by their paths, or data that a provider makes on demand, each kind of
/// it under the name of a virtual file.
pub enum DragItem<F, P> {
    Files(Vec<F>),
    Data { provider: P, types: Vec<String> },
}

/// A format that a drop target asks for, or that a data object offers: the clipboard format, the
/// address of the target device (zero for none), the aspect, the index of the part, and the
/// media, one bit each.
#[derive(Clone, Copy, Debug, PartialEq, Eq, Structural)]
pub struct FormatEtc {
    pub cf_format: u16,
    pub ptd: usize,
    pub aspect: u32,
    pub lindex: i32,
    pub tymed: u32,
}

/// A medium that is handed to a drop target: a block of memory, and the number that says so. The
/// receiver frees it.
pub struct StgMedium {
    pub tymed: u32,
    pub data: Vec<u8>,
}

/// The answer to a request for data.
pub enum DataReply {
    /// The data object hands out this medium.
    Medium(StgMedium),
    /// The request goes on to the data object of the shell.
    Shell,
}

/// The answer to the question whether a format is offered.
#[derive(Clone, Copy, Debug, PartialEq, Eq, Structural)]
pub enum QueryReply {
    /// The data object answers with this status.
    Status(i32),
    /// The question goes on to the data object of the shell.
    Shell,
}

/// What a requested format asks for.
#[derive(Clone, Copy, Debug, PartialEq, Eq, Structural)]
pub enum Request {
    /// The list of the dragged files.
    DropFiles,
    /// The contents of one virtual file.
    Contents,
    /// The descriptors of the virtual files.
    Descriptors,
    /// Something that only the data object of the shell may know.
    Shell,
}

/// Whether a format asks for the content of an item in global memory. The media are bits, so
/// others may be named beside it.
pub open spec fn global_content(format: FormatEtc) -> bool {
    format.tymed % 2 == 1 && format.aspect == DVASPECT_CONTENT
}

/// The offer of a clipboard format: the whole content, in global memory, for any device.
pub open spec fn offer(cf_format: u16) -> FormatEtc {
    FormatEtc { cf_format, ptd: 0, aspect: DVASPECT_CONTENT, lindex: 0, tymed: 1 }
}

/// Whether a reply hands out a block of global memory with these bytes.
pub open spec fn hands_out(reply: DataReply, bytes: Seq<u8>) -> bool {
    reply matches DataReply::Medium(medium) && medium.tymed == 1 && medium.data@ == bytes
}

/// Whether a reply passes on what a provider made: the data itself, and the request to the shell
/// where it made none.
pub open spec fn passes_on(reply: DataReply, contents: Option<Vec<u8>>) -> bool {
    match contents {
        Some(data) => hands_out(reply, data@),
        None => reply is Shell,
    }
}

/// Whether `absolute` may turn each of `items` into the wide string of `wide` at its place.
pub open spec fn resolved<T, A: Fn(&T) -> Vec<u16>>(
    absolute: A,
    items: Seq<T>,
    wide: Seq<Vec<u16>>,
) -> bool {
    &&& wide.len() == items.len()
    &&& forall|i: int|
        0 <= i < items.len() ==> call_ensures(absolute, (&items[i],), #[trigger] wide[i])
}

/// Whether `absolute` may be called on each of `items`.
pub open spec fn resolvable<T, A: Fn(&T) -> Vec<u16>>(absolute: A, items: Seq<T>) -> bool {
    forall|i: int| 0 <= i < items.len() ==> call_requires(absolute, (&#[trigger] items[i],))
}

/// Turns each item into a wide string.
pub fn absolute_all<T, A: Fn(&T) -> Vec<u16>>(absolute: &A, items: &Vec<T>) -> (wide: Vec<
    Vec<u16>,
>)
    requires
        resolvable(*absolute, items@),
    ensures
        resolved(*absolute, items@, wide@),
{
    let mut wide: Vec<Vec<u16>> = Vec::new();
    let mut i: usize = 0;
    while i < items.len()
        invariant
            i <= items.len(),
            resolvable(*absolute, items@),
            wide@.len() == i,
            forall|j: int|
                0 <= j < i ==> call_ensures(*absolute, (&items@[j],), #[trigger] wide@[j]),
        decreases items.len() - i,
    {
        let item = &items[i];
        assert(*item == items@[i as int]);
        let path = absolute(item);
        wide.push(path);
        i = i + 1;
    }
    wide
}

/// The medium that hands out a block of global memory.
fn global_medium(data: Vec<u8>) -> (reply: DataReply)
    ensures
        hands_out(reply, data@),
{
    let tymed: u32 = #[verifier::truncate] (TYMED_HGLOBAL as u32);
    DataReply::Medium(StgMedium { tymed, data })
}

/// The answer to a request for the contents of a virtual file, from what the provider made.
pub fn content_reply(contents: Option<Vec<u8>>) -> (reply: DataReply)
    ensures
        passes_on(reply, contents),
        reply is Shell <==> contents is None,
        contents matches Some(data) ==> (reply matches DataReply::Medium(medium) && medium.data@
            == data@),
{
    match contents {
        Some(data) => global_medium(data),
        None => DataReply::Shell,
    }
}

/// The block of dropped files for some paths, which `absolute` turns into absolute ones.
pub fn hdrop_data<F, A: Fn(&F) -> Vec<u16>>(files: &Vec<F>, absolute: &A) -> (block: Vec<u8>)
    requires
        resolvable(*absolute, files@),
    ensures
        exists|wide: Seq<Vec<u16>>|
            #[trigger] resolved(*absolute, files@, wide) && block@ == drop_files_block(
                drop_list_units(strings(wide)),
            ),
{
    let wide = absolute_all(absolute, files);
    let buffer = drop_list(&wide);
    get_hglobal(&buffer)
}

/// A data object: the dragged item, and the numbers that the system gave the clipboard formats of
/// file contents and file descriptors.
pub struct DataObject<F, P> {
    pub item: DragItem<F, P>,
    pub content_format: u16,
    pub descriptor_format: u16,
}

impl<F, P> DataObject<F, P> {
    /// Makes the data object of an item. The system gives a registered clipboard format a number
    /// of 32 bits, of which the lower 16 name the format.
    pub fn new(item: DragItem<F, P>, contents: u32, descriptor: u32) -> (object: Self)
        ensures
            object.item == item,
            object.content_format == contents % 0x1_0000,
            object.descriptor_format == descriptor % 0x1_0000,
    {
        assert(contents as u16 == contents % 0x1_0000) by (bit_vector);
        assert(descriptor as u16 == descriptor % 0x1_0000) by (bit_vector);
        Self {
            item,
            content_format: #[verifier::truncate] (contents as u16),
            descriptor_format: #[verifier::truncate] (descriptor as u16),
        }
    }

    /// What a requested format asks of this data object. Where one number stands for both
    /// formats of virtual files, it asks for the contents.
    pub open spec fn request_of(&self, format: Option<FormatEtc>) -> Request {
        match format {
            Some(format) if global_content(format) => match self.item {
                DragItem::Files(_) if format.cf_format == CF_HDROP => Request::DropFiles,
                DragItem::Data { .. } if format.cf_format == self.content_format => {
                    Request::Contents
                },
                DragItem::Data { .. } if format.cf_format == self.descriptor_format => {
                    Request::Descriptors
                },
                _ => Request::Shell,
            },
            _ => Request::Shell,
        }
    }

    /// Whether a format asks for the content of an item in global memory. No format does not.
    pub fn is_global_content(format: Option<FormatEtc>) -> (global: bool)
        ensures
            global == (format is Some && global_content(format->0)),
    {
        match format {
            Some(format) => {
                let tymed: u32 = format.tymed;
                assert(((tymed as i32) & 1i32 > 0) == (tymed % 2 == 1)) by (bit_vector);
                (#[verifier::truncate] (tymed as i32)) & TYMED_HGLOBAL > 0 && format.aspect
                    == DVASPECT_CONTENT
            },
            None => false,
        }
    }

    /// Finds out what a requested format asks of this data object.
    pub fn request(&self, format: Option<FormatEtc>) -> (request: Request)
        ensures
            request == self.request_of(format),
    {
        if !Self::is_global_content(format) {
            return Request::Shell;
        }
        match format {
            Some(format) => match &self.item {
                DragItem::Files(_) => {
                    if format.cf_format == CF_HDROP {
                        Request::DropFiles
                    } else {
                        Request::Shell
                    }
                },
                DragItem::Data { .. } => {
                    if format.cf_format == self.content_format {
                        Request::Contents
                    } else if format.cf_format == self.descriptor_format {
                        Request::Descriptors
                    } else {
                        Request::Shell
                    }
                },
            },
            None => Request::Shell,
        }
    }

    /// Says whether a format is offered; what is not goes on to the shell.
    pub fn query_get_data(&self, format: Option<FormatEtc>) -> (reply: QueryReply)
        ensures
            reply == (if self.request_of(format) is Shell {
                QueryReply::Shell
            } else {
                QueryReply::Status(S_OK)
            }),
    {
        match self.request(format) {
            Request::Shell => QueryReply::Shell,
            _ => QueryReply::Status(S_OK),
        }
    }

    /// Lists the formats that are offered, whatever the direction of the transfer.
    pub fn enum_format_etc(&self, _direction: u32) -> (formats: Vec<FormatEtc>)
        ensures
            formats@ == self.offers(),
    {
        let mut formats: Vec<FormatEtc> = Vec::new();
        match &self.item {
            DragItem::Files(_) => {
                formats.push(Self::offered(CF_HDROP));
            },
            DragItem::Data { .. } => {
                formats.push(Self::offered(self.content_format));
                formats.push(Self::offered(self.descriptor_format));
            },
        }
        formats
    }

    /// The formats that are offered: the list of files for files, the contents and the
    /// descriptors for data.
    pub open spec fn offers(&self) -> Seq<FormatEtc> {
        match self.item {
            DragItem::Files(_) => seq![offer(CF_HDROP)],
            DragItem::Data { .. } => {
                seq![offer(self.content_format), offer(self.descriptor_format)]
            },
        }
    }

    fn offered(cf_format: u16) -> (format: FormatEtc)
        ensures
            format == offer(cf_format),
    {
        let tymed: u32 = #[verifier::truncate] (TYMED_HGLOBAL as u32);
        FormatEtc { cf_format, ptd: 0, aspect: DVASPECT_CONTENT, lindex: 0, tymed }
    }
}

impl<F, P: Fn(&str) -> Option<Vec<u8>>> DataObject<F, P> {
    /// What a request for data needs: the paths of files must be ones that `absolute_file` takes;
    /// the contents must be asked of one of the virtual files there are, and the provider must
    /// take its name; for the descriptors there must be a virtual file, and `absolute_name` must
    /// take the names and make of them ones that fit.
    pub open spec fn get_data_requires<A: Fn(&F) -> Vec<u16>, N: Fn(&String) -> Vec<u16>>(
        &self,
        format: Option<FormatEtc>,
        absolute_file: A,
        absolute_name: N,
    ) -> bool {
        match (self.request_of(format), self.item) {
            (Request::DropFiles, DragItem::Files(files)) => resolvable(absolute_file, files@),
            (Request::Contents, DragItem::Data { provider, types }) => {
                &&& 0 <= format->0.lindex < types@.len()
                &&& forall|name: &str|
                    name@ == types@[format->0.lindex as int]@ ==> #[trigger] call_requires(
                        provider,
                        (name,),
                    )
            },
            (Request::Descriptors, DragItem::Data { provider, types }) => {
                &&& types@.len() > 0
                &&& resolvable(absolute_name, types@)
                &&& forall|i: int, name: Vec<u16>|
                    0 <= i < types@.len() && #[trigger] call_ensures(
                        absolute_name,
                        (&types@[i],),
                        name,
                    ) ==> name_fits(name@)
            },
            _ => true,
        }
    }

    /// What a request for data is answered: the block of dropped files for the files, made of
    /// what `absolute_file` gave for their paths; for the contents of a virtual file what the
    /// provider gave for its name; the block of file descriptors for all of them, made of what
    /// `absolute_name` gave for their names. Anything else goes on to the shell.
    pub open spec fn get_data_ensures<A: Fn(&F) -> Vec<u16>, N: Fn(&String) -> Vec<u16>>(
        &self,
        format: Option<FormatEtc>,
        absolute_file: A,
        absolute_name: N,
        reply: DataReply,
    ) -> bool {
        match (self.request_of(format), self.item) {
            (Request::DropFiles, DragItem::Files(files)) => exists|wide: Seq<Vec<u16>>|
                #[trigger] resolved(absolute_file, files@, wide) && hands_out(
                    reply,
                    drop_files_block(drop_list_units(strings(wide))),
                ),
            (Request::Contents, DragItem::Data { provider, types }) => exists|
                name: &str,
                contents: Option<Vec<u8>>,
            |
                #[trigger] call_ensures(provider, (name,), contents) && name@
                    == types@[format->0.lindex as int]@ && passes_on(reply, contents),
            (Request::Descriptors, DragItem::Data { provider, types }) => exists|
                wide: Seq<Vec<u16>>,
            |
                #[trigger] resolved(absolute_name, types@, wide) && hands_out(
                    reply,
                    file_group_block(strings(wide)),
                ),
            _ => reply is Shell,
        }
    }

    /// Answers a request for data. `absolute_file` makes the absolute path of a file, and
    /// `absolute_name` that of the name of a virtual file, both as wide strings.
    pub fn get_data<A: Fn(&F) -> Vec<u16>, N: Fn(&String) -> Vec<u16>>(
        &self,
        format: Option<FormatEtc>,
        absolute_file: &A,
        absolute_name: &N,
    ) -> (reply: DataReply)
        requires
            self.get_data_requires(format, *absolute_file, *absolute_name),
        ensures
            self.get_data_ensures(format, *absolute_file, *absolute_name, reply),
    {
        match (self.request(format), format) {
            (Request::DropFiles, _) => match &self.item {
                DragItem::Files(files) => global_medium(hdrop_data(files, absolute_file)),
                DragItem::Data { .. } => DataReply::Shell,
            },
            (Request::Contents, Some(format)) => match &self.item {
                DragItem::Data { provider, types } => {
                    let name = types[format.lindex as usize].as_str();
                    let contents = provider(name);
                    content_reply(contents)
                },
                DragItem::Files(_) => DataReply::Shell,
            },
            (Request::Descriptors, _) => match &self.item {
                DragItem::Data { provider, types } => {
                    let wide = absolute_all(absolute_name, types);
                    global_medium(file_group(&wide))
                },
                DragItem::Files(_) => DataReply::Shell,
            },
            _ => DataReply::Shell,
        }
    }
}

impl<F, P> DataObject<F, P> {
    /// Data is never put into a medium that the caller brings.
    pub fn get_data_here(&self, _format: Option<FormatEtc>) -> (result: Result<(), i32>)
        ensures
            result == Err::<(), i32>(DV_E_FORMATETC),
    {
        Err(DV_E_FORMATETC)
    }

    /// Canonical formats are not worked out; the answer names no target device, and is otherwise
    /// left as it was.
    pub fn get_canonical_format_etc(&self, _format: Option<FormatEtc>, out: &mut FormatEtc)
        -> (status: i32)
        ensures
            status == E_NOTIMPL,
            *final(out) == (FormatEtc { ptd: 0, ..*old(out) }),
    {
        out.ptd = 0;
        E_NOTIMPL
    }

    /// Nobody is notified of changes: no connection is made.
    pub fn d_advise(&self, _format: Option<FormatEtc>, _flags: u32) -> (result: Result<u32, i32>)
        ensures
            result == Err::<u32, i32>(OLE_E_ADVISENOTSUPPORTED),
    {
        Err(OLE_E_ADVISENOTSUPPORTED)
    }

    /// Nobody is notified of changes: there is no connection to end.
    pub fn d_unadvise(&self, _connection: u32) -> (result: Result<(), i32>)
        ensures
            result == Err::<(), i32>(OLE_E_ADVISENOTSUPPORTED),
    {
        Err(OLE_E_ADVISENOTSUPPORTED)
    }

    /// Nobody is notified of changes: there are no connections to list.
    pub fn enum_d_advise(&self) -> (result: Result<(), i32>)
        ensures
            result == Err::<(), i32>(OLE_E_ADVISENOTSUPPORTED),
    {
        Err(OLE_E_ADVISENOTSUPPORTED)
    }
}

/// What is offered is answered: a drop target that asks for one of the listed formats is not sent
/// on to the shell.
pub proof fn law_offers_are_answered<F, P>(object: DataObject<F, P>, i: int)
    requires
        0 <= i < object.offers().len(),
    ensures
        !(object.request_of(Some(object.offers()[i])) is Shell),
{
}

/// What is answered is offered: the data object answers a request itself exactly when it asks for
/// content in global memory in a clipboard format that is listed.
pub proof fn law_answers_are_offered<F, P>(object: DataObject<F, P>, format: FormatEtc)
    ensures
        !(object.request_of(Some(format)) is Shell) <==> global_content(format) && exists|i: int|
            0 <= i < object.offers().len() && #[trigger] object.offers()[i].cf_format
                == format.cf_format,
{
    if object.item is Files {
        assert(object.offers()[0].cf_format == CF_HDROP);
    } else {
        assert(object.offers()[0].cf_format == object.content_format);
        assert(object.offers()[1].cf_format == object.descriptor_format);
    }
}

/// Drop targets name the media they take as bits: which others they name beside global memory
/// does not matter, nor do the part and the device.
pub proof fn law_other_media_do_not_matter<F, P>(
    object: DataObject<F, P>,
    format: FormatEtc,
    other: FormatEtc,
)
    requires
        other.cf_format == format.cf_format,
        other.aspect == format.aspect,
        other.tymed % 2 == format.tymed % 2,
    ensures
        object.request_of(Some(other)) == object.request_of(Some(format)),
{
}

/// Whether a provider may make nothing of a name.
pub open spec fn may_decline<P: Fn(&str) -> Option<Vec<u8>>>(provider: P, name: Seq<char>) -> bool {
    exists|asked: &str| asked@ == name && #[trigger] call_ensures(provider, (asked,), None)
}

/// The question whether a format is offered foretells the answer to a request for it. What is not
/// offered goes on to the shell; what is, is handed out, but for contents that the provider does
/// not make.
pub proof fn law_query_foretells_data<
    F,
    P: Fn(&str) -> Option<Vec<u8>>,
    A: Fn(&F) -> Vec<u16>,
    N: Fn(&String) -> Vec<u16>,
>(
    object: DataObject<F, P>,
    format: Option<FormatEtc>,
    absolute_file: A,
    absolute_name: N,
    reply: DataReply,
)
    requires
        object.get_data_ensures(format, absolute_file, absolute_name, reply),
    ensures
        object.request_of(format) is Shell ==> reply is Shell,
        !(object.request_of(format) is Shell) && reply is Shell ==> {
            &&& object.request_of(format) is Contents
            &&& may_decline(
                object.item->provider,
                object.item->types@[format->0.lindex as int]@,
            )
        },
{
    if object.request_of(format) is Contents && reply is Shell {
        let provider = object.item->provider;
        let types = object.item->types;
        let (name, contents) = choose|name: &str, contents: Option<Vec<u8>>|
            #[trigger] call_ensures(provider, (name,), contents) && name@
                == types@[format->0.lindex as int]@ && passes_on(reply, contents);
        assert(call_ensures(provider, (name,), None::<Vec<u8>>));
    }
}

/// The files that are dragged are the files that arrive: a drop target that asks for them reads
/// the absolute paths, all of them and in their order. A path that is empty or holds a zero would
/// end the list or be cut.
pub proof fn law_dragged_files_arrive<
    F,
    P: Fn(&str) -> Option<Vec<u8>>,
    A: Fn(&F) -> Vec<u16>,
    N: Fn(&String) -> Vec<u16>,
>(
    object: DataObject<F, P>,
    format: Option<FormatEtc>,
    absolute_file: A,
    absolute_name: N,
    reply: DataReply,
)
    requires
        object.request_of(format) is DropFiles,
        object.get_data_ensures(format, absolute_file, absolute_name, reply),
        forall|i: int, path: Vec<u16>|
            0 <= i < object.item->Files_0@.len() && #[trigger] call_ensures(
                absolute_file,
                (&object.item->Files_0@[i],),
                path,
            ) ==> path@.len() > 0 && nul_free(path@),
    ensures
        reply matches DataReply::Medium(medium) && paths_are_wide(medium.data@) && exists|
            wide: Seq<Vec<u16>>,
        |
            #[trigger] resolved(absolute_file, object.item->Files_0@, wide) && dropped_paths(
                medium.data@,
            ) == strings(wide),
{
    let files = object.item->Files_0;
    let wide = choose|wide: Seq<Vec<u16>>|
        #[trigger] resolved(absolute_file, files@, wide) && hands_out(
            reply,
            drop_files_block(drop_list_units(strings(wide))),
        );
    assert forall|i: int| 0 <= i < strings(wide).len() implies #[trigger] strings(wide)[i].len() > 0
        && nul_free(strings(wide)[i]) by {
        assert(call_ensures(absolute_file, (&files@[i],), wide[i]));
    }
    law_drop_files_read_back(strings(wide));
}

/// The virtual files that are dragged are the ones that are described: a drop target that asks
/// for the descriptors reads how many files there are and the absolute path of the name of each.
/// A name that holds a zero would be cut there.
pub proof fn law_virtual_files_are_described<
    F,
    P: Fn(&str) -> Option<Vec<u8>>,
    A: Fn(&F) -> Vec<u16>,
    N: Fn(&String) -> Vec<u16>,
>(
    object: DataObject<F, P>,
    format: Option<FormatEtc>,
    absolute_file: A,
    absolute_name: N,
    reply: DataReply,
)
    requires
        object.request_of(format) is Descriptors,
        object.get_data_requires(format, absolute_file, absolute_name),
        object.get_data_ensures(format, absolute_file, absolute_name, reply),
        object.item->types@.len() <= u32::MAX,
        forall|i: int, path: Vec<u16>|
            0 <= i < object.item->types@.len() && #[trigger] call_ensures(
                absolute_name,
                (&object.item->types@[i],),
                path,
            ) ==> nul_free(path@),
    ensures
        reply matches DataReply::Medium(medium) && described_files(medium.data@)
            == object.item->types@.len() && exists|wide: Seq<Vec<u16>>|
            #[trigger] resolved(absolute_name, object.item->types@, wide) && forall|i: int|
                0 <= i < wide.len() ==> described_name(medium.data@, i) == #[trigger] wide[i]@,
{
    let types = object.item->types;
    let wide = choose|wide: Seq<Vec<u16>>|
        #[trigger] resolved(absolute_name, types@, wide) && hands_out(
            reply,
            file_group_block(strings(wide)),
        );
    assert forall|i: int| 0 <= i < wide.len() implies name_fits(strings(wide)[i]) && nul_free(
        #[trigger] strings(wide)[i],
    ) by {
        assert(call_ensures(absolute_name, (&types@[i],), wide[i]));
    }
    assert forall|i: int| 0 <= i < wide.len() implies described_name(
        file_group_block(strings(wide)),
        i,
    ) == #[trigger] wide[i]@ by {
        law_file_group_read_back(strings(wide), i);
        assert(strings(wide)[i] == wide[i]@);
    }
    law_file_group_read_back(strings(wide), 0);
}

} // verus!
