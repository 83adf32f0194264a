//! What each answer that a drag gets makes of it, and what of the answers reaches the shell and
//! the report.

use vstd::prelude::*;

use crate::data_object::DragItem;
use crate::session::{
    result_of, start, Action, ActionView, Drag, DragMode, DragResult, DragView, Error, Event,
    Options, Stage, StageView, WindowHandle,
};
use crate::session_laws::{canonicalized, law_drags_end, legal, made_absolute, run, Step};

verus! {

/// A drag counts the files that are dragged, all of them, or none where data is dragged. It takes
/// the effect from the mode, begins with OLE in a window of Win32, and fails at once in any other.
pub proof fn law_drags_start_with_every_file<F, P, W, I>(
    handle: WindowHandle,
    item: DragItem<F, P>,
    options: Options,
)
    ensures
        ({
            let (drag, action) = start::<F, P, W, I>(handle, item, options);
            &&& item matches DragItem::Files(files) ==> drag.files == Some(files@.len())
            &&& item is Data ==> drag.files is None
            &&& options.mode is Copy ==> drag.effect == 1
            &&& options.mode is Move ==> drag.effect == 2
            &&& handle is Win32 ==> drag.stage is InitializingOle && action is InitializeOle
            &&& !(handle is Win32) ==> drag.stage is Finished && action == ActionView::<
                F,
                W,
                I,
            >::Fail(Error::UnsupportedWindowHandle)
        }),
{
}

/// The two modes allow one effect each, a copy and a move, and of all statuses one means a drop.
pub proof fn law_modes_and_statuses(mode: DragMode, status: i32)
    ensures
        mode.effect_of() == 1 <==> mode is Copy,
        mode.effect_of() == 2 <==> mode is Move,
        result_of(status) is Dropped <==> status == 262400,
{
}

/// The model of a stage is the stage: it waits for the same and holds the same paths and result.
pub proof fn law_models_of_stages_are_faithful<F>(stage: Stage<F>)
    ensures
        stage is InitializingOle <==> stage@ is InitializingOle,
        stage is Canonicalizing <==> stage@ is Canonicalizing,
        stage matches Stage::Canonicalizing(done) ==> stage@->Canonicalizing_0 == done@,
        stage is BindingCanonical <==> stage@ is BindingCanonical,
        stage is MakingAbsolute <==> stage@ is MakingAbsolute,
        stage matches Stage::MakingAbsolute(done) ==> stage@->MakingAbsolute_0 == done@,
        stage is BindingAbsolute <==> stage@ is BindingAbsolute,
        stage is CreatingDataObject <==> stage@ is CreatingDataObject,
        stage is LoadingImage <==> stage@ is LoadingImage,
        stage is CreatingHelper <==> stage@ is CreatingHelper,
        stage is AttachingImage <==> stage@ is AttachingImage,
        stage is Dragging <==> stage@ is Dragging,
        stage is LocatingCursor <==> stage@ is LocatingCursor,
        stage matches Stage::LocatingCursor(result) ==> stage@->LocatingCursor_0 == result,
        stage is Finished <==> stage@ is Finished,
{
}

/// The model of an action is the action: it asks for the same, of the same files, paths and
/// effect, and ends with the same report or error.
pub proof fn law_models_of_actions_are_faithful<F, W, I>(action: Action<F, W, I>)
    ensures
        action is InitializeOle <==> action@ is InitializeOle,
        action is Canonicalize <==> action@ is Canonicalize,
        action matches Action::Canonicalize(index) ==> action@->Canonicalize_0 == index,
        action is MakeAbsolute <==> action@ is MakeAbsolute,
        action matches Action::MakeAbsolute(index) ==> action@->MakeAbsolute_0 == index,
        action is BindShellItems <==> action@ is BindShellItems,
        action matches Action::BindShellItems(paths) ==> action@->BindShellItems_0 == paths@,
        action is CreateDataObject <==> action@ is CreateDataObject,
        action is LoadImage <==> action@ is LoadImage,
        action is CreateHelper <==> action@ is CreateHelper,
        action is AttachImage <==> action@ is AttachImage,
        action is DoDragDrop <==> action@ is DoDragDrop,
        action matches Action::DoDragDrop(effect) ==> action@->DoDragDrop_0 == effect,
        action is LocateCursor <==> action@ is LocateCursor,
        action is Report <==> action@ is Report,
        action matches Action::Report(result, position) ==> action@->Report_0 == result
            && action@->Report_1 == position,
        action is Fail <==> action@ is Fail,
        action matches Action::Fail(error) ==> action@->Fail_0 == error,
{
}

/// The model of a drag is the drag: it counts the same files, has the same effect and stands at
/// the same stage.
pub proof fn law_models_of_drags_are_faithful<F>(drag: Drag<F>)
    ensures
        drag@.files is Some <==> drag.files is Some,
        drag.files matches Some(files) ==> drag@.files->0 == files,
        drag@.effect == drag.effect,
        drag@.stage == drag.stage@,
{
}

/// No answer changes how many files are dragged or what a drop does.
pub proof fn law_answers_keep_the_item<F, W, I>(drag: DragView<F>, event: Event<F, W, I>)
    requires
        drag.valid(),
        drag.expects(event),
    ensures
        drag.next(event).0.files == drag.files,
        drag.next(event).0.effect == drag.effect,
        drag.next(event).1 matches ActionView::DoDragDrop(effect) ==> effect == drag.effect,
        drag.next(event).1 matches ActionView::BindShellItems(paths) ==> drag.files == Some(
            paths.len(),
        ),
{
}

/// The answer of OLE: an error ends the drag, and is returned. Else the first file is asked for;
/// where there is none the shell is asked at once, and data gets an object of its own.
pub proof fn law_answers_of_ole<F, W, I>(drag: DragView<F>, result: Result<(), W>)
    requires
        drag.stage is InitializingOle,
    ensures
        ({
            let (after, action) = drag.next(Event::<F, W, I>::OleInitialized(result));
            match result {
                Err(error) => after.stage is Finished && action == ActionView::<F, W, I>::Fail(
                    Error::Windows(error),
                ),
                Ok(_) => if drag.files is None {
                    after.stage is CreatingDataObject && action is CreateDataObject
                } else if drag.files->0 == 0 {
                    after.stage is BindingCanonical && action == ActionView::<
                        F,
                        W,
                        I,
                    >::BindShellItems(Seq::empty())
                } else {
                    after.stage == StageView::<F>::Canonicalizing(Seq::empty()) && action
                        == ActionView::<F, W, I>::Canonicalize(0)
                },
            }
        }),
{
}

/// The answers for canonical paths: an error ends the drag whichever file it is for, and is
/// returned. A path joins those before it; the next file is asked for until none is missing, and
/// then all of them are bound.
pub proof fn law_answers_for_canonical_paths<F, W, I>(
    drag: DragView<F>,
    done: Seq<F>,
    result: Result<F, I>,
)
    requires
        drag.stage == StageView::Canonicalizing(done),
        drag.files is Some,
        done.len() < drag.files->0,
    ensures
        drag.valid(),
        drag.expects(Event::<F, W, I>::Canonicalized(result)),
        ({
            let (after, action) = drag.next(Event::<F, W, I>::Canonicalized(result));
            match result {
                Err(error) => after.stage is Finished && action == ActionView::<F, W, I>::Fail(
                    Error::Io(error),
                ),
                Ok(path) => if done.len() + 1 < drag.files->0 {
                    after.stage == StageView::Canonicalizing(done.push(path)) && action
                        == ActionView::<F, W, I>::Canonicalize((done.len() + 1) as int)
                } else {
                    after.stage is BindingCanonical && action == ActionView::<
                        F,
                        W,
                        I,
                    >::BindShellItems(done.push(path))
                },
            }
        }),
{
}

/// The answers for absolute paths: one that there is not leaves the drag to an object of its own.
/// A path joins those before it; the next file is asked for until none is missing, and then all
/// of them are bound.
pub proof fn law_answers_for_absolute_paths<F, W, I>(
    drag: DragView<F>,
    done: Seq<F>,
    result: Option<F>,
)
    requires
        drag.stage == StageView::MakingAbsolute(done),
        drag.files is Some,
        done.len() < drag.files->0,
    ensures
        drag.valid(),
        drag.expects(Event::<F, W, I>::MadeAbsolute(result)),
        ({
            let (after, action) = drag.next(Event::<F, W, I>::MadeAbsolute(result));
            match result {
                None => after.stage is CreatingDataObject && action is CreateDataObject,
                Some(path) => if done.len() + 1 < drag.files->0 {
                    after.stage == StageView::MakingAbsolute(done.push(path)) && action
                        == ActionView::<F, W, I>::MakeAbsolute((done.len() + 1) as int)
                } else {
                    after.stage is BindingAbsolute && action == ActionView::<
                        F,
                        W,
                        I,
                    >::BindShellItems(done.push(path))
                },
            }
        }),
{
}

/// The answers of the shell: an object is taken, and the drag goes on to the image. Where there is
/// none for canonical paths the absolute ones are asked for, from the first file on; where there
/// is none for absolute ones either, an object of the drag's own is made.
pub proof fn law_answers_of_the_shell<F, W, I>(drag: DragView<F>, bound: bool)
    requires
        drag.stage is BindingCanonical || drag.stage is BindingAbsolute,
        drag.files is Some,
    ensures
        drag.valid(),
        drag.expects(Event::<F, W, I>::ShellItemsBound(bound)),
        ({
            let (after, action) = drag.next(Event::<F, W, I>::ShellItemsBound(bound));
            if bound {
                after.stage is LoadingImage && action is LoadImage
            } else if drag.stage is BindingAbsolute {
                after.stage is CreatingDataObject && action is CreateDataObject
            } else if drag.files->0 == 0 {
                after.stage is BindingAbsolute && action == ActionView::<F, W, I>::BindShellItems(
                    Seq::empty(),
                )
            } else {
                after.stage == StageView::<F>::MakingAbsolute(Seq::empty()) && action
                    == ActionView::<F, W, I>::MakeAbsolute(0)
            }
        }),
{
}

/// The answers on the way to the drag proper: an object leads to the image, an image to the
/// helper, a helper to the image in its hands, and the lack of either, or that, to the drag.
pub proof fn law_answers_before_the_drag<F, W, I>(drag: DragView<F>, there: bool)
    ensures
        drag.stage is CreatingDataObject ==> drag.next(
            Event::<F, W, I>::DataObjectCreated,
        ).0.stage is LoadingImage && drag.next(
            Event::<F, W, I>::DataObjectCreated,
        ).1 is LoadImage,
        drag.stage is LoadingImage ==> ({
            let (after, action) = drag.next(Event::<F, W, I>::ImageLoaded(there));
            if there {
                after.stage is CreatingHelper && action is CreateHelper
            } else {
                after.stage is Dragging && action == ActionView::<F, W, I>::DoDragDrop(drag.effect)
            }
        }),
        drag.stage is CreatingHelper ==> ({
            let (after, action) = drag.next(Event::<F, W, I>::HelperCreated(there));
            if there {
                after.stage is AttachingImage && action is AttachImage
            } else {
                after.stage is Dragging && action == ActionView::<F, W, I>::DoDragDrop(drag.effect)
            }
        }),
        drag.stage is AttachingImage ==> ({
            let (after, action) = drag.next(Event::<F, W, I>::ImageAttached);
            after.stage is Dragging && action == ActionView::<F, W, I>::DoDragDrop(drag.effect)
        }),
{
}

/// The answers at the end: the status of the drag proper is kept while the cursor is asked for,
/// as a drop where it is that of a drop and as a cancelled drag where it is any other; then it is
/// reported with the position, or the error of the cursor is returned.
pub proof fn law_answers_after_the_drag<F, W, I>(
    drag: DragView<F>,
    status: i32,
    result: DragResult,
    cursor: Result<crate::session::CursorPosition, W>,
)
    ensures
        drag.stage is Dragging ==> ({
            let (after, action) = drag.next(Event::<F, W, I>::DragEnded(status));
            &&& action is LocateCursor
            &&& status == 262400 ==> after.stage == StageView::<F>::LocatingCursor(
                DragResult::Dropped,
            )
            &&& status != 262400 ==> after.stage == StageView::<F>::LocatingCursor(
                DragResult::Cancel,
            )
        }),
        drag.stage == StageView::<F>::LocatingCursor(result) ==> ({
            let (after, action) = drag.next(Event::<F, W, I>::CursorLocated(cursor));
            &&& after.stage is Finished
            &&& cursor matches Ok(position) ==> action == ActionView::<F, W, I>::Report(
                result,
                position,
            )
            &&& cursor matches Err(error) ==> action == ActionView::<F, W, I>::Fail(
                Error::Windows(error),
            )
        }),
{
}

/// Whatever comes of an action, the drag takes it: each outcome that the action can have is an
/// answer that the drag waits for, on every run.
pub proof fn law_every_outcome_is_taken<F, P, W, I>(
    handle: WindowHandle,
    item: DragItem<F, P>,
    options: Options,
    events: Seq<Event<F, W, I>>,
    outcome: Event<F, W, I>,
)
    requires
        legal(start(handle, item, options), events),
        match run(start::<F, P, W, I>(handle, item, options), events).1 {
            ActionView::InitializeOle => outcome is OleInitialized,
            ActionView::Canonicalize(_) => outcome is Canonicalized,
            ActionView::MakeAbsolute(_) => outcome is MadeAbsolute,
            ActionView::BindShellItems(_) => outcome is ShellItemsBound,
            ActionView::CreateDataObject => outcome is DataObjectCreated,
            ActionView::LoadImage => outcome is ImageLoaded,
            ActionView::CreateHelper => outcome is HelperCreated,
            ActionView::AttachImage => outcome is ImageAttached,
            ActionView::DoDragDrop(_) => outcome is DragEnded,
            ActionView::LocateCursor => outcome is CursorLocated,
            ActionView::Report(_, _) => false,
            ActionView::Fail(_) => false,
        },
    ensures
        legal(start(handle, item, options), events.push(outcome)),
        run(start::<F, P, W, I>(handle, item, options), events).0.valid(),
{
    law_drags_end(handle, item, options, events);
    if events.len() > 0 {
        law_drags_end(handle, item, options, events.drop_last());
    }
    assert(events.push(outcome).drop_last() =~= events);
}

/// Every file of a drag is asked for in its turn, and when all of them are found the shell is
/// asked for an object for all their paths, one for each file and in their order.
pub proof fn law_every_file_is_bound<F, P, W, I>(
    files: Vec<F>,
    options: Options,
    paths: Seq<F>,
)
    requires
        paths.len() <= files@.len(),
    ensures
        ({
            let first: Step<F, W, I> = start(
                WindowHandle::Win32,
                DragItem::<F, P>::Files(files),
                options,
            );
            let events = seq![Event::<F, W, I>::OleInitialized(Ok(()))] + canonicalized(paths);
            &&& legal(first, events)
            &&& paths.len() < files@.len() ==> run(first, events).1 == ActionView::<
                F,
                W,
                I,
            >::Canonicalize(paths.len() as int)
            &&& paths.len() == files@.len() ==> run(first, events).1 == ActionView::<
                F,
                W,
                I,
            >::BindShellItems(paths)
            &&& paths.len() < files@.len() ==> run(first, events).0.stage
                == StageView::Canonicalizing(paths)
        }),
    decreases paths.len(),
{
    let first: Step<F, W, I> = start(WindowHandle::Win32, DragItem::<F, P>::Files(files), options);
    let begun = seq![Event::<F, W, I>::OleInitialized(Ok(()))];
    let events = begun + canonicalized::<F, W, I>(paths);
    law_drags_start_with_every_file::<F, P, W, I>(
        WindowHandle::Win32,
        DragItem::Files(files),
        options,
    );
    if paths.len() == 0 {
        assert(events =~= begun);
        assert(begun.drop_last() =~= Seq::<Event<F, W, I>>::empty());
        assert(run(first, begun.drop_last()) == first);
        assert(legal(first, begun.drop_last()));
        law_answers_of_ole::<F, W, I>(first.0, Ok(()));
        assert(paths =~= Seq::empty());
    } else {
        let before = paths.drop_last();
        law_every_file_is_bound::<F, P, W, I>(files, options, before);
        let earlier = begun + canonicalized::<F, W, I>(before);
        assert(events.drop_last() =~= earlier);
        assert(events.last() == Event::<F, W, I>::Canonicalized(Ok(paths.last())));
        law_drags_end(WindowHandle::Win32, DragItem::<F, P>::Files(files), options, earlier);
        law_answers_for_canonical_paths::<F, W, I>(
            run(first, earlier).0,
            before,
            Ok(paths.last()),
        );
        assert(before.push(paths.last()) =~= paths);
    }
}

/// The paths that a drag has collected are those that the last answers brought, in their order.
proof fn lemma_collected_paths<F, P, W, I>(
    handle: WindowHandle,
    item: DragItem<F, P>,
    options: Options,
    events: Seq<Event<F, W, I>>,
)
    requires
        legal(start(handle, item, options), events),
    ensures
        run(start::<F, P, W, I>(handle, item, options), events).0.stage
            matches StageView::Canonicalizing(done) ==> done.len() <= events.len() && events.skip(
            events.len() - done.len(),
        ) == canonicalized::<F, W, I>(done),
        run(start::<F, P, W, I>(handle, item, options), events).0.stage
            matches StageView::MakingAbsolute(done) ==> done.len() <= events.len() && events.skip(
            events.len() - done.len(),
        ) == made_absolute::<F, W, I>(done),
    decreases events.len(),
{
    let first: Step<F, W, I> = start(handle, item, options);
    if events.len() > 0 {
        let before = events.drop_last();
        let drag = run(first, before).0;
        lemma_collected_paths(handle, item, options, before);
        law_drags_end(handle, item, options, before);
        match run(first, events).0.stage {
            StageView::Canonicalizing(done) => {
                if done.len() == 0 {
                    assert(events.skip(events.len() - done.len()) =~= canonicalized::<F, W, I>(
                        done,
                    ));
                } else {
                    lemma_appended(
                        before,
                        canonicalized::<F, W, I>(done.drop_last()),
                        events.last(),
                    );
                    assert(drag.stage->Canonicalizing_0 =~= done.drop_last());
                    assert(before.push(events.last()) =~= events);
                    assert(canonicalized::<F, W, I>(done.drop_last()).push(events.last())
                        =~= canonicalized::<F, W, I>(done));
                }
            },
            StageView::MakingAbsolute(done) => {
                if done.len() == 0 {
                    assert(events.skip(events.len() - done.len()) =~= made_absolute::<F, W, I>(
                        done,
                    ));
                } else {
                    lemma_appended(
                        before,
                        made_absolute::<F, W, I>(done.drop_last()),
                        events.last(),
                    );
                    assert(drag.stage->MakingAbsolute_0 =~= done.drop_last());
                    assert(before.push(events.last()) =~= events);
                    assert(made_absolute::<F, W, I>(done.drop_last()).push(events.last())
                        =~= made_absolute::<F, W, I>(done));
                }
            },
            _ => {},
        }
    }
}

/// What ends a sequence ends it with one more element too.
proof fn lemma_appended<T>(all: Seq<T>, end: Seq<T>, one: T)
    ensures
        end.len() <= all.len() && all.skip(all.len() - end.len()) == end ==> all.push(one).skip(
            all.len() - end.len(),
        ) == end.push(one),
{
    if end.len() <= all.len() && all.skip(all.len() - end.len()) == end {
        let from = all.len() - end.len();
        assert forall|i: int| 0 <= i < end.len() implies #[trigger] all.push(one).skip(from)[i]
            == end[i] by {
            assert(all.skip(from)[i] == end[i]);
        }
        assert(all.push(one).skip(from) =~= end.push(one));
    }
}

/// The shell is asked for an object only for files, and only for all of them: whenever it is, the
/// last answers were canonical paths, or absolute ones, one for each file that is dragged and
/// none of them an error, and these are the paths it is handed, in their order.
pub proof fn law_bound_paths_are_those_found<F, P, W, I>(
    handle: WindowHandle,
    item: DragItem<F, P>,
    options: Options,
    events: Seq<Event<F, W, I>>,
    paths: Seq<F>,
)
    requires
        legal(start(handle, item, options), events),
        run(start::<F, P, W, I>(handle, item, options), events).1 == ActionView::<
            F,
            W,
            I,
        >::BindShellItems(paths),
    ensures
        item matches DragItem::Files(files) && paths.len() == files@.len(),
        paths.len() <= events.len(),
        (forall|i: int|
            0 <= i < paths.len() ==> events[events.len() - paths.len() + i] == Event::<
                F,
                W,
                I,
            >::Canonicalized(Ok(#[trigger] paths[i]))) || (forall|i: int|
            0 <= i < paths.len() ==> events[events.len() - paths.len() + i] == Event::<
                F,
                W,
                I,
            >::MadeAbsolute(Some(#[trigger] paths[i]))),
{
    let first: Step<F, W, I> = start(handle, item, options);
    let before = events.drop_last();
    law_drags_end(handle, item, options, events);
    law_drags_end(handle, item, options, before);
    law_answers_keep_the_item(run(first, before).0, events.last());
    lemma_collected_paths(handle, item, options, before);
    law_drags_start_with_every_file::<F, P, W, I>(handle, item, options);
    let drag = run(first, before).0;
    assert(before.push(events.last()) =~= events);
    if paths.len() > 0 {
        let from = events.len() - paths.len();
        match drag.stage {
            StageView::Canonicalizing(done) => {
                lemma_appended(before, canonicalized::<F, W, I>(done), events.last());
                assert(canonicalized::<F, W, I>(done).push(events.last()) =~= canonicalized::<
                    F,
                    W,
                    I,
                >(paths));
                assert forall|i: int| 0 <= i < paths.len() implies events[from + i] == Event::<
                    F,
                    W,
                    I,
                >::Canonicalized(Ok(#[trigger] paths[i])) by {
                    assert(events.skip(from)[i] == canonicalized::<F, W, I>(paths)[i]);
                }
            },
            StageView::MakingAbsolute(done) => {
                lemma_appended(before, made_absolute::<F, W, I>(done), events.last());
                assert(made_absolute::<F, W, I>(done).push(events.last()) =~= made_absolute::<
                    F,
                    W,
                    I,
                >(paths));
                assert forall|i: int| 0 <= i < paths.len() implies events[from + i] == Event::<
                    F,
                    W,
                    I,
                >::MadeAbsolute(Some(#[trigger] paths[i])) by {
                    assert(events.skip(from)[i] == made_absolute::<F, W, I>(paths)[i]);
                }
            },
            _ => {},
        }
    }
}

/// An error is never passed over: on every run, one of OLE, of a canonical path or of the cursor
/// ends the drag and is what is returned.
pub proof fn law_errors_end_the_drag<F, P, W, I>(
    handle: WindowHandle,
    item: DragItem<F, P>,
    options: Options,
    events: Seq<Event<F, W, I>>,
)
    requires
        legal(start(handle, item, options), events),
        events.len() > 0,
    ensures
        ({
            let (drag, action) = run(start::<F, P, W, I>(handle, item, options), events);
            &&& events.last() matches Event::OleInitialized(Err(error)) ==> drag.stage is Finished
                && action == ActionView::<F, W, I>::Fail(Error::Windows(error))
            &&& events.last() matches Event::Canonicalized(Err(error)) ==> drag.stage is Finished
                && action == ActionView::<F, W, I>::Fail(Error::Io(error))
            &&& events.last() matches Event::CursorLocated(Err(error)) ==> drag.stage is Finished
                && action == ActionView::<F, W, I>::Fail(Error::Windows(error))
            &&& events.last() matches Event::CursorLocated(Ok(position)) ==> drag.stage is Finished
                && (action matches ActionView::Report(_, at) && at == position)
        }),
{
    law_drags_end(handle, item, options, events.drop_last());
}

} // verus!
