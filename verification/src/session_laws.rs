//! What holds of every drag, from its start to its end.

use vstd::prelude::*;

use crate::codes::DRAGDROP_S_DROP;
use crate::data_object::DragItem;
use crate::session::{
    start, ActionView, CursorPosition, DragResult, DragView, Error, Event,
    Options, StageView, WindowHandle,
};

verus! {

/// A drag and what is to be done next.
pub type Step<F, W, I> = (DragView<F>, ActionView<F, W, I>);

/// Where a run of events takes a drag, and what is to be done then.
pub open spec fn run<F, W, I>(from: Step<F, W, I>, events: Seq<Event<F, W, I>>) -> Step<F, W, I>
    decreases events.len(),
{
    if events.len() == 0 {
        from
    } else {
        run(from, events.drop_last()).0.next(events.last())
    }
}

/// Whether each event of a run is one that the drag waits for when it comes.
pub open spec fn legal<F, W, I>(from: Step<F, W, I>, events: Seq<Event<F, W, I>>) -> bool
    decreases events.len(),
{
    events.len() > 0 ==> {
        &&& legal(from, events.drop_last())
        &&& run(from, events.drop_last()).0.expects(events.last())
    }
}

/// How many events a drag waits for at the most.
pub open spec fn remaining<F>(drag: DragView<F>) -> int {
    let files: int = match drag.files {
        Some(files) => files as int,
        None => 0,
    };
    match drag.stage {
        StageView::Finished => 0,
        StageView::LocatingCursor(_) => 1,
        StageView::Dragging => 2,
        StageView::AttachingImage => 3,
        StageView::CreatingHelper => 4,
        StageView::LoadingImage => 5,
        StageView::CreatingDataObject => 6,
        StageView::BindingAbsolute => 7,
        StageView::MakingAbsolute(done) => 7 + files - done.len(),
        StageView::BindingCanonical => 8 + files,
        StageView::Canonicalizing(done) => 8 + 2 * files - done.len(),
        StageView::InitializingOle => 9 + 2 * files,
    }
}

/// Whether an action ends the drag.
pub open spec fn ends<F, W, I>(action: ActionView<F, W, I>) -> bool {
    action is Report || action is Fail
}

/// Each event that a drag waits for keeps the drag valid and brings it nearer to its end.
pub proof fn law_events_bring_the_end_nearer<F, W, I>(drag: DragView<F>, event: Event<F, W, I>)
    requires
        drag.valid(),
        drag.expects(event),
    ensures
        drag.next(event).0.valid(),
        0 <= remaining(drag.next(event).0) < remaining(drag),
{
}

/// Every drag ends: from the start of one, no more events are waited for than nine and two for
/// each file. It stays valid all the while, and the effect of a drop stays that of the mode.
pub proof fn law_drags_end<F, P, W, I>(
    handle: WindowHandle,
    item: DragItem<F, P>,
    options: Options,
    events: Seq<Event<F, W, I>>,
)
    requires
        legal(start(handle, item, options), events),
    ensures
        ({
            let first: Step<F, W, I> = start(handle, item, options);
            let drag = run(first, events).0;
            &&& drag.valid()
            &&& 0 <= remaining(drag)
            &&& events.len() + remaining(drag) <= remaining(first.0)
            &&& drag.files == first.0.files
            &&& drag.effect == options.mode.effect_of()
        }),
    decreases events.len(),
{
    if events.len() > 0 {
        let first: Step<F, W, I> = start(handle, item, options);
        law_drags_end(handle, item, options, events.drop_last());
        law_events_bring_the_end_nearer(run(first, events.drop_last()).0, events.last());
    }
}

/// A drag waits for nothing more exactly when it was told to report or to fail, so it does one of
/// the two, and that once.
pub proof fn law_one_end<F, P, W, I>(
    handle: WindowHandle,
    item: DragItem<F, P>,
    options: Options,
    events: Seq<Event<F, W, I>>,
)
    requires
        legal(start(handle, item, options), events),
    ensures
        ({
            let (drag, action) = run(start(handle, item, options), events);
            &&& ends(action) <==> drag.stage is Finished
            &&& ends(action) ==> forall|event: Event<F, W, I>| !drag.expects(event)
        }),
{
    law_drags_end(handle, item, options, events);
    if events.len() > 0 {
        law_drags_end(handle, item, options, events.drop_last());
    }
}

/// A report tells the truth: it follows the end of the drag proper and the position of the cursor
/// that was asked for then, and says that the item was dropped exactly when the status said so.
pub proof fn law_reports_are_true<F, P, W, I>(
    handle: WindowHandle,
    item: DragItem<F, P>,
    options: Options,
    events: Seq<Event<F, W, I>>,
    result: DragResult,
    position: CursorPosition,
)
    requires
        legal(start(handle, item, options), events),
        run(start(handle, item, options), events).1 == ActionView::<F, W, I>::Report(
            result,
            position,
        ),
    ensures
        events.len() >= 2,
        events.last() == Event::<F, W, I>::CursorLocated(Ok(position)),
        events[events.len() - 2] matches Event::DragEnded(status) && (result is Dropped <==> status
            == DRAGDROP_S_DROP),
{
    let first: Step<F, W, I> = start(handle, item, options);
    let before = events.drop_last();
    assert(legal(first, before));
    assert(run(first, before).0.stage is LocatingCursor);
    if before.len() > 0 {
        assert(legal(first, before.drop_last()));
        law_drags_end(handle, item, options, before.drop_last());
        assert(before.last() == events[events.len() - 2]);
    }
}

/// A failure names its cause: a window that is not of Win32, or the error that the last event
/// brought, of the initialization of OLE, of a path or of the position of the cursor.
pub proof fn law_failures_name_their_cause<F, P, W, I>(
    handle: WindowHandle,
    item: DragItem<F, P>,
    options: Options,
    events: Seq<Event<F, W, I>>,
    error: Error<W, I>,
)
    requires
        legal(start(handle, item, options), events),
        run(start(handle, item, options), events).1 == ActionView::<F, W, I>::Fail(error),
    ensures
        match error {
            Error::UnsupportedWindowHandle => !(handle is Win32) && events.len() == 0,
            Error::Io(error) => events.len() > 0 && events.last() == Event::<
                F,
                W,
                I,
            >::Canonicalized(Err(error)),
            Error::Windows(error) => events.len() > 0 && (events.last() == Event::<
                F,
                W,
                I,
            >::OleInitialized(Err(error)) || events.last() == Event::<F, W, I>::CursorLocated(
                Err(error),
            )),
        },
{
    let first: Step<F, W, I> = start(handle, item, options);
    if events.len() > 0 {
        law_drags_end(handle, item, options, events.drop_last());
    }
}

/// The drag proper is run with the effect of the mode, and it is run once: when it has ended, only
/// the position of the cursor is waited for.
pub proof fn law_one_drag_proper<F, P, W, I>(
    handle: WindowHandle,
    item: DragItem<F, P>,
    options: Options,
    events: Seq<Event<F, W, I>>,
    i: int,
)
    requires
        legal(start(handle, item, options), events),
        0 <= i < events.len(),
        events[i] is DragEnded,
    ensures
        run(start(handle, item, options), events.take(i)).1 == ActionView::<F, W, I>::DoDragDrop(
            options.mode.effect_of(),
        ),
        i + 2 >= events.len(),
    decreases events.len(),
{
    let first: Step<F, W, I> = start(handle, item, options);
    let before = events.drop_last();
    assert(legal(first, before));
    if i == events.len() - 1 {
        assert(events.take(i) =~= before);
        law_drags_end(handle, item, options, before);
        assert(run(first, before).0.stage is Dragging);
        if before.len() > 0 {
            assert(legal(first, before.drop_last()));
            law_drags_end(handle, item, options, before.drop_last());
        }
    } else {
        law_one_drag_proper(handle, item, options, before, i);
        assert(events.take(i) =~= before.take(i));
        if i + 2 < events.len() {
            assert(before.last() == events[events.len() - 2]);
            assert(before.drop_last().last() == events[i]);
            assert(legal(first, before.drop_last()));
            assert(run(first, before.drop_last()).0.stage is LocatingCursor);
            assert(run(first, before).0.stage is Finished);
        }
    }
}

/// The events of paths that were found without fail.
pub open spec fn canonicalized<F, W, I>(paths: Seq<F>) -> Seq<Event<F, W, I>> {
    paths.map_values(|path: F| Event::Canonicalized(Ok(path)))
}

/// The events of paths that were made absolute without fail.
pub open spec fn made_absolute<F, W, I>(paths: Seq<F>) -> Seq<Event<F, W, I>> {
    paths.map_values(|path: F| Event::MadeAbsolute(Some(path)))
}

/// The first data object that is tried for files is one of the shell for their canonical paths,
/// all of them and in their order, each asked for in turn.
pub proof fn law_canonical_paths_come_first<F, W, I>(drag: DragView<F>, paths: Seq<F>)
    requires
        drag.files is Some,
        drag.stage is InitializingOle,
        paths.len() <= drag.files->0,
    ensures
        ({
            let first: Step<F, W, I> = drag.next(Event::OleInitialized(Ok(())));
            &&& legal(first, canonicalized(paths))
            &&& run(first, canonicalized(paths)) == drag.canonicalize_next::<W, I>(paths)
        }),
    decreases paths.len(),
{
    let events = canonicalized::<F, W, I>(paths);
    if paths.len() == 0 {
        assert(paths =~= Seq::empty());
    } else {
        let before = paths.drop_last();
        law_canonical_paths_come_first::<F, W, I>(drag, before);
        assert(events.drop_last() =~= canonicalized::<F, W, I>(before));
        assert(before.push(paths.last()) =~= paths);
    }
}

/// Where the shell makes no data object for the canonical paths, the next that is tried is one of
/// the shell for the absolute paths, all of them and in their order, each asked for in turn.
pub proof fn law_absolute_paths_come_second<F, W, I>(drag: DragView<F>, paths: Seq<F>)
    requires
        drag.files is Some,
        drag.stage is BindingCanonical,
        paths.len() <= drag.files->0,
    ensures
        ({
            let first: Step<F, W, I> = drag.next(Event::ShellItemsBound(false));
            &&& legal(first, made_absolute(paths))
            &&& run(first, made_absolute(paths)) == drag.make_absolute_next::<W, I>(paths)
        }),
    decreases paths.len(),
{
    let events = made_absolute::<F, W, I>(paths);
    if paths.len() == 0 {
        assert(paths =~= Seq::empty());
    } else {
        let before = paths.drop_last();
        law_absolute_paths_come_second::<F, W, I>(drag, before);
        assert(events.drop_last() =~= made_absolute::<F, W, I>(before));
        assert(before.push(paths.last()) =~= paths);
    }
}

/// Absolute paths are asked for only after the shell made no data object for the canonical ones.
proof fn lemma_absolute_after_refusal<F, P, W, I>(
    handle: WindowHandle,
    item: DragItem<F, P>,
    options: Options,
    events: Seq<Event<F, W, I>>,
)
    requires
        legal(start(handle, item, options), events),
        ({
            let stage = run(start::<F, P, W, I>(handle, item, options), events).0.stage;
            stage is MakingAbsolute || stage is BindingAbsolute
        }),
    ensures
        exists|i: int|
            0 <= i < events.len() && #[trigger] events[i] == Event::<F, W, I>::ShellItemsBound(
                false,
            ),
    decreases events.len(),
{
    let first: Step<F, W, I> = start(handle, item, options);
    let before = events.drop_last();
    let stage = run(first, before).0.stage;
    if stage is BindingCanonical {
        assert(events[events.len() - 1] == Event::<F, W, I>::ShellItemsBound(false));
    } else {
        lemma_absolute_after_refusal(handle, item, options, before);
        let i = choose|i: int|
            0 <= i < before.len() && #[trigger] before[i] == Event::<F, W, I>::ShellItemsBound(
                false,
            );
        assert(events[i] == Event::<F, W, I>::ShellItemsBound(false));
    }
}

/// The data object of the library's own is the last resort for files: it is created only where
/// the shell made none for the canonical paths, and then none for the absolute ones either, or a
/// path could not be made absolute. For data it is the only one, created as soon as OLE is there.
pub proof fn law_own_data_object_is_last<F, P, W, I>(
    handle: WindowHandle,
    item: DragItem<F, P>,
    options: Options,
    events: Seq<Event<F, W, I>>,
)
    requires
        legal(start(handle, item, options), events),
        run(start::<F, P, W, I>(handle, item, options), events).1 is CreateDataObject,
    ensures
        events.len() > 0,
        match item {
            DragItem::Files(_) => {
                &&& events.last() == Event::<F, W, I>::ShellItemsBound(false) || events.last()
                    == Event::<F, W, I>::MadeAbsolute(None)
                &&& exists|i: int|
                    0 <= i < events.len() - 1 && #[trigger] events[i] == Event::<
                        F,
                        W,
                        I,
                    >::ShellItemsBound(false)
            },
            DragItem::Data { .. } => events.len() == 1 && events[0] matches Event::OleInitialized(
                Ok(_),
            ),
        },
{
    let first: Step<F, W, I> = start(handle, item, options);
    let before = events.drop_last();
    law_drags_end(handle, item, options, events);
    law_drags_end(handle, item, options, before);
    let drag = run(first, before).0;
    if item is Files {
        lemma_absolute_after_refusal(handle, item, options, before);
        let i = choose|i: int|
            0 <= i < before.len() && #[trigger] before[i] == Event::<F, W, I>::ShellItemsBound(
                false,
            );
        assert(events[i] == Event::<F, W, I>::ShellItemsBound(false));
    } else {
        assert(drag.stage is InitializingOle);
        if before.len() > 0 {
            assert(legal(first, before.drop_last()));
            law_drags_end(handle, item, options, before.drop_last());
            assert(false);
        }
    }
}

/// An image is a nicety: whether it is there, whether the shell helps to show it, and whatever
/// comes of it, the drag proper follows.
pub proof fn law_drags_need_no_image<F, W, I>(drag: DragView<F>)
    requires
        drag.stage is LoadingImage,
    ensures
        ({
            let without = drag.next(Event::<F, W, I>::ImageLoaded(false));
            let with = drag.next(Event::<F, W, I>::ImageLoaded(true)).0;
            let helped = with.next(Event::<F, W, I>::HelperCreated(true)).0;
            &&& without == drag.do_drag_drop::<W, I>()
            &&& with.next(Event::<F, W, I>::HelperCreated(false)) == drag.do_drag_drop::<W, I>()
            &&& helped.next(Event::<F, W, I>::ImageAttached) == drag.do_drag_drop::<W, I>()
        }),
{
}

} // verus!
