//! The course of one drag, as a machine: it says what is to be done next, is told what came of
//! it, and goes on from there, until the drag is reported or has failed.

use vstd::prelude::*;

use crate::codes::{DRAGDROP_S_DROP, DROPEFFECT_COPY, DROPEFFECT_MOVE};
use crate::data_object::DragItem;

verus! {

/// What a drop does to the dragged item.
#[derive(Clone, Copy, Debug, PartialEq, Eq, Structural)]
pub enum DragMode {
    Copy,
    Move,
}

/// How an item is dragged.
#[derive(Clone, Copy, Debug, PartialEq, Eq, Structural)]
pub struct Options {
    pub mode: DragMode,
}

/// What came of a drag.
#[derive(Clone, Copy, Debug, PartialEq, Eq, Structural)]
pub enum DragResult {
    Dropped,
    Cancel,
}

/// Where the cursor stands on the screen.
#[derive(Clone, Copy, Debug, PartialEq, Eq, Structural)]
pub struct CursorPosition {
    pub x: i32,
    pub y: i32,
}

/// The handle of the window that a drag starts from.
#[derive(Clone, Copy, Debug, PartialEq, Eq, Structural)]
pub enum WindowHandle {
    /// A window of Win32.
    Win32,
    /// A window of another system.
    Other,
    /// The window gave no handle.
    Unavailable,
}

/// Why a drag failed. `W` is the error of a system call, `I` that of a file operation.
pub enum Error<W, I> {
    Windows(W),
    Io(I),
    UnsupportedWindowHandle,
}

/// What a drag waits for. `F` is the path of a file.
pub enum Stage<F> {
    /// The initialization of OLE.
    InitializingOle,
    /// The canonical path of the next file; these are those of the files before it.
    Canonicalizing(Vec<F>),
    /// A data object of the shell for the canonical paths.
    BindingCanonical,
    /// The absolute path of the next file; these are those of the files before it.
    MakingAbsolute(Vec<F>),
    /// A data object of the shell for the absolute paths.
    BindingAbsolute,
    /// A data object of the library's own.
    CreatingDataObject,
    /// The image of the drag.
    LoadingImage,
    /// The helper of the shell that shows the image.
    CreatingHelper,
    /// The image to be handed to the helper.
    AttachingImage,
    /// The end of the drag proper.
    Dragging,
    /// The position of the cursor, for the report of this result.
    LocatingCursor(DragResult),
    /// Nothing any more.
    Finished,
}

/// What came of an action.
pub enum Event<F, W, I> {
    OleInitialized(Result<(), W>),
    Canonicalized(Result<F, I>),
    MadeAbsolute(Option<F>),
    /// Whether the shell made a data object for the paths.
    ShellItemsBound(bool),
    DataObjectCreated,
    /// Whether there is an image.
    ImageLoaded(bool),
    /// Whether there is a helper.
    HelperCreated(bool),
    ImageAttached,
    /// The status with which the drag proper ended.
    DragEnded(i32),
    CursorLocated(Result<CursorPosition, W>),
}

/// What is to be done next.
pub enum Action<F, W, I> {
    InitializeOle,
    /// Find the canonical path of the file at this index.
    Canonicalize(usize),
    /// Make the absolute path of the file at this index.
    MakeAbsolute(usize),
    /// Ask the shell for a data object for these paths.
    BindShellItems(Vec<F>),
    CreateDataObject,
    LoadImage,
    CreateHelper,
    /// Hand the image to the helper; it does not matter what comes of it.
    AttachImage,
    /// Run the drag proper, with this effect of a drop allowed.
    DoDragDrop(u32),
    LocateCursor,
    /// Report the result: the drag is over and was a success.
    Report(DragResult, CursorPosition),
    /// Return the error: the drag is over and was a failure.
    Fail(Error<W, I>),
}

/// A drag: how many files are dragged, or that none are; the effect of a drop; and what the drag
/// waits for.
pub struct Drag<F> {
    pub files: Option<usize>,
    pub effect: u32,
    pub stage: Stage<F>,
}

/// The model of a [`Stage`].
pub enum StageView<F> {
    InitializingOle,
    Canonicalizing(Seq<F>),
    BindingCanonical,
    MakingAbsolute(Seq<F>),
    BindingAbsolute,
    CreatingDataObject,
    LoadingImage,
    CreatingHelper,
    AttachingImage,
    Dragging,
    LocatingCursor(DragResult),
    Finished,
}

/// The model of an [`Action`].
pub enum ActionView<F, W, I> {
    InitializeOle,
    Canonicalize(int),
    MakeAbsolute(int),
    BindShellItems(Seq<F>),
    CreateDataObject,
    LoadImage,
    CreateHelper,
    AttachImage,
    DoDragDrop(u32),
    LocateCursor,
    Report(DragResult, CursorPosition),
    Fail(Error<W, I>),
}

/// The model of a [`Drag`].
pub struct DragView<F> {
    pub files: Option<nat>,
    pub effect: u32,
    pub stage: StageView<F>,
}

impl<F> View for Stage<F> {
    type V = StageView<F>;

    open spec fn view(&self) -> StageView<F> {
        match *self {
            Stage::InitializingOle => StageView::InitializingOle,
            Stage::Canonicalizing(done) => StageView::Canonicalizing(done@),
            Stage::BindingCanonical => StageView::BindingCanonical,
            Stage::MakingAbsolute(done) => StageView::MakingAbsolute(done@),
            Stage::BindingAbsolute => StageView::BindingAbsolute,
            Stage::CreatingDataObject => StageView::CreatingDataObject,
            Stage::LoadingImage => StageView::LoadingImage,
            Stage::CreatingHelper => StageView::CreatingHelper,
            Stage::AttachingImage => StageView::AttachingImage,
            Stage::Dragging => StageView::Dragging,
            Stage::LocatingCursor(result) => StageView::LocatingCursor(result),
            Stage::Finished => StageView::Finished,
        }
    }
}

impl<F, W, I> View for Action<F, W, I> {
    type V = ActionView<F, W, I>;

    open spec fn view(&self) -> ActionView<F, W, I> {
        match *self {
            Action::InitializeOle => ActionView::InitializeOle,
            Action::Canonicalize(index) => ActionView::Canonicalize(index as int),
            Action::MakeAbsolute(index) => ActionView::MakeAbsolute(index as int),
            Action::BindShellItems(paths) => ActionView::BindShellItems(paths@),
            Action::CreateDataObject => ActionView::CreateDataObject,
            Action::LoadImage => ActionView::LoadImage,
            Action::CreateHelper => ActionView::CreateHelper,
            Action::AttachImage => ActionView::AttachImage,
            Action::DoDragDrop(effect) => ActionView::DoDragDrop(effect),
            Action::LocateCursor => ActionView::LocateCursor,
            Action::Report(result, position) => ActionView::Report(result, position),
            Action::Fail(error) => ActionView::Fail(error),
        }
    }
}

impl<F> View for Drag<F> {
    type V = DragView<F>;

    open spec fn view(&self) -> DragView<F> {
        DragView {
            files: match self.files {
                Some(files) => Some(files as nat),
                None => None,
            },
            effect: self.effect,
            stage: self.stage@,
        }
    }
}

impl DragMode {
    /// The effect of a drop that the mode allows.
    pub open spec fn effect_of(self) -> u32 {
        match self {
            DragMode::Copy => DROPEFFECT_COPY,
            DragMode::Move => DROPEFFECT_MOVE,
        }
    }

    /// Finds the effect of a drop that the mode allows.
    pub fn effect(self) -> (effect: u32)
        ensures
            effect == self.effect_of(),
            self is Copy ==> effect == DROPEFFECT_COPY,
            self is Move ==> effect == DROPEFFECT_MOVE,
    {
        match self {
            DragMode::Copy => DROPEFFECT_COPY,
            DragMode::Move => DROPEFFECT_MOVE,
        }
    }
}

/// What the status at the end of the drag proper means.
pub open spec fn result_of(status: i32) -> DragResult {
    if status == DRAGDROP_S_DROP {
        DragResult::Dropped
    } else {
        DragResult::Cancel
    }
}

/// Finds out what the status at the end of the drag proper means: anything but a drop is a
/// cancelled drag.
pub fn drag_result(status: i32) -> (result: DragResult)
    ensures
        result == result_of(status),
        result is Dropped <==> status == DRAGDROP_S_DROP,
{
    if status == DRAGDROP_S_DROP {
        DragResult::Dropped
    } else {
        DragResult::Cancel
    }
}

impl<F> DragView<F> {
    /// Whether a drag can be where it is: paths are only collected where files are dragged, and
    /// only as long as one is missing.
    pub open spec fn valid(self) -> bool {
        match self.stage {
            StageView::Canonicalizing(done) | StageView::MakingAbsolute(done) => {
                self.files is Some && done.len() < self.files->0
            },
            StageView::BindingCanonical | StageView::BindingAbsolute => self.files is Some,
            _ => true,
        }
    }

    /// Whether an event is one that the drag waits for.
    pub open spec fn expects<W, I>(self, event: Event<F, W, I>) -> bool {
        match self.stage {
            StageView::InitializingOle => event is OleInitialized,
            StageView::Canonicalizing(_) => event is Canonicalized,
            StageView::MakingAbsolute(_) => event is MadeAbsolute,
            StageView::BindingCanonical => event is ShellItemsBound,
            StageView::BindingAbsolute => event is ShellItemsBound,
            StageView::CreatingDataObject => event is DataObjectCreated,
            StageView::LoadingImage => event is ImageLoaded,
            StageView::CreatingHelper => event is HelperCreated,
            StageView::AttachingImage => event is ImageAttached,
            StageView::Dragging => event is DragEnded,
            StageView::LocatingCursor(_) => event is CursorLocated,
            StageView::Finished => false,
        }
    }

    /// The same drag at another stage.
    pub open spec fn at(self, stage: StageView<F>) -> DragView<F> {
        DragView { stage, ..self }
    }

    /// Asks for the canonical path of the next file, or binds the paths where all are there.
    pub open spec fn canonicalize_next<W, I>(self, done: Seq<F>) -> (
        DragView<F>,
        ActionView<F, W, I>,
    ) {
        if done.len() < self.files->0 {
            (
                self.at(StageView::Canonicalizing(done)),
                ActionView::Canonicalize(done.len() as int),
            )
        } else {
            (self.at(StageView::BindingCanonical), ActionView::BindShellItems(done))
        }
    }

    /// Asks for the absolute path of the next file, or binds the paths where all are there.
    pub open spec fn make_absolute_next<W, I>(self, done: Seq<F>) -> (
        DragView<F>,
        ActionView<F, W, I>,
    ) {
        if done.len() < self.files->0 {
            (
                self.at(StageView::MakingAbsolute(done)),
                ActionView::MakeAbsolute(done.len() as int),
            )
        } else {
            (self.at(StageView::BindingAbsolute), ActionView::BindShellItems(done))
        }
    }

    /// Falls back on a data object of the library's own.
    pub open spec fn create_data_object<W, I>(self) -> (DragView<F>, ActionView<F, W, I>) {
        (self.at(StageView::CreatingDataObject), ActionView::CreateDataObject)
    }

    /// Goes on to the image, now that there is a data object.
    pub open spec fn load_image<W, I>(self) -> (DragView<F>, ActionView<F, W, I>) {
        (self.at(StageView::LoadingImage), ActionView::LoadImage)
    }

    /// Goes on to the drag proper.
    pub open spec fn do_drag_drop<W, I>(self) -> (DragView<F>, ActionView<F, W, I>) {
        (self.at(StageView::Dragging), ActionView::DoDragDrop(self.effect))
    }

    /// Ends the drag with an error.
    pub open spec fn fail<W, I>(self, error: Error<W, I>) -> (DragView<F>, ActionView<F, W, I>) {
        (self.at(StageView::Finished), ActionView::Fail(error))
    }

    /// Where an event takes the drag, and what is to be done then.
    pub open spec fn next<W, I>(self, event: Event<F, W, I>) -> (
        DragView<F>,
        ActionView<F, W, I>,
    ) {
        match (self.stage, event) {
            (StageView::InitializingOle, Event::OleInitialized(Ok(_))) => match self.files {
                Some(_) => self.canonicalize_next(Seq::empty()),
                None => self.create_data_object(),
            },
            (StageView::InitializingOle, Event::OleInitialized(Err(error))) => {
                self.fail(Error::Windows(error))
            },
            (StageView::Canonicalizing(done), Event::Canonicalized(Ok(path))) => {
                self.canonicalize_next(done.push(path))
            },
            (StageView::Canonicalizing(_), Event::Canonicalized(Err(error))) => {
                self.fail(Error::Io(error))
            },
            (StageView::BindingCanonical, Event::ShellItemsBound(true)) => self.load_image(),
            (StageView::BindingCanonical, Event::ShellItemsBound(false)) => {
                self.make_absolute_next(Seq::empty())
            },
            (StageView::MakingAbsolute(done), Event::MadeAbsolute(Some(path))) => {
                self.make_absolute_next(done.push(path))
            },
            (StageView::MakingAbsolute(_), Event::MadeAbsolute(None)) => self.create_data_object(),
            (StageView::BindingAbsolute, Event::ShellItemsBound(true)) => self.load_image(),
            (StageView::BindingAbsolute, Event::ShellItemsBound(false)) => {
                self.create_data_object()
            },
            (StageView::CreatingDataObject, Event::DataObjectCreated) => self.load_image(),
            (StageView::LoadingImage, Event::ImageLoaded(true)) => {
                (self.at(StageView::CreatingHelper), ActionView::CreateHelper)
            },
            (StageView::LoadingImage, Event::ImageLoaded(false)) => self.do_drag_drop(),
            (StageView::CreatingHelper, Event::HelperCreated(true)) => {
                (self.at(StageView::AttachingImage), ActionView::AttachImage)
            },
            (StageView::CreatingHelper, Event::HelperCreated(false)) => self.do_drag_drop(),
            (StageView::AttachingImage, Event::ImageAttached) => self.do_drag_drop(),
            (StageView::Dragging, Event::DragEnded(status)) => {
                (self.at(StageView::LocatingCursor(result_of(status))), ActionView::LocateCursor)
            },
            (StageView::LocatingCursor(result), Event::CursorLocated(Ok(position))) => {
                (self.at(StageView::Finished), ActionView::Report(result, position))
            },
            (StageView::LocatingCursor(_), Event::CursorLocated(Err(error))) => {
                self.fail(Error::Windows(error))
            },
            _ => arbitrary(),
        }
    }
}

/// The drag of an item before anything was done: the window must be one of Win32, or the drag
/// fails at once; then OLE is initialized.
pub open spec fn start<F, P, W, I>(
    handle: WindowHandle,
    item: DragItem<F, P>,
    options: Options,
) -> (DragView<F>, ActionView<F, W, I>) {
    let drag = DragView {
        files: match item {
            DragItem::Files(files) => Some(files@.len()),
            DragItem::Data { .. } => None,
        },
        effect: options.mode.effect_of(),
        stage: StageView::InitializingOle,
    };
    if handle is Win32 {
        (drag, ActionView::InitializeOle)
    } else {
        drag.fail(Error::UnsupportedWindowHandle)
    }
}

/// Starts the drag of an item from a window.
pub fn start_drag<F, P, W, I>(
    handle: WindowHandle,
    item: &DragItem<F, P>,
    options: Options,
) -> (started: (Drag<F>, Action<F, W, I>))
    ensures
        started.0@ == start::<F, P, W, I>(handle, *item, options).0,
        started.1@ == start::<F, P, W, I>(handle, *item, options).1,
        started.0@.valid(),
        match *item {
            DragItem::Files(files) => started.0.files is Some && started.0.files->0
                == files@.len(),
            DragItem::Data { .. } => started.0.files is None,
        },
        options.mode is Copy ==> started.0.effect == DROPEFFECT_COPY,
        options.mode is Move ==> started.0.effect == DROPEFFECT_MOVE,
        handle is Win32 ==> started.0.stage is InitializingOle && started.1 is InitializeOle,
        !(handle is Win32) ==> started.0.stage is Finished && (started.1 matches Action::Fail(error)
            && error is UnsupportedWindowHandle),
{
    let files: Option<usize> = match item {
        DragItem::Files(files) => Some(files.len()),
        DragItem::Data { .. } => None,
    };
    let effect = options.mode.effect();
    match handle {
        WindowHandle::Win32 => (
            Drag { files, effect, stage: Stage::InitializingOle },
            Action::InitializeOle,
        ),
        _ => (
            Drag { files, effect, stage: Stage::Finished },
            Action::Fail(Error::UnsupportedWindowHandle),
        ),
    }
}

impl<F> Drag<F> {
    /// Tells the drag what came of the last action, and learns what is to be done next.
    pub fn step<W, I>(self, event: Event<F, W, I>) -> (stepped: (Drag<F>, Action<F, W, I>))
        requires
            self@.valid(),
            self@.expects(event),
        ensures
            stepped.0@ == self@.next(event).0,
            stepped.1@ == self@.next(event).1,
            stepped.0@.valid(),
            stepped.0.files == self.files,
            stepped.0.effect == self.effect,
            event matches Event::OleInitialized(Err(error)) ==> stepped.0.stage is Finished
                && stepped.1 == Action::<F, W, I>::Fail(Error::Windows(error)),
            event matches Event::Canonicalized(Err(error)) ==> stepped.0.stage is Finished
                && stepped.1 == Action::<F, W, I>::Fail(Error::Io(error)),
            event matches Event::CursorLocated(Err(error)) ==> stepped.0.stage is Finished
                && stepped.1 == Action::<F, W, I>::Fail(Error::Windows(error)),
            event matches Event::DragEnded(status) ==> stepped.1 is LocateCursor && (
            stepped.0.stage matches Stage::LocatingCursor(result) && (result is Dropped <==> status
                == DRAGDROP_S_DROP)),
            event matches Event::CursorLocated(Ok(position)) ==> stepped.0.stage is Finished && (
            self.stage matches Stage::LocatingCursor(result) && stepped.1 == Action::<
                F,
                W,
                I,
            >::Report(result, position)),
            stepped.1 matches Action::BindShellItems(paths) ==> self.files is Some && paths@.len()
                == self.files->0,
            stepped.1 matches Action::DoDragDrop(effect) ==> effect == self.effect,
    {
        let Drag { files, effect, stage } = self;
        let count: usize = match files {
            Some(count) => count,
            None => 0,
        };
        let (stage, action) = match (stage, event) {
            (Stage::InitializingOle, Event::OleInitialized(Ok(_))) => match files {
                Some(_) => Self::canonicalize_next(count, Vec::new()),
                None => (Stage::CreatingDataObject, Action::CreateDataObject),
            },
            (Stage::InitializingOle, Event::OleInitialized(Err(error))) => (
                Stage::Finished,
                Action::Fail(Error::Windows(error)),
            ),
            (Stage::Canonicalizing(done), Event::Canonicalized(Ok(path))) => {
                let mut done = done;
                done.push(path);
                Self::canonicalize_next(count, done)
            },
            (Stage::Canonicalizing(_), Event::Canonicalized(Err(error))) => (
                Stage::Finished,
                Action::Fail(Error::Io(error)),
            ),
            (Stage::BindingCanonical, Event::ShellItemsBound(true)) => (
                Stage::LoadingImage,
                Action::LoadImage,
            ),
            (Stage::BindingCanonical, Event::ShellItemsBound(false)) => {
                Self::make_absolute_next(count, Vec::new())
            },
            (Stage::MakingAbsolute(done), Event::MadeAbsolute(Some(path))) => {
                let mut done = done;
                done.push(path);
                Self::make_absolute_next(count, done)
            },
            (Stage::MakingAbsolute(_), Event::MadeAbsolute(None)) => (
                Stage::CreatingDataObject,
                Action::CreateDataObject,
            ),
            (Stage::BindingAbsolute, Event::ShellItemsBound(true)) => (
                Stage::LoadingImage,
                Action::LoadImage,
            ),
            (Stage::BindingAbsolute, Event::ShellItemsBound(false)) => (
                Stage::CreatingDataObject,
                Action::CreateDataObject,
            ),
            (Stage::CreatingDataObject, Event::DataObjectCreated) => (
                Stage::LoadingImage,
                Action::LoadImage,
            ),
            (Stage::LoadingImage, Event::ImageLoaded(true)) => (
                Stage::CreatingHelper,
                Action::CreateHelper,
            ),
            (Stage::CreatingHelper, Event::HelperCreated(true)) => (
                Stage::AttachingImage,
                Action::AttachImage,
            ),
            (Stage::Dragging, Event::DragEnded(status)) => (
                Stage::LocatingCursor(drag_result(status)),
                Action::LocateCursor,
            ),
            (Stage::LocatingCursor(result), Event::CursorLocated(Ok(position))) => (
                Stage::Finished,
                Action::Report(result, position),
            ),
            (Stage::LocatingCursor(_), Event::CursorLocated(Err(error))) => (
                Stage::Finished,
                Action::Fail(Error::Windows(error)),
            ),
            // No image, no helper, or the image is in its hands.
            _ => (Stage::Dragging, Action::DoDragDrop(effect)),
        };
        (Drag { files, effect, stage }, action)
    }

    fn canonicalize_next<W, I>(count: usize, done: Vec<F>) -> (next: (Stage<F>, Action<F, W, I>))
        ensures
            done@.len() < count ==> next.0@ == StageView::Canonicalizing(done@) && next.1@
                == ActionView::<F, W, I>::Canonicalize(done@.len() as int),
            done@.len() >= count ==> next.0@ == StageView::<F>::BindingCanonical && next.1@
                == ActionView::<F, W, I>::BindShellItems(done@),
    {
        if done.len() < count {
            let index: usize = done.len();
            (Stage::Canonicalizing(done), Action::Canonicalize(index))
        } else {
            (Stage::BindingCanonical, Action::BindShellItems(done))
        }
    }

    fn make_absolute_next<W, I>(count: usize, done: Vec<F>) -> (next: (Stage<F>, Action<F, W, I>))
        ensures
            done@.len() < count ==> next.0@ == StageView::MakingAbsolute(done@) && next.1@
                == ActionView::<F, W, I>::MakeAbsolute(done@.len() as int),
            done@.len() >= count ==> next.0@ == StageView::<F>::BindingAbsolute && next.1@
                == ActionView::<F, W, I>::BindShellItems(done@),
    {
        if done.len() < count {
            let index: usize = done.len();
            (Stage::MakingAbsolute(done), Action::MakeAbsolute(index))
        } else {
            (Stage::BindingAbsolute, Action::BindShellItems(done))
        }
    }
}

} // verus!
