use drag::codes::{DRAGDROP_S_CANCEL, DRAGDROP_S_DROP, DROPEFFECT_COPY, DROPEFFECT_MOVE};
use drag::data_object::DragItem;
use drag::ole::Ole;
use drag::session::{
    drag_result, start_drag, Action, CursorPosition, Drag, DragMode, DragResult, Error, Event,
    Options, WindowHandle,
};

type TestAction = Action<&'static str, u8, i8>;
type TestEvent = Event<&'static str, u8, i8>;

const HERE: CursorPosition = CursorPosition { x: 3, y: -4 };

fn files(names: &[&'static str]) -> DragItem<&'static str, ()> {
    DragItem::Files(names.to_vec())
}

fn data() -> DragItem<&'static str, ()> {
    DragItem::Data { provider: (), types: vec!["a".to_string()] }
}

fn name(action: &TestAction) -> String {
    match action {
        Action::InitializeOle => "ole".to_string(),
        Action::Canonicalize(index) => format!("canonical {}", index),
        Action::MakeAbsolute(index) => format!("absolute {}", index),
        Action::BindShellItems(paths) => format!("bind {}", paths.join(",")),
        Action::CreateDataObject => "own object".to_string(),
        Action::LoadImage => "image".to_string(),
        Action::CreateHelper => "helper".to_string(),
        Action::AttachImage => "attach".to_string(),
        Action::DoDragDrop(effect) => format!("drag {}", effect),
        Action::LocateCursor => "cursor".to_string(),
        Action::Report(DragResult::Dropped, at) => format!("dropped {} {}", at.x, at.y),
        Action::Report(DragResult::Cancel, at) => format!("cancel {} {}", at.x, at.y),
        Action::Fail(Error::Windows(error)) => format!("windows {}", error),
        Action::Fail(Error::Io(error)) => format!("io {}", error),
        Action::Fail(Error::UnsupportedWindowHandle) => "unsupported".to_string(),
    }
}

fn actions(item: DragItem<&'static str, ()>, mode: DragMode, events: Vec<TestEvent>) -> Vec<String> {
    let started: (Drag<&'static str>, TestAction) =
        start_drag(WindowHandle::Win32, &item, Options { mode });
    let (mut drag, first) = started;
    let mut names = vec![name(&first)];
    for event in events {
        let (next, action) = drag.step(event);
        drag = next;
        names.push(name(&action));
    }
    names
}

#[test]
fn only_windows_of_win32_are_dragged_from() {
    let options = Options { mode: DragMode::Copy };
    for handle in [WindowHandle::Other, WindowHandle::Unavailable] {
        let started: (Drag<&'static str>, TestAction) = start_drag(handle, &data(), options);
        assert_eq!(name(&started.1), "unsupported");
    }
}

#[test]
fn files_are_dragged_by_their_canonical_paths() {
    let events = vec![
        Event::OleInitialized(Ok(())),
        Event::Canonicalized(Ok("A")),
        Event::Canonicalized(Ok("B")),
        Event::ShellItemsBound(true),
        Event::ImageLoaded(true),
        Event::HelperCreated(true),
        Event::ImageAttached,
        Event::DragEnded(DRAGDROP_S_DROP),
        Event::CursorLocated(Ok(HERE)),
    ];
    assert_eq!(
        actions(files(&["a", "b"]), DragMode::Copy, events),
        vec![
            "ole", "canonical 0", "canonical 1", "bind A,B", "image", "helper", "attach", "drag 1",
            "cursor", "dropped 3 -4",
        ]
    );
}

#[test]
fn absolute_paths_are_the_second_try() {
    let events = vec![
        Event::OleInitialized(Ok(())),
        Event::Canonicalized(Ok("A")),
        Event::Canonicalized(Ok("B")),
        Event::ShellItemsBound(false),
        Event::MadeAbsolute(Some("x")),
        Event::MadeAbsolute(Some("y")),
        Event::ShellItemsBound(true),
        Event::ImageLoaded(false),
    ];
    assert_eq!(
        actions(files(&["a", "b"]), DragMode::Move, events),
        vec![
            "ole", "canonical 0", "canonical 1", "bind A,B", "absolute 0", "absolute 1", "bind x,y",
            "image", "drag 2",
        ]
    );
}

#[test]
fn the_own_data_object_is_the_last_resort() {
    let events = vec![
        Event::OleInitialized(Ok(())),
        Event::Canonicalized(Ok("A")),
        Event::ShellItemsBound(false),
        Event::MadeAbsolute(Some("x")),
        Event::ShellItemsBound(false),
        Event::DataObjectCreated,
    ];
    assert_eq!(
        actions(files(&["a"]), DragMode::Copy, events),
        vec!["ole", "canonical 0", "bind A", "absolute 0", "bind x", "own object", "image"]
    );
    let events = vec![
        Event::OleInitialized(Ok(())),
        Event::Canonicalized(Ok("A")),
        Event::Canonicalized(Ok("B")),
        Event::ShellItemsBound(false),
        Event::MadeAbsolute(None),
    ];
    assert_eq!(
        actions(files(&["a", "b"]), DragMode::Copy, events).last().map(String::as_str),
        Some("own object")
    );
}

#[test]
fn no_files_are_bound_at_once() {
    let events = vec![
        Event::OleInitialized(Ok(())),
        Event::ShellItemsBound(false),
        Event::ShellItemsBound(false),
    ];
    assert_eq!(
        actions(files(&[]), DragMode::Copy, events),
        vec!["ole", "bind ", "bind ", "own object"]
    );
}

#[test]
fn data_needs_no_paths_and_no_image() {
    let events = vec![
        Event::OleInitialized(Ok(())),
        Event::DataObjectCreated,
        Event::ImageLoaded(true),
        Event::HelperCreated(false),
        Event::DragEnded(DRAGDROP_S_CANCEL),
        Event::CursorLocated(Ok(HERE)),
    ];
    assert_eq!(
        actions(data(), DragMode::Move, events),
        vec!["ole", "own object", "image", "helper", "drag 2", "cursor", "cancel 3 -4"]
    );
}

#[test]
fn failures_name_their_cause() {
    let events = vec![Event::OleInitialized(Err(9))];
    assert_eq!(actions(data(), DragMode::Copy, events), vec!["ole", "windows 9"]);
    let events = vec![
        Event::OleInitialized(Ok(())),
        Event::Canonicalized(Ok("A")),
        Event::Canonicalized(Err(-2)),
    ];
    assert_eq!(
        actions(files(&["a", "b", "c"]), DragMode::Copy, events),
        vec!["ole", "canonical 0", "canonical 1", "io -2"]
    );
    let events = vec![
        Event::OleInitialized(Ok(())),
        Event::DataObjectCreated,
        Event::ImageLoaded(false),
        Event::DragEnded(DRAGDROP_S_DROP),
        Event::CursorLocated(Err(5)),
    ];
    assert_eq!(
        actions(data(), DragMode::Copy, events).last().map(String::as_str),
        Some("windows 5")
    );
}

#[test]
fn anything_but_a_drop_is_a_cancelled_drag() {
    assert_eq!(drag_result(DRAGDROP_S_DROP), DragResult::Dropped);
    assert_eq!(drag_result(DRAGDROP_S_CANCEL), DragResult::Cancel);
    assert_eq!(drag_result(0), DragResult::Cancel);
    assert_eq!(drag_result(-1), DragResult::Cancel);
}

#[test]
fn modes_have_their_effects() {
    assert_eq!(DragMode::Copy.effect(), DROPEFFECT_COPY);
    assert_eq!(DragMode::Move.effect(), DROPEFFECT_MOVE);
}

#[test]
fn ole_is_initialized_once() {
    let mut ole: Ole<u8> = Ole::new();
    assert_eq!(ole.error(), None);
    let mut calls = 0;
    ole.init_ole(|| {
        calls += 1;
        Err(3)
    });
    ole.init_ole(|| panic!("initialized twice"));
    assert_eq!(calls, 1);
    assert_eq!(ole.error(), Some(&3));

    let mut ole: Ole<u8> = Ole::new();
    ole.init_ole(|| Ok(()));
    assert_eq!(ole.error(), None);
    assert_eq!(ole.result, Some(Ok(())));
}
