use one_ok_todo::protocol::{
    IoEvent, LoadAction, LoadOp, LoadPhase, SaveAction, SaveOp, SavePhase,
};
use one_ok_todo::store::{StoreError, StoreLayout};

fn layout() -> StoreLayout {
    StoreLayout { documents: "/home/u/Documents".to_string() }
}

fn dir() -> Vec<String> {
    vec!["/home/u/Documents".to_string(), "OneOkTodo".to_string(), "data".to_string()]
}

fn file() -> Vec<String> {
    let mut f = dir();
    f.push("root-data.json".to_string());
    f
}

/// Runs a save whose every request succeeds; the directory exists when
/// `dir_exists`. Returns the text written and how the save ended.
fn save_all_ok(data: &str, dir_exists: bool) -> (String, Result<(), StoreError>) {
    let (mut op, a) = SaveOp::begin(layout(), data.to_string());
    assert!(matches!(a, SaveAction::ProbeDir(ref p) if *p == dir()));
    let ev = IoEvent::Exists(dir_exists);
    assert!(op.accepts(&ev));
    let mut a = op.step(ev);
    if !dir_exists {
        assert!(matches!(a, SaveAction::CreateDirAll(ref p) if *p == dir()));
        a = op.step(IoEvent::Done(Ok(())));
    }
    assert!(matches!(a, SaveAction::CreateFile(ref p) if *p == file()));
    let written = match op.step(IoEvent::Done(Ok(()))) {
        SaveAction::WriteAll(t) => t,
        _ => panic!("expected a write"),
    };
    match op.step(IoEvent::Done(Ok(()))) {
        SaveAction::Finish(r) => {
            assert!(op.phase == SavePhase::Finished);
            (written, r)
        },
        _ => panic!("expected the save to finish"),
    }
}

/// Runs a load that finds a file holding `stored`.
fn load_stored(stored: &str) -> Result<String, StoreError> {
    let (mut op, a) = LoadOp::begin(layout());
    assert!(matches!(a, LoadAction::ProbeFile(ref p) if *p == file()));
    let a = op.step(IoEvent::Exists(true));
    assert!(matches!(a, LoadAction::ReadToString(ref p) if *p == file()));
    match op.step(IoEvent::Text(Ok(stored.to_string()))) {
        LoadAction::Finish(r) => r,
        _ => panic!("expected the load to finish"),
    }
}

#[test]
fn layout_paths() {
    let l = layout();
    assert_eq!(l.data_dir(), dir());
    assert_eq!(l.root_file(), file());
}

#[test]
fn layout_needs_documents_directory() {
    assert!(matches!(StoreLayout::new(None), Err(StoreError::PathResolution)));
    let l = StoreLayout::new(Some("/docs".to_string()));
    assert!(matches!(l, Ok(ref l) if l.documents == "/docs"));
}

#[test]
fn round_trip_of_text() {
    for s in ["{\"todos\":[]}", "", "grüße, 世界 ✓"] {
        let (written, r) = save_all_ok(s, true);
        assert!(r.is_ok());
        assert_eq!(written, s);
        assert_eq!(load_stored(&written).ok().unwrap(), s);
    }
}

#[test]
fn first_run_loads_empty_text() {
    let (mut op, _) = LoadOp::begin(layout());
    match op.step(IoEvent::Exists(false)) {
        LoadAction::Finish(Ok(t)) => assert_eq!(t, ""),
        _ => panic!("a missing file must load as empty text"),
    }
    assert!(op.phase == LoadPhase::Finished);
}

#[test]
fn second_save_overwrites_first() {
    let (first, _) = save_all_ok("first payload", true);
    let (second, r) = save_all_ok("b", true);
    assert!(r.is_ok());
    assert_eq!(first, "first payload");
    assert_eq!(load_stored(&second).ok().unwrap(), "b");
}

#[test]
fn missing_directory_is_created() {
    let (written, r) = save_all_ok("x", false);
    assert!(r.is_ok());
    assert_eq!(written, "x");
}

#[test]
fn directory_create_failure_is_reported() {
    let (mut op, _) = SaveOp::begin(layout(), "x".to_string());
    let _ = op.step(IoEvent::Exists(false));
    match op.step(IoEvent::Done(Err("File exists (os error 17)".to_string()))) {
        SaveAction::Finish(Err(e)) => {
            assert!(matches!(e, StoreError::DirectoryCreate(_)));
            assert_eq!(e.message(), "File exists (os error 17)");
        },
        _ => panic!("expected a directory error"),
    }
}

#[test]
fn file_create_failure_is_reported() {
    let (mut op, _) = SaveOp::begin(layout(), "x".to_string());
    let _ = op.step(IoEvent::Exists(true));
    match op.step(IoEvent::Done(Err("Not a directory (os error 20)".to_string()))) {
        SaveAction::Finish(Err(StoreError::FileCreate(m))) => {
            assert_eq!(m, "Not a directory (os error 20)")
        },
        _ => panic!("expected a file-creation error"),
    }
}

#[test]
fn write_failure_is_reported() {
    let (mut op, _) = SaveOp::begin(layout(), "x".to_string());
    let _ = op.step(IoEvent::Exists(true));
    let _ = op.step(IoEvent::Done(Ok(())));
    assert!(op.phase == SavePhase::Writing);
    match op.step(IoEvent::Done(Err("No space left on device".to_string()))) {
        SaveAction::Finish(Err(StoreError::Write(m))) => assert_eq!(m, "No space left on device"),
        _ => panic!("expected a write error"),
    }
}

#[test]
fn read_failure_is_reported() {
    let (mut op, _) = LoadOp::begin(layout());
    let _ = op.step(IoEvent::Exists(true));
    match op.step(IoEvent::Text(Err("stream did not contain valid UTF-8".to_string()))) {
        LoadAction::Finish(Err(e)) => {
            assert!(matches!(e, StoreError::Read(_)));
            assert_eq!(e.message(), "stream did not contain valid UTF-8");
        },
        _ => panic!("expected a read error"),
    }
}

#[test]
fn path_resolution_message() {
    assert_eq!(
        StoreError::PathResolution.message(),
        "the documents directory could not be resolved"
    );
}

#[test]
fn events_out_of_turn_are_not_accepted() {
    let (op, _) = SaveOp::begin(layout(), "x".to_string());
    assert!(!op.accepts(&IoEvent::Done(Ok(()))));
    assert!(!op.accepts(&IoEvent::Text(Ok(String::new()))));
    let (lop, _) = LoadOp::begin(layout());
    assert!(lop.accepts(&IoEvent::Exists(true)));
    assert!(!lop.accepts(&IoEvent::Text(Ok(String::new()))));
}
