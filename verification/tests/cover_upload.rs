use manga_shelf_lib::cover::plan_cover_file;
use manga_shelf_lib::cover_upload::{
    advance_cover_upload, start_cover_upload, CoverUpload, UploadAction, UploadEvent,
};
use manga_shelf_lib::error::AppError;
use manga_shelf_lib::models::{CoverAsset, CoverMimeType};

fn png_cover_bytes() -> Vec<u8> {
    let mut bytes = b"\x89PNG\r\n\x1a\n".to_vec();
    bytes.extend_from_slice(b"manga-cover-content");
    bytes
}

fn stored_asset(id: &str, relative_path: &str) -> CoverAsset {
    CoverAsset {
        id: id.to_string(),
        relative_path: relative_path.to_string(),
        mime_type: CoverMimeType::Png,
        byte_size: 27,
        sha256: id.to_string(),
    }
}

/// Runs an upload through `events`, and returns the last action.
fn run(events: Vec<UploadEvent>) -> (CoverUpload, UploadAction) {
    let (mut upload, mut action) = start_cover_upload();
    assert!(matches!(action, UploadAction::MeasureSource));
    for event in events {
        (upload, action) = advance_cover_upload(upload, event);
    }
    (upload, action)
}

fn content_path() -> String {
    plan_cover_file(&png_cover_bytes()).expect("png").relative_path
}

fn until_saving(exists: bool, previous: Option<CoverAsset>) -> Vec<UploadEvent> {
    let mut events = vec![
        UploadEvent::Measured(27),
        UploadEvent::Read(png_cover_bytes()),
        UploadEvent::CurrentCover(previous),
        UploadEvent::TargetExists(exists),
    ];
    if !exists {
        events.push(UploadEvent::Done);
        events.push(UploadEvent::Done);
    }
    events
}

#[test]
fn a_new_cover_is_written_where_its_content_names_it() {
    let (_, action) = run(vec![
        UploadEvent::Measured(27),
        UploadEvent::Read(png_cover_bytes()),
        UploadEvent::CurrentCover(None),
        UploadEvent::TargetExists(false),
    ]);
    match action {
        UploadAction::WriteTemporary(path, bytes) => {
            assert_eq!(path, content_path());
            assert!(path.starts_with("covers/") && path.ends_with(".png"));
            assert_eq!(bytes, png_cover_bytes());
        }
        other => panic!("unexpected {other:?}"),
    }
    let mut events = until_saving(false, None);
    events.truncate(5);
    match run(events).1 {
        UploadAction::MoveIntoPlace(path) => assert_eq!(path, content_path()),
        other => panic!("unexpected {other:?}"),
    }
    match run(until_saving(false, None)).1 {
        UploadAction::SaveAsset(file) => {
            assert_eq!(file.relative_path, content_path());
            assert_eq!(file.mime_type, CoverMimeType::Png);
            assert_eq!(file.byte_size, 27);
        }
        other => panic!("unexpected {other:?}"),
    }
}

#[test]
fn a_cover_already_stored_is_not_written_again() {
    match run(until_saving(true, None)).1 {
        UploadAction::SaveAsset(file) => assert_eq!(file.relative_path, content_path()),
        other => panic!("unexpected {other:?}"),
    }
}

#[test]
fn replacing_a_cover_releases_the_previous_one_and_removes_its_file() {
    let mut events = until_saving(false, Some(stored_asset("old", "covers/old.png")));
    events.push(UploadEvent::Saved(stored_asset("new", "covers/new.png")));
    match run(events.clone()).1 {
        UploadAction::ReleaseAsset(id) => assert_eq!(id, "old"),
        other => panic!("unexpected {other:?}"),
    }
    events.push(UploadEvent::Released(true));
    match run(events.clone()).1 {
        UploadAction::RemoveFile(path) => assert_eq!(path, "covers/old.png"),
        other => panic!("unexpected {other:?}"),
    }
    events.push(UploadEvent::Failed(AppError::new("io", "removal failed")));
    match run(events).1 {
        UploadAction::Succeed(stored) => assert_eq!(stored.id, "new"),
        other => panic!("unexpected {other:?}"),
    }
}

#[test]
fn a_previous_cover_still_in_use_or_outside_covers_keeps_its_file() {
    let mut events = until_saving(true, Some(stored_asset("old", "covers/old.png")));
    events.push(UploadEvent::Saved(stored_asset("new", "covers/new.png")));
    events.push(UploadEvent::Released(false));
    match run(events).1 {
        UploadAction::Succeed(stored) => assert_eq!(stored.id, "new"),
        other => panic!("unexpected {other:?}"),
    }
    let mut events = until_saving(true, Some(stored_asset("old", "../library.sqlite3")));
    events.push(UploadEvent::Saved(stored_asset("new", "covers/new.png")));
    events.push(UploadEvent::Released(true));
    match run(events).1 {
        UploadAction::Succeed(stored) => assert_eq!(stored.id, "new"),
        other => panic!("unexpected {other:?}"),
    }
}

#[test]
fn setting_the_same_asset_again_releases_nothing() {
    let mut events = until_saving(true, Some(stored_asset("same", "covers/same.png")));
    events.push(UploadEvent::Saved(stored_asset("same", "covers/same.png")));
    match run(events).1 {
        UploadAction::Succeed(stored) => assert_eq!(stored.id, "same"),
        other => panic!("unexpected {other:?}"),
    }
}

#[test]
fn a_failed_save_removes_only_a_file_this_upload_created() {
    let failure = || UploadEvent::Failed(AppError::new("database_operation_failed", "x"));
    let mut created = until_saving(false, None);
    created.push(failure());
    match run(created).1 {
        UploadAction::DiscardCreatedFile(path, error) => {
            assert_eq!(path, content_path());
            assert_eq!(error.code, "database_operation_failed");
        }
        other => panic!("unexpected {other:?}"),
    }
    let mut existing = until_saving(true, None);
    existing.push(failure());
    match run(existing).1 {
        UploadAction::Fail(error) => assert_eq!(error.code, "database_operation_failed"),
        other => panic!("unexpected {other:?}"),
    }
}

#[test]
fn a_failed_rename_discards_the_temporary_file() {
    let mut events = until_saving(false, None);
    events.pop();
    events.push(UploadEvent::MoveFailed("access denied".to_string()));
    match run(events).1 {
        UploadAction::DiscardTemporary(error) => {
            assert_eq!(error.code, "cover_copy_failed");
            assert_eq!(error.message, "access denied");
        }
        other => panic!("unexpected {other:?}"),
    }
}

#[test]
fn refused_files_stop_before_anything_is_written() {
    match run(vec![UploadEvent::Measured(10 * 1024 * 1024 + 1)]).1 {
        UploadAction::Fail(error) => assert_eq!(error.code, "cover_too_large"),
        other => panic!("unexpected {other:?}"),
    }
    match run(vec![UploadEvent::Measured(12), UploadEvent::Read(b"not-an-image".to_vec())]).1 {
        UploadAction::Fail(error) => assert_eq!(error.code, "invalid_cover_image"),
        other => panic!("unexpected {other:?}"),
    }
    match run(vec![UploadEvent::Measured(0), UploadEvent::Read(Vec::new())]).1 {
        UploadAction::Fail(error) => assert_eq!(error.code, "invalid_cover_image"),
        other => panic!("unexpected {other:?}"),
    }
    match run(vec![UploadEvent::Failed(AppError::new("io", "missing"))]).1 {
        UploadAction::Fail(error) => {
            assert_eq!(error.code, "cover_operation_failed");
            assert_eq!(error.message, "Unable to store the selected cover image.");
        }
        other => panic!("unexpected {other:?}"),
    }
}

#[test]
fn a_released_cover_outside_plain_paths_keeps_its_file() {
    for path in ["", "/covers/old.png", "covers/../old.png"] {
        let mut events = until_saving(true, Some(stored_asset("old", path)));
        events.push(UploadEvent::Saved(stored_asset("new", "covers/new.png")));
        events.push(UploadEvent::Released(true));
        match run(events).1 {
            UploadAction::Succeed(stored) => assert_eq!(stored.id, "new"),
            other => panic!("unexpected {other:?} for {path:?}"),
        }
    }
}

#[test]
fn a_released_cover_that_is_not_inside_covers_keeps_its_file() {
    for path in ["library.sqlite3", "covers/x/old.png", "./covers/old.png"] {
        let mut events = until_saving(true, Some(stored_asset("old", path)));
        events.push(UploadEvent::Saved(stored_asset("new", "covers/new.png")));
        events.push(UploadEvent::Released(true));
        match run(events).1 {
            UploadAction::Succeed(stored) => assert_eq!(stored.id, "new"),
            other => panic!("unexpected {other:?} for {path:?}"),
        }
    }
}
