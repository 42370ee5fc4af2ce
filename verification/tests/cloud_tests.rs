//! The runs on the drive, driven by hand.

use myhome::modules::cloud::{
    find_file_query, get_last_sync_time, get_sync_status, invite_member, plan_upload,
    CloudError, FolderAnswer, FolderRequest, FolderWalk, RemoteFile, SyncEvent, SyncRequest,
    SyncState, UploadTarget, BACKUP_FOLDER, DRIVE_SCOPE,
};
use std::path::Path;

fn file(id: Option<&str>) -> Option<RemoteFile> {
    Some(RemoteFile { id: id.map(|s| s.to_string()) })
}

fn find_query(walk: &FolderWalk) -> String {
    match walk.request() {
        Some(FolderRequest::Find { query }) => query,
        other => panic!("unexpected: {:?}", other),
    }
}

#[test]
fn test_cloud_service_instantiation() {
    // Status should be "Not Linked" initially because tokens are missing
    let tokens_stored = Path::new(".tokens/google_drive_tokens.json").exists();
    assert_eq!(get_sync_status(tokens_stored), "Not Linked");
}

#[test]
fn sync_status_and_last_sync_time_in_words() {
    assert_eq!(get_sync_status(true), "Linked & Ready");
    assert_eq!(get_sync_status(false), "Not Linked");
    assert_eq!(get_last_sync_time(), "Never");
    assert_eq!(DRIVE_SCOPE, "https://www.googleapis.com/auth/drive.file");
}

#[test]
fn the_search_names_the_file_and_its_parent() {
    assert_eq!(
        find_file_query("root", "Applications"),
        "name = 'Applications' and 'root' in parents and trashed = false"
    );
    assert_eq!(find_file_query("", ""), "name = '' and '' in parents and trashed = false");
}

#[test]
fn the_walk_enters_folders_that_exist() {
    let walk = FolderWalk::start(BACKUP_FOLDER);
    assert_eq!(
        find_query(&walk),
        "name = 'Applications' and 'root' in parents and trashed = false"
    );
    let walk = walk.advance(FolderAnswer::Found(file(Some("id-apps"))));
    assert_eq!(
        find_query(&walk),
        "name = 'myHome' and 'id-apps' in parents and trashed = false"
    );
    let walk = walk.advance(FolderAnswer::Found(file(Some("id-home"))));
    assert!(matches!(&walk, FolderWalk::Done { folder_id } if folder_id == "id-home"));
    assert!(walk.request().is_none());
}

#[test]
fn the_walk_creates_folders_that_are_missing() {
    let walk = FolderWalk::start("Applications/myHome").advance(FolderAnswer::Found(None));
    match walk.request() {
        Some(FolderRequest::Create { name, mime_type, parent_id }) => {
            assert_eq!(name, "Applications");
            assert_eq!(mime_type, "application/vnd.google-apps.folder");
            assert_eq!(parent_id, "root");
        }
        other => panic!("unexpected: {:?}", other),
    }
    let walk = walk.advance(FolderAnswer::Created(Some("new-apps".to_string())));
    assert_eq!(
        find_query(&walk),
        "name = 'myHome' and 'new-apps' in parents and trashed = false"
    );
    let walk = walk.advance(FolderAnswer::Found(None));
    match walk.request() {
        Some(FolderRequest::Create { name, parent_id, .. }) => {
            assert_eq!(name, "myHome");
            assert_eq!(parent_id, "new-apps");
        }
        other => panic!("unexpected: {:?}", other),
    }
    let walk = walk.advance(FolderAnswer::Created(Some("new-home".to_string())));
    assert!(matches!(&walk, FolderWalk::Done { folder_id } if folder_id == "new-home"));
}

#[test]
fn the_walk_fails_without_identifiers() {
    let walk = FolderWalk::start("a/b").advance(FolderAnswer::Found(file(None)));
    assert!(matches!(walk, FolderWalk::Failed { error: CloudError::FolderWithoutId }));
    assert!(walk.request().is_none());
    let walk = FolderWalk::start("a/b")
        .advance(FolderAnswer::Found(None))
        .advance(FolderAnswer::Created(None));
    assert!(matches!(walk, FolderWalk::Failed { error: CloudError::FolderNotCreated }));
    assert_eq!(CloudError::FolderWithoutId.message(), "Found folder without ID");
    assert_eq!(CloudError::FolderNotCreated.message(), "Failed to create folder");
}

#[test]
fn the_walk_ignores_answers_it_did_not_ask_for() {
    let walk = FolderWalk::start("a").advance(FolderAnswer::Created(Some("x".to_string())));
    assert_eq!(find_query(&walk), "name = 'a' and 'root' in parents and trashed = false");
    let walk = walk.advance(FolderAnswer::Found(None)).advance(FolderAnswer::Found(file(Some("x"))));
    assert!(matches!(&walk, FolderWalk::Create { name, .. } if name == "a"));
    let done = FolderWalk::start("a").advance(FolderAnswer::Found(file(Some("x"))));
    let done = done.advance(FolderAnswer::Found(None));
    assert!(matches!(&done, FolderWalk::Done { folder_id } if folder_id == "x"));
    let failed = FolderWalk::start("a")
        .advance(FolderAnswer::Found(file(None)))
        .advance(FolderAnswer::Found(file(Some("x"))));
    assert!(matches!(failed, FolderWalk::Failed { error: CloudError::FolderWithoutId }));
}

#[test]
fn the_walk_takes_a_path_of_one_or_of_empty_steps() {
    let walk = FolderWalk::start("");
    assert_eq!(find_query(&walk), "name = '' and 'root' in parents and trashed = false");
    let walk = walk.advance(FolderAnswer::Found(file(Some("e"))));
    assert!(matches!(&walk, FolderWalk::Done { folder_id } if folder_id == "e"));
    let walk = FolderWalk::start("a//b").advance(FolderAnswer::Found(file(Some("1"))));
    assert_eq!(find_query(&walk), "name = '' and '1' in parents and trashed = false");
}

#[test]
fn the_upload_goes_over_the_remote_copy_or_into_the_folder() {
    let upload = plan_upload("folder", file(Some("remote"))).unwrap();
    assert_eq!(upload.name, "myhome.db");
    assert_eq!(upload.mime_type, "application/octet-stream");
    assert!(matches!(&upload.target, UploadTarget::Update { file_id } if file_id == "remote"));
    let upload = plan_upload("folder", None).unwrap();
    assert_eq!(upload.name, "myhome.db");
    assert_eq!(upload.mime_type, "application/octet-stream");
    assert!(matches!(&upload.target, UploadTarget::Create { parent_id } if parent_id == "folder"));
}

#[test]
fn no_upload_is_planned_beside_a_remote_copy_without_identifier() {
    assert_eq!(plan_upload("folder", file(None)).err(), Some(CloudError::CopyWithoutId));
    assert_eq!(CloudError::CopyWithoutId.message(), "Found remote copy without ID");
}

#[test]
fn a_sync_fails_on_a_remote_copy_without_identifier() {
    let state = SyncState::start()
        .advance(SyncEvent::Folder { answer: FolderAnswer::Found(file(Some("apps"))) })
        .advance(SyncEvent::Folder { answer: FolderAnswer::Found(file(Some("home"))) })
        .advance(SyncEvent::BackedUp)
        .advance(SyncEvent::Found { existing: file(None) });
    assert!(matches!(state, SyncState::Failed { error: CloudError::CopyWithoutId }));
    assert!(state.request().is_none());
    let state = state.advance(SyncEvent::Uploaded);
    assert!(matches!(state, SyncState::Failed { error: CloudError::CopyWithoutId }));
}

#[test]
fn a_sync_walks_backs_up_finds_and_uploads() {
    let state = SyncState::start();
    assert!(matches!(
        state.request(),
        Some(SyncRequest::Folder { request: FolderRequest::Find { .. } })
    ));
    let state = state
        .advance(SyncEvent::Folder { answer: FolderAnswer::Found(file(Some("apps"))) })
        .advance(SyncEvent::Folder { answer: FolderAnswer::Found(None) });
    match state.request() {
        Some(SyncRequest::Folder { request: FolderRequest::Create { name, parent_id, .. } }) => {
            assert_eq!(name, "myHome");
            assert_eq!(parent_id, "apps");
        }
        other => panic!("unexpected: {:?}", other),
    }
    let state = state
        .advance(SyncEvent::Folder { answer: FolderAnswer::Created(Some("home".to_string())) });
    assert!(matches!(&state, SyncState::Backup { folder_id } if folder_id == "home"));
    assert!(matches!(state.request(), Some(SyncRequest::Backup)));
    let state = state.advance(SyncEvent::BackedUp);
    match state.request() {
        Some(SyncRequest::Find { query }) => {
            assert_eq!(query, "name = 'myhome.db' and 'home' in parents and trashed = false")
        }
        other => panic!("unexpected: {:?}", other),
    }
    let state = state.advance(SyncEvent::Found { existing: file(Some("old")) });
    match state.request() {
        Some(SyncRequest::Upload { name, mime_type, target }) => {
            assert_eq!(name, "myhome.db");
            assert_eq!(mime_type, "application/octet-stream");
            assert!(matches!(target, UploadTarget::Update { file_id } if file_id == "old"));
        }
        other => panic!("unexpected: {:?}", other),
    }
    let state = state.advance(SyncEvent::Uploaded);
    assert!(matches!(state, SyncState::Done));
    assert!(state.request().is_none());
}

#[test]
fn a_first_sync_uploads_into_the_folder() {
    let state = SyncState::start()
        .advance(SyncEvent::Folder { answer: FolderAnswer::Found(file(Some("apps"))) })
        .advance(SyncEvent::Folder { answer: FolderAnswer::Found(file(Some("home"))) })
        .advance(SyncEvent::BackedUp)
        .advance(SyncEvent::Found { existing: None });
    match state.request() {
        Some(SyncRequest::Upload { target, .. }) => {
            assert!(matches!(target, UploadTarget::Create { parent_id } if parent_id == "home"))
        }
        other => panic!("unexpected: {:?}", other),
    }
}

#[test]
fn a_sync_ends_where_the_walk_fails() {
    let state = SyncState::start()
        .advance(SyncEvent::Folder { answer: FolderAnswer::Found(file(None)) });
    assert!(matches!(state, SyncState::Failed { error: CloudError::FolderWithoutId }));
    assert!(state.request().is_none());
    let state = state.advance(SyncEvent::BackedUp);
    assert!(matches!(state, SyncState::Failed { error: CloudError::FolderWithoutId }));
}

#[test]
fn a_sync_ignores_events_out_of_turn() {
    let state = SyncState::start().advance(SyncEvent::BackedUp).advance(SyncEvent::Uploaded);
    assert!(matches!(&state, SyncState::Folder { walk: FolderWalk::Find { name, .. } } if name == "Applications"));
    let state = state
        .advance(SyncEvent::Folder { answer: FolderAnswer::Found(file(Some("apps"))) })
        .advance(SyncEvent::Folder { answer: FolderAnswer::Found(file(Some("home"))) })
        .advance(SyncEvent::Uploaded)
        .advance(SyncEvent::Found { existing: None });
    assert!(matches!(&state, SyncState::Backup { folder_id } if folder_id == "home"));
    let state = state.advance(SyncEvent::BackedUp).advance(SyncEvent::BackedUp);
    assert!(matches!(&state, SyncState::Find { folder_id } if folder_id == "home"));
    let state = state
        .advance(SyncEvent::Found { existing: None })
        .advance(SyncEvent::Found { existing: file(Some("late")) });
    assert!(matches!(
        &state,
        SyncState::Upload { upload } if matches!(&upload.target, UploadTarget::Create { .. })
    ));
    let state = state.advance(SyncEvent::Uploaded).advance(SyncEvent::BackedUp);
    assert!(matches!(state, SyncState::Done));
}

#[test]
fn an_invitation_lets_the_user_write() {
    let p = invite_member("ada@example.org");
    assert_eq!(p.role, "writer");
    assert_eq!(p.kind, "user");
    assert_eq!(p.email_address, "ada@example.org");
}
