//! Backing the database up to a remote drive: which requests to send, in
//! which order, and what to make of each answer. Nothing here talks to the
//! drive; a caller sends what a state asks for and reports what came back.
//! A request that fails on the way ends the run on the caller's side.

use crate::text::{pieces, split, views};
use vstd::prelude::*;
use vstd::string::*;

verus! {

/// The folder on the drive that holds the backup, as a path from the root.
pub const BACKUP_FOLDER: &'static str = "Applications/myHome";

/// The name of the backup on the drive.
pub const REMOTE_NAME: &'static str = "myhome.db";

/// The identifier of the root of the drive.
pub const ROOT_ID: &'static str = "root";

/// The type of a folder on the drive.
pub const FOLDER_MIME_TYPE: &'static str = "application/vnd.google-apps.folder";

/// The type under which the backup is uploaded.
pub const UPLOAD_MIME_TYPE: &'static str = "application/octet-stream";

/// The access that linking an account asks for.
pub const DRIVE_SCOPE: &'static str = "https://www.googleapis.com/auth/drive.file";

/// What is read of a file on the drive.
#[derive(Debug, Clone)]
pub struct RemoteFile {
    pub id: Option<String>,
}

/// Why a run on the drive cannot go on.
#[derive(Debug, Clone, Copy, PartialEq, Eq, Structural)]
pub enum CloudError {
    /// A folder was found, but the drive gave no identifier for it.
    FolderWithoutId,
    /// A folder was created, but the drive gave no identifier for it.
    FolderNotCreated,
    /// A remote copy of the backup was found, but the drive gave no
    /// identifier for it, so that it cannot be overwritten.
    CopyWithoutId,
}

impl CloudError {
    /// The error in words.
    pub fn message(&self) -> (r: String)
        ensures
            r@ == (match *self {
                CloudError::FolderWithoutId => "Found folder without ID"@,
                CloudError::FolderNotCreated => "Failed to create folder"@,
                CloudError::CopyWithoutId => "Found remote copy without ID"@,
            }),
    {
        match self {
            CloudError::FolderWithoutId => String::from_str("Found folder without ID"),
            CloudError::FolderNotCreated => String::from_str("Failed to create folder"),
            CloudError::CopyWithoutId => String::from_str("Found remote copy without ID"),
        }
    }
}

/// The search for the file `name` directly under the folder `parent_id`,
/// outside the bin.
pub open spec fn search_text(name: Seq<char>, parent_id: Seq<char>) -> Seq<char> {
    "name = '"@ + name + "' and '"@ + parent_id + "' in parents and trashed = false"@
}

/// The search for the file `name` directly under the folder `parent_id`.
pub fn find_file_query(parent_id: &str, name: &str) -> (r: String)
    ensures
        r@ == search_text(name@, parent_id@),
{
    let mut q = String::from_str("name = '");
    q.append(name);
    q.append("' and '");
    q.append(parent_id);
    q.append("' in parents and trashed = false");
    q
}

/// Making sure that a folder exists, one step of its path after the other.
#[derive(Debug)]
pub enum FolderWalk {
    /// Look for the folder `name` under `parent_id`. `rest` are the steps
    /// below it.
    Find { parent_id: String, name: String, rest: Vec<String> },
    /// The folder `name` is not under `parent_id`: create it there.
    Create { parent_id: String, name: String, rest: Vec<String> },
    /// The folder exists and has this identifier.
    Done { folder_id: String },
    /// The walk cannot go on.
    Failed { error: CloudError },
}

/// What a walk asks of the drive.
#[derive(Debug)]
pub enum FolderRequest {
    /// List the files that `query` finds, in the space `drive`.
    Find { query: String },
    /// Create an empty folder with this name and type under this parent.
    Create { name: String, mime_type: String, parent_id: String },
}

/// What the drive answered to a walk.
#[derive(Debug)]
pub enum FolderAnswer {
    /// The first file that the search found, if it found any.
    Found(Option<RemoteFile>),
    /// The identifier of the folder that was created, if the drive gave one.
    Created(Option<String>),
}

/// The walk below a folder that was entered: done where no step is left,
/// else looking for the next step under that folder.
pub open spec fn enters(next: FolderWalk, id: Seq<char>, rest: Seq<Seq<char>>) -> bool {
    if rest.len() == 0 {
        next matches FolderWalk::Done { folder_id } && folder_id@ == id
    } else {
        next matches FolderWalk::Find { parent_id, name, rest: below } && parent_id@ == id
            && name@ == rest[0] && views(below@) == rest.drop_first()
    }
}

/// Whether `next` is the walk `walk` after the answer `answer`.
///
/// While looking: a folder that was found is entered, a folder found
/// without an identifier ends the walk, and a folder that was not found is
/// to be created. While creating: the created folder is entered, and a
/// folder created without an identifier ends the walk. An answer that the
/// walk did not ask for leaves it as it is, and so does any answer once
/// the walk is over.
pub open spec fn walks(walk: FolderWalk, answer: FolderAnswer, next: FolderWalk) -> bool {
    match (walk, answer) {
        (FolderWalk::Find { parent_id, name, rest }, FolderAnswer::Found(Some(file))) => match file.id {
            Some(id) => enters(next, id@, views(rest@)),
            None => next == (FolderWalk::Failed { error: CloudError::FolderWithoutId }),
        },
        (FolderWalk::Find { parent_id, name, rest }, FolderAnswer::Found(None)) => {
            next matches FolderWalk::Create { parent_id: p, name: n, rest: r } && p@ == parent_id@
                && n@ == name@ && views(r@) == views(rest@)
        },
        (FolderWalk::Create { parent_id, name, rest }, FolderAnswer::Created(Some(id))) => enters(
            next,
            id@,
            views(rest@),
        ),
        (FolderWalk::Create { parent_id, name, rest }, FolderAnswer::Created(None)) => next == (
        FolderWalk::Failed { error: CloudError::FolderNotCreated }),
        _ => same_walk(next, walk),
    }
}

/// Whether two walks are at the same point.
pub open spec fn same_walk(a: FolderWalk, b: FolderWalk) -> bool {
    match b {
        FolderWalk::Find { parent_id, name, rest } => a matches FolderWalk::Find {
            parent_id: p,
            name: n,
            rest: r,
        } && p@ == parent_id@ && n@ == name@ && views(r@) == views(rest@),
        FolderWalk::Create { parent_id, name, rest } => a matches FolderWalk::Create {
            parent_id: p,
            name: n,
            rest: r,
        } && p@ == parent_id@ && n@ == name@ && views(r@) == views(rest@),
        FolderWalk::Done { folder_id } => a matches FolderWalk::Done { folder_id: f } && f@
            == folder_id@,
        FolderWalk::Failed { error } => a == b,
    }
}

/// Whether `r` is what the walk `walk` asks of the drive: while looking, a
/// search for the step under its parent; while creating, a folder of the
/// step's name under its parent; nothing once the walk is over.
pub open spec fn walk_asks(walk: FolderWalk, r: Option<FolderRequest>) -> bool {
    match walk {
        FolderWalk::Find { parent_id, name, rest } => r matches Some(FolderRequest::Find { query })
            && query@ == search_text(name@, parent_id@),
        FolderWalk::Create { parent_id, name, rest } => r matches Some(
            FolderRequest::Create { name: n, mime_type, parent_id: p },
        ) && n@ == name@ && mime_type@ == FOLDER_MIME_TYPE@ && p@ == parent_id@,
        FolderWalk::Done { .. } => r is None,
        FolderWalk::Failed { .. } => r is None,
    }
}

/// Whether `answer` is an answer to what the walk `walk` asks.
pub open spec fn answers_walk(walk: FolderWalk, answer: FolderAnswer) -> bool {
    (walk is Find && answer is Found) || (walk is Create && answer is Created)
}

/// A bound on the number of requests that the walk `walk` still sends: two
/// for each step that is left, of which a step that is being created has
/// used one.
pub open spec fn requests_left(walk: FolderWalk) -> nat {
    match walk {
        FolderWalk::Find { rest, .. } => 2 * (rest@.len() + 1),
        FolderWalk::Create { rest, .. } => (2 * rest@.len() + 1) as nat,
        FolderWalk::Done { .. } => 0,
        FolderWalk::Failed { .. } => 0,
    }
}

fn enter(id: String, rest: Vec<String>) -> (next: FolderWalk)
    ensures
        enters(next, id@, views(rest@)),
        requests_left(next) <= 2 * rest@.len(),
{
    let mut rest = rest;
    if rest.len() == 0 {
        FolderWalk::Done { folder_id: id }
    } else {
        let ghost before = rest@;
        let name = rest.remove(0);
        assert(views(rest@) =~= views(before).drop_first());
        FolderWalk::Find { parent_id: id, name, rest }
    }
}

impl FolderWalk {
    /// The walk to the folder at `path`, whose steps are divided by `/`: it
    /// begins at the root of the drive, looking for the first step.
    pub fn start(path: &str) -> (walk: FolderWalk)
        ensures
            enters(walk, ROOT_ID@, pieces(path@, '/')),
            walk is Find,
    {
        let parts = split(path, '/');
        assert(pieces(path@, '/').len() > 0);
        enter(String::from_str(ROOT_ID), parts)
    }

    /// Whether the walk is over: the folder exists, or the walk has failed.
    pub fn is_over(&self) -> (r: bool)
        ensures
            r == (*self is Done || *self is Failed),
    {
        match self {
            FolderWalk::Done { .. } => true,
            FolderWalk::Failed { .. } => true,
            _ => false,
        }
    }

    /// What the walk asks of the drive now; nothing once it is over.
    pub fn request(&self) -> (r: Option<FolderRequest>)
        ensures
            walk_asks(*self, r),
            r is Some <==> requests_left(*self) > 0,
    {
        match self {
            FolderWalk::Find { parent_id, name, rest: _ } => Some(
                FolderRequest::Find { query: find_file_query(parent_id.as_str(), name.as_str()) },
            ),
            FolderWalk::Create { parent_id, name, rest: _ } => Some(
                FolderRequest::Create {
                    name: name.clone(),
                    mime_type: String::from_str(FOLDER_MIME_TYPE),
                    parent_id: parent_id.clone(),
                },
            ),
            FolderWalk::Done { .. } => None,
            FolderWalk::Failed { .. } => None,
        }
    }

    /// The walk after the drive's answer. An answer to what the walk asked
    /// brings it closer to its end, so that a caller who sends what is asked
    /// and reports what came back is done after `requests_left` requests at
    /// most.
    pub fn advance(self, answer: FolderAnswer) -> (next: FolderWalk)
        ensures
            walks(self, answer, next),
            answers_walk(self, answer) ==> requests_left(next) < requests_left(self),
            requests_left(next) <= requests_left(self),
    {
        match self {
            FolderWalk::Find { parent_id, name, rest } => match answer {
                FolderAnswer::Found(Some(file)) => match file.id {
                    Some(id) => enter(id, rest),
                    None => FolderWalk::Failed { error: CloudError::FolderWithoutId },
                },
                FolderAnswer::Found(None) => FolderWalk::Create { parent_id, name, rest },
                FolderAnswer::Created(_) => FolderWalk::Find { parent_id, name, rest },
            },
            FolderWalk::Create { parent_id, name, rest } => match answer {
                FolderAnswer::Created(Some(id)) => enter(id, rest),
                FolderAnswer::Created(None) => FolderWalk::Failed {
                    error: CloudError::FolderNotCreated,
                },
                FolderAnswer::Found(_) => FolderWalk::Create { parent_id, name, rest },
            },
            FolderWalk::Done { folder_id } => FolderWalk::Done { folder_id },
            FolderWalk::Failed { error } => FolderWalk::Failed { error },
        }
    }
}

/// Where an upload goes.
#[derive(Debug)]
pub enum UploadTarget {
    /// Over the file with this identifier.
    Update { file_id: String },
    /// Into a new file under this folder.
    Create { parent_id: String },
}

/// An upload of the backup.
#[derive(Debug)]
pub struct Upload {
    pub name: String,
    pub mime_type: String,
    pub target: UploadTarget,
}

/// Whether `plan` is the upload of the backup into `folder_id`, given the
/// remote copy `existing` that was found there. The backup overwrites the
/// remote copy, so that the folder never holds a second one: a copy that was
/// found is updated in place; where none was found the backup goes into a
/// new file under the folder; and a copy that was found without an
/// identifier cannot be overwritten, so that no upload is planned.
pub open spec fn plans_upload(
    plan: Result<Upload, CloudError>,
    folder_id: Seq<char>,
    existing: Option<RemoteFile>,
) -> bool {
    match existing {
        Some(RemoteFile { id: Some(id) }) => {
            &&& plan matches Ok(upload)
            &&& upload.name@ == REMOTE_NAME@
            &&& upload.mime_type@ == UPLOAD_MIME_TYPE@
            &&& upload.target matches UploadTarget::Update { file_id }
            &&& file_id@ == id@
        },
        Some(RemoteFile { id: None }) => plan == Err::<Upload, CloudError>(
            CloudError::CopyWithoutId,
        ),
        None => {
            &&& plan matches Ok(upload)
            &&& upload.name@ == REMOTE_NAME@
            &&& upload.mime_type@ == UPLOAD_MIME_TYPE@
            &&& upload.target matches UploadTarget::Create { parent_id }
            &&& parent_id@ == folder_id
        },
    }
}

/// The upload of the backup into `folder_id`, given the remote copy that was
/// found there; a failure where the copy has no identifier.
pub fn plan_upload(folder_id: &str, existing: Option<RemoteFile>) -> (plan: Result<
    Upload,
    CloudError,
>)
    ensures
        plans_upload(plan, folder_id@, existing),
{
    let target = match existing {
        Some(RemoteFile { id: Some(id) }) => UploadTarget::Update { file_id: id },
        Some(RemoteFile { id: None }) => {
            return Err(CloudError::CopyWithoutId);
        },
        None => UploadTarget::Create { parent_id: String::from_str(folder_id) },
    };
    Ok(
        Upload {
            name: String::from_str(REMOTE_NAME),
            mime_type: String::from_str(UPLOAD_MIME_TYPE),
            target,
        },
    )
}

/// A run that backs the database up to the drive.
#[derive(Debug)]
pub enum SyncState {
    /// Making sure that the backup folder exists.
    Folder { walk: FolderWalk },
    /// The folder exists: write the local backup file.
    Backup { folder_id: String },
    /// The backup is written: look for the remote copy.
    Find { folder_id: String },
    /// Send the backup.
    Upload { upload: Upload },
    /// The backup is on the drive.
    Done,
    /// The run cannot go on.
    Failed { error: CloudError },
}

/// What a run asks of its caller.
#[derive(Debug)]
pub enum SyncRequest {
    /// Ask the drive for a step of the folder walk.
    Folder { request: FolderRequest },
    /// Back the database up into the local backup file.
    Backup,
    /// List the files that `query` finds, in the space `drive`.
    Find { query: String },
    /// Send the local backup file.
    Upload { name: String, mime_type: String, target: UploadTarget },
}

/// What came back to a run.
#[derive(Debug)]
pub enum SyncEvent {
    /// The drive answered a step of the folder walk.
    Folder { answer: FolderAnswer },
    /// The local backup file is written.
    BackedUp,
    /// The first file that the search found, if it found any.
    Found { existing: Option<RemoteFile> },
    /// The upload went through.
    Uploaded,
}

/// The run after a folder walk has moved to `walk`: on to the backup where
/// the folder exists, at an end where the walk failed, still walking else.
pub open spec fn follows_walk(next: SyncState, walk: FolderWalk) -> bool {
    match walk {
        FolderWalk::Done { folder_id } => next matches SyncState::Backup { folder_id: f } && f@
            == folder_id@,
        FolderWalk::Failed { error } => next == (SyncState::Failed { error }),
        _ => next matches SyncState::Folder { walk: w } && same_walk(w, walk),
    }
}

/// Whether two runs are at the same point.
pub open spec fn same_sync(a: SyncState, b: SyncState) -> bool {
    match b {
        SyncState::Folder { walk } => a matches SyncState::Folder { walk: w } && same_walk(w, walk),
        SyncState::Backup { folder_id } => a matches SyncState::Backup { folder_id: f } && f@
            == folder_id@,
        SyncState::Find { folder_id } => a matches SyncState::Find { folder_id: f } && f@
            == folder_id@,
        SyncState::Upload { upload } => a matches SyncState::Upload { upload: u } && u.name@
            == upload.name@ && u.mime_type@ == upload.mime_type@ && same_target(
            u.target,
            upload.target,
        ),
        SyncState::Done => a is Done,
        SyncState::Failed { error } => a == b,
    }
}

/// Whether `next` is the run `state` after `event`.
///
/// The folder walk comes first. Once the folder exists the local backup is
/// written, then the remote copy is looked for, then the backup is sent:
/// over the remote copy where there is one, into a new file where there is
/// none. A remote copy without an identifier ends the run in failure. An event
/// that the run did not ask for leaves it as it is, and so does any event
/// for a run whose walk is over without the run having moved on.
pub open spec fn syncs(state: SyncState, event: SyncEvent, next: SyncState) -> bool {
    match (state, event) {
        (SyncState::Folder { walk }, SyncEvent::Folder { answer }) => if walk is Find
            || walk is Create {
            exists|moved: FolderWalk|
                #[trigger] walks(walk, answer, moved) && follows_walk(next, moved)
        } else {
            same_sync(next, state)
        },
        (SyncState::Backup { folder_id }, SyncEvent::BackedUp) => next matches SyncState::Find {
            folder_id: f,
        } && f@ == folder_id@,
        (SyncState::Find { folder_id }, SyncEvent::Found { existing }) => match existing {
            Some(RemoteFile { id: None }) => next == (SyncState::Failed {
                error: CloudError::CopyWithoutId,
            }),
            _ => {
                &&& next matches SyncState::Upload { upload }
                &&& plans_upload(Ok(upload), folder_id@, existing)
            },
        },
        (SyncState::Upload { .. }, SyncEvent::Uploaded) => next is Done,
        _ => same_sync(next, state),
    }
}

/// Whether two upload targets are the same.
pub open spec fn same_target(a: UploadTarget, b: UploadTarget) -> bool {
    match b {
        UploadTarget::Update { file_id } => a matches UploadTarget::Update { file_id: f } && f@
            == file_id@,
        UploadTarget::Create { parent_id } => a matches UploadTarget::Create { parent_id: p } && p@
            == parent_id@,
    }
}

/// Whether `r` is what the run `state` asks of its caller: the request of
/// its folder walk, the local backup, the search for the remote copy in the
/// backup folder, or the upload; nothing once the run is over.
pub open spec fn sync_asks(state: SyncState, r: Option<SyncRequest>) -> bool {
    match state {
        SyncState::Folder { walk } => match r {
            Some(SyncRequest::Folder { request }) => walk_asks(walk, Some(request)),
            Some(_) => false,
            None => walk_asks(walk, None),
        },
        SyncState::Backup { .. } => r matches Some(SyncRequest::Backup),
        SyncState::Find { folder_id } => r matches Some(SyncRequest::Find { query }) && query@
            == search_text(REMOTE_NAME@, folder_id@),
        SyncState::Upload { upload } => r matches Some(
            SyncRequest::Upload { name, mime_type, target },
        ) && name@ == upload.name@ && mime_type@ == upload.mime_type@ && same_target(
            target,
            upload.target,
        ),
        SyncState::Done => r is None,
        SyncState::Failed { .. } => r is None,
    }
}

/// Whether `event` is an answer to what the run `state` asks.
pub open spec fn answers_sync(state: SyncState, event: SyncEvent) -> bool {
    match (state, event) {
        (SyncState::Folder { walk }, SyncEvent::Folder { answer }) => answers_walk(walk, answer),
        (SyncState::Backup { .. }, SyncEvent::BackedUp) => true,
        (SyncState::Find { .. }, SyncEvent::Found { .. }) => true,
        (SyncState::Upload { .. }, SyncEvent::Uploaded) => true,
        _ => false,
    }
}

/// A bound on the number of requests that the run `state` still sends: those
/// of its folder walk, then the backup, the search and the upload. A run
/// whose walk is over without the run having moved on sends none.
pub open spec fn sync_requests_left(state: SyncState) -> nat {
    match state {
        SyncState::Folder { walk } => if walk is Find || walk is Create {
            requests_left(walk) + 3
        } else {
            0
        },
        SyncState::Backup { .. } => 3,
        SyncState::Find { .. } => 2,
        SyncState::Upload { .. } => 1,
        SyncState::Done => 0,
        SyncState::Failed { .. } => 0,
    }
}

fn after_walk(walk: FolderWalk) -> (next: SyncState)
    ensures
        follows_walk(next, walk),
        sync_requests_left(next) <= requests_left(walk) + 3,
        !(walk is Find || walk is Create) ==> sync_requests_left(next) <= 3,
{
    match walk {
        FolderWalk::Done { folder_id } => SyncState::Backup { folder_id },
        FolderWalk::Failed { error } => SyncState::Failed { error },
        other => SyncState::Folder { walk: other },
    }
}

impl SyncState {
    /// A run that has not begun: it starts with the walk to the backup
    /// folder.
    pub fn start() -> (state: SyncState)
        ensures
            state matches SyncState::Folder { walk } && walk is Find && enters(
                walk,
                ROOT_ID@,
                pieces(BACKUP_FOLDER@, '/'),
            ),
    {
        SyncState::Folder { walk: FolderWalk::start(BACKUP_FOLDER) }
    }

    /// What the run asks of its caller now; nothing once it is over.
    pub fn request(&self) -> (r: Option<SyncRequest>)
        ensures
            sync_asks(*self, r),
            r is Some <==> sync_requests_left(*self) > 0,
    {
        match self {
            SyncState::Folder { walk } => match walk.request() {
                Some(request) => Some(SyncRequest::Folder { request }),
                None => None,
            },
            SyncState::Backup { .. } => Some(SyncRequest::Backup),
            SyncState::Find { folder_id } => Some(
                SyncRequest::Find { query: find_file_query(folder_id.as_str(), REMOTE_NAME) },
            ),
            SyncState::Upload { upload } => {
                let target = match &upload.target {
                    UploadTarget::Update { file_id } => UploadTarget::Update {
                        file_id: file_id.clone(),
                    },
                    UploadTarget::Create { parent_id } => UploadTarget::Create {
                        parent_id: parent_id.clone(),
                    },
                };
                Some(
                    SyncRequest::Upload {
                        name: upload.name.clone(),
                        mime_type: upload.mime_type.clone(),
                        target,
                    },
                )
            },
            SyncState::Done => None,
            SyncState::Failed { .. } => None,
        }
    }

    /// The run after `event`. An answer to what the run asked brings it
    /// closer to its end.
    pub fn advance(self, event: SyncEvent) -> (next: SyncState)
        ensures
            syncs(self, event, next),
            answers_sync(self, event) ==> sync_requests_left(next) < sync_requests_left(self),
            sync_requests_left(next) <= sync_requests_left(self),
    {
        match self {
            SyncState::Folder { walk } => match event {
                SyncEvent::Folder { answer } => {
                    if walk.is_over() {
                        SyncState::Folder { walk }
                    } else {
                        let moved = walk.advance(answer);
                        let next = after_walk(moved);
                        assert(walks(walk, answer, moved) && follows_walk(next, moved));
                        next
                    }
                },
                _ => SyncState::Folder { walk },
            },
            SyncState::Backup { folder_id } => match event {
                SyncEvent::BackedUp => SyncState::Find { folder_id },
                _ => SyncState::Backup { folder_id },
            },
            SyncState::Find { folder_id } => match event {
                SyncEvent::Found { existing } => {
                    match plan_upload(folder_id.as_str(), existing) {
                        Ok(upload) => SyncState::Upload { upload },
                        Err(error) => SyncState::Failed { error },
                    }
                },
                _ => SyncState::Find { folder_id },
            },
            SyncState::Upload { upload } => match event {
                SyncEvent::Uploaded => SyncState::Done,
                _ => SyncState::Upload { upload },
            },
            SyncState::Done => SyncState::Done,
            SyncState::Failed { error } => SyncState::Failed { error },
        }
    }
}

/// A grant of access to the backup folder.
#[derive(Debug, Clone)]
pub struct Permission {
    pub role: String,
    pub kind: String,
    pub email_address: String,
}

/// The grant that invites a member: the user with the address `email` may
/// write.
pub fn invite_member(email: &str) -> (p: Permission)
    ensures
        p.role@ == "writer"@,
        p.kind@ == "user"@,
        p.email_address@ == email@,
{
    Permission {
        role: String::from_str("writer"),
        kind: String::from_str("user"),
        email_address: String::from_str(email),
    }
}

/// Whether an account is linked, in words: it is where its tokens are
/// stored.
pub fn get_sync_status(tokens_stored: bool) -> (r: String)
    ensures
        r@ == (if tokens_stored {
            "Linked & Ready"@
        } else {
            "Not Linked"@
        }),
{
    if tokens_stored {
        String::from_str("Linked & Ready")
    } else {
        String::from_str("Not Linked")
    }
}

/// When the database was last backed up, in words. No backup is recorded, so
/// the answer is always `Never`.
pub fn get_last_sync_time() -> (r: String)
    ensures
        r@ == "Never"@,
{
    String::from_str("Never")
}

} // verus!
