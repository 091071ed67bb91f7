use crate::credentials::{Credentials, CredentialsView};
use crate::db::{DbMessage, QueryType};
use crate::normalizer::{decoded, normalize, reencoded, NormalizeError};
use crate::paths::{destination_dir, directory_of, file_of, image_path};
use vstd::prelude::*;

verus! {

/// A lower-case hexadecimal digit.
pub open spec fn is_lower_hex(c: char) -> bool {
    ('0' <= c && c <= '9') || ('a' <= c && c <= 'f')
}

/// The hyphenated lower-case text of a random (version 4) UUID:
/// `xxxxxxxx-xxxx-4xxx-yxxx-xxxxxxxxxxxx`, with `y` one of `8`, `9`, `a`, `b`.
pub open spec fn is_uuid_text(id: Seq<char>) -> bool {
    &&& id.len() == 36
    &&& forall|i: int|
        0 <= i < 36 ==> if i == 8 || i == 13 || i == 18 || i == 23 {
            id[i] == '-'
        } else {
            is_lower_hex(#[trigger] id[i])
        }
    &&& id[14] == '4'
    &&& (id[19] == '8' || id[19] == '9' || id[19] == 'a' || id[19] == 'b')
}

/// `uuid::Uuid::new_v4`, written out by the type's `Display`: a random
/// identifier in hyphenated lower-case form, with the version and variant
/// digits that `new_v4` sets. Which identifier comes is left open; only its
/// shape is stated.
#[verifier::external_body]
pub(crate) fn fresh_id() -> (id: String)
    ensures
        is_uuid_text(id@),
{
    uuid::Uuid::new_v4().to_string()
}

/// Why an upload session ended badly.
#[derive(Clone, Copy, Debug, PartialEq, Eq, Structural)]
pub enum UploadError {
    /// The identity was missing or malformed.
    Credential,
    /// The transport failed while the next frame was awaited.
    Transport,
    /// A frame was no image.
    Decode,
    /// A frame's image could not be written in the canonical format.
    Encode,
    /// The directory could not be created or the file not written.
    Io,
    /// An event arrived that the session was not waiting for.
    Protocol,
}

/// How a session ended.
#[derive(Clone, Copy, Debug, PartialEq, Eq, Structural)]
pub enum Outcome {
    Success,
    Error(UploadError),
}

/// What happened outside since the session's last action.
pub enum UploadEvent {
    /// The identity was resolved, or could not be.
    Identity(Option<Credentials>),
    /// The directory was created or was there already (`true`), or not.
    DirectoryReady(bool),
    /// A frame arrived with this payload.
    Frame(Vec<u8>),
    /// The peer sent a close signal, or the transport closed.
    CloseFrame,
    /// Waiting for the next frame failed.
    TransportError,
    /// The file was written (`true`), or not.
    Written(bool),
}

/// What the session's driver does next.
pub enum UploadAction {
    /// Create the directory and what lies above it; report `DirectoryReady`.
    CreateDirectory(String),
    /// Wait for the next frame; report `Frame`, `CloseFrame` or
    /// `TransportError`.
    AwaitFrame,
    /// Write the file; report `Written`.
    WriteFile { path: String, data: Vec<u8> },
    /// Hand the request to the store without waiting for it, then go on as
    /// for `AwaitFrame`.
    Submit(DbMessage),
    /// Close the connection: the session is over.
    Close(Outcome),
}

/// An upload session. One identity governs it from the moment it is known.
/// `Preparing`, `Streaming` and `Persisting` are the phases of streaming: the
/// directory is being made, a frame is awaited, a frame's file is being
/// written.
pub enum UploadSession {
    AwaitingIdentity,
    Preparing { identity: Credentials, directory: String },
    Streaming { identity: Credentials, directory: String },
    Persisting { identity: Credentials, directory: String, id: String, path: String },
    Closed(Outcome),
}

/// The session error that a normalising error becomes.
pub open spec fn upload_error(error: NormalizeError) -> UploadError {
    match error {
        NormalizeError::Decode => UploadError::Decode,
        NormalizeError::Encode => UploadError::Encode,
    }
}

/// The session is over with `outcome`, and the driver is told so.
pub open spec fn closes(post: UploadSession, action: UploadAction, outcome: Outcome) -> bool {
    post == UploadSession::Closed(outcome) && action == UploadAction::Close(outcome)
}

/// The session streams for `identity` into `directory`.
pub open spec fn streams(post: UploadSession, identity: Credentials, directory: String) -> bool {
    post matches UploadSession::Streaming { identity: who, directory: place } && who@ == identity@
        && place@ == directory@
}

/// A file with these bytes is being written for this session under a fresh
/// id, at the path that the directory and the id give.
pub open spec fn persists(
    post: UploadSession,
    action: UploadAction,
    identity: Credentials,
    directory: String,
    bytes: Seq<u8>,
) -> bool {
    &&& post matches UploadSession::Persisting { identity: who, directory: place, id, path }
    &&& who@ == identity@
    &&& place@ == directory@
    &&& is_uuid_text(id@)
    &&& path@ == file_of(directory@, id@)
    &&& action matches UploadAction::WriteFile { path: target, data }
    &&& target@ == path@
    &&& data@ == bytes
}

/// The request is the insert of the image `id` at `path` under `identity`.
pub open spec fn inserts(msg: DbMessage, identity: Credentials, id: String, path: String) -> bool {
    &&& msg.query_type == QueryType::Insert
    &&& msg.return_tx is None
    &&& msg.credentials@ == (CredentialsView {
        tuple: identity.tuple(),
        id: Some(id@),
        filepath: Some(path@),
    })
}


/// The session's rule: what state and action follow each state and event.
/// An event in a closed session changes nothing. An event that the state was
/// not waiting for ends the session with a protocol error.
pub open spec fn transition(
    pre: UploadSession,
    event: UploadEvent,
    post: UploadSession,
    action: UploadAction,
) -> bool {
    match (pre, event) {
        (UploadSession::Closed(outcome), _) => closes(post, action, outcome),
        (UploadSession::AwaitingIdentity, UploadEvent::Identity(None)) => closes(
            post,
            action,
            Outcome::Error(UploadError::Credential),
        ),
        (UploadSession::AwaitingIdentity, UploadEvent::Identity(Some(identity))) => {
            &&& post matches UploadSession::Preparing { identity: who, directory }
            &&& who@ == identity@
            &&& directory@ == directory_of(identity.tuple())
            &&& action matches UploadAction::CreateDirectory(target)
            &&& target@ == directory@
        },
        (UploadSession::Preparing { identity, directory }, UploadEvent::DirectoryReady(made)) => {
            if made {
                streams(post, identity, directory) && action == UploadAction::AwaitFrame
            } else {
                closes(post, action, Outcome::Error(UploadError::Io))
            }
        },
        (UploadSession::Streaming { .. }, UploadEvent::CloseFrame) => closes(
            post,
            action,
            Outcome::Success,
        ),
        (UploadSession::Streaming { .. }, UploadEvent::TransportError) => closes(
            post,
            action,
            Outcome::Error(UploadError::Transport),
        ),
        (UploadSession::Streaming { identity, directory }, UploadEvent::Frame(payload)) => {
            match reencoded(decoded(payload@)) {
                Ok(bytes) => persists(post, action, identity, directory, bytes),
                Err(error) => closes(post, action, Outcome::Error(upload_error(error))),
            }
        },
        (UploadSession::Persisting { identity, directory, id, path }, UploadEvent::Written(done)) => {
            if done {
                &&& streams(post, identity, directory)
                &&& action matches UploadAction::Submit(msg)
                &&& inserts(msg, identity, id, path)
            } else {
                closes(post, action, Outcome::Error(UploadError::Io))
            }
        },
        _ => closes(post, action, Outcome::Error(UploadError::Protocol)),
    }
}

impl UploadSession {
    /// A session that waits for its identity.
    pub fn new() -> (session: UploadSession)
        ensures
            session == UploadSession::AwaitingIdentity,
    {
        UploadSession::AwaitingIdentity
    }

    /// Ends the session.
    fn close(outcome: Outcome) -> (next: (UploadSession, UploadAction))
        ensures
            closes(next.0, next.1, outcome),
    {
        (UploadSession::Closed(outcome), UploadAction::Close(outcome))
    }

    /// Begins to persist a normalised image under the given id: the file goes
    /// to the path that the session's directory and the id give.
    pub fn persist(identity: Credentials, directory: String, bytes: Vec<u8>, id: String) -> (next: (
        UploadSession,
        UploadAction,
    ))
        ensures
            next.0 matches UploadSession::Persisting { identity: who, directory: place, id: name, path }
                && who == identity && place == directory && name == id && path@ == file_of(
                directory@,
                id@,
            ),
            next.1 matches UploadAction::WriteFile { path: target, data } && target@ == file_of(
                directory@,
                id@,
            ) && data == bytes,
    {
        let path = image_path(directory.as_str(), id.as_str());
        let target = path.clone();
        (
            UploadSession::Persisting { identity, directory, id, path },
            UploadAction::WriteFile { path: target, data: bytes },
        )
    }

    /// Takes the session one event further and says what to do next.
    pub fn step(self, event: UploadEvent) -> (next: (UploadSession, UploadAction))
        ensures
            transition(self, event, next.0, next.1),
    {
        match (self, event) {
            (UploadSession::Closed(outcome), _) => Self::close(outcome),
            (UploadSession::AwaitingIdentity, UploadEvent::Identity(None)) => Self::close(
                Outcome::Error(UploadError::Credential),
            ),
            (UploadSession::AwaitingIdentity, UploadEvent::Identity(Some(identity))) => {
                let directory = destination_dir(&identity);
                let target = directory.clone();
                (
                    UploadSession::Preparing { identity, directory },
                    UploadAction::CreateDirectory(target),
                )
            },
            (UploadSession::Preparing { identity, directory }, UploadEvent::DirectoryReady(made)) => {
                if made {
                    (UploadSession::Streaming { identity, directory }, UploadAction::AwaitFrame)
                } else {
                    Self::close(Outcome::Error(UploadError::Io))
                }
            },
            (UploadSession::Streaming { .. }, UploadEvent::CloseFrame) => Self::close(
                Outcome::Success,
            ),
            (UploadSession::Streaming { .. }, UploadEvent::TransportError) => Self::close(
                Outcome::Error(UploadError::Transport),
            ),
            (UploadSession::Streaming { identity, directory }, UploadEvent::Frame(payload)) => {
                match normalize(payload.as_slice()) {
                    Ok(bytes) => Self::persist(identity, directory, bytes, fresh_id()),
                    Err(NormalizeError::Decode) => Self::close(
                        Outcome::Error(UploadError::Decode),
                    ),
                    Err(NormalizeError::Encode) => Self::close(
                        Outcome::Error(UploadError::Encode),
                    ),
                }
            },
            (
                UploadSession::Persisting { identity, directory, id, path },
                UploadEvent::Written(done),
            ) => {
                if done {
                    let record = identity.for_image(id, path);
                    (
                        UploadSession::Streaming { identity, directory },
                        UploadAction::Submit(DbMessage::insert(record)),
                    )
                } else {
                    Self::close(Outcome::Error(UploadError::Io))
                }
            },
            _ => Self::close(Outcome::Error(UploadError::Protocol)),
        }
    }
}


impl UploadSession {
    /// The identity that governs the session, once it is known and while the
    /// session is open.
    pub open spec fn governing(self) -> Option<Credentials> {
        match self {
            UploadSession::Preparing { identity, .. } => Some(identity),
            UploadSession::Streaming { identity, .. } => Some(identity),
            UploadSession::Persisting { identity, .. } => Some(identity),
            _ => None,
        }
    }

    /// The directory into which the session writes.
    pub open spec fn directory(self) -> Option<String> {
        match self {
            UploadSession::Preparing { directory, .. } => Some(directory),
            UploadSession::Streaming { directory, .. } => Some(directory),
            UploadSession::Persisting { directory, .. } => Some(directory),
            _ => None,
        }
    }

    /// The session writes into its identity's directory, and a file that is
    /// being written lies there under its id.
    pub open spec fn well_formed(self) -> bool {
        &&& self.governing() matches Some(identity) ==> self.directory()->0@ == directory_of(
            identity.tuple(),
        )
        &&& self matches UploadSession::Persisting { directory, id, path, .. } ==> path@
            == file_of(directory@, id@)
    }
}

/// A frame that normalises is written to exactly one file, and the report of
/// that write leads to exactly one insert: its record carries the session's
/// identity, the id under which the file was written, and the file's path.
pub proof fn frame_gives_one_file_and_one_insert(
    pre: UploadSession,
    payload: Vec<u8>,
    mid: UploadSession,
    first: UploadAction,
    post: UploadSession,
    second: UploadAction,
)
    requires
        pre is Streaming,
        reencoded(decoded(payload@)) is Ok,
        transition(pre, UploadEvent::Frame(payload), mid, first),
        transition(mid, UploadEvent::Written(true), post, second),
    ensures
        first is WriteFile,
        first->data@ == reencoded(decoded(payload@))->Ok_0,
        second is Submit,
        second->Submit_0.query_type == QueryType::Insert,
        second->Submit_0.violation() is None,
        second->Submit_0.credentials.tuple() == pre.governing()->0.tuple(),
        second->Submit_0.credentials@.record().filepath == first->path@,
        first->path@ == file_of(
            pre.directory()->0@,
            second->Submit_0.credentials@.record().id,
        ),
        is_uuid_text(second->Submit_0.credentials@.record().id),
        post is Streaming,
        post.governing()->0@ == pre.governing()->0@,
        post.directory()->0@ == pre.directory()->0@,
        pre.well_formed() ==> first->path@ == file_of(
            directory_of(pre.governing()->0.tuple()),
            second->Submit_0.credentials@.record().id,
        ),
{
}

/// A frame that does not normalise ends the session with the normaliser's
/// error, and the step asks for nothing but the close: no file, no insert.
pub proof fn bad_frame_ends_the_session(
    pre: UploadSession,
    payload: Vec<u8>,
    post: UploadSession,
    action: UploadAction,
)
    requires
        pre is Streaming,
        reencoded(decoded(payload@)) is Err,
        transition(pre, UploadEvent::Frame(payload), post, action),
    ensures
        post == UploadSession::Closed(
            Outcome::Error(upload_error(reencoded(decoded(payload@))->Err_0)),
        ),
        action == UploadAction::Close(
            Outcome::Error(upload_error(reencoded(decoded(payload@))->Err_0)),
        ),
{
}

/// A closed session stays closed, whatever happens: it asks for nothing but
/// the close, so nothing is written or submitted after the end.
pub proof fn closed_stays_closed(
    pre: UploadSession,
    event: UploadEvent,
    post: UploadSession,
    action: UploadAction,
)
    requires
        pre is Closed,
        transition(pre, event, post, action),
    ensures
        post == pre,
        action is Close,
{
}

/// One identity governs a session for its whole life, and an orderly session
/// stays orderly.
pub proof fn identity_is_kept(
    pre: UploadSession,
    event: UploadEvent,
    post: UploadSession,
    action: UploadAction,
)
    requires
        transition(pre, event, post, action),
    ensures
        pre.governing() is Some && post.governing() is Some ==> post.governing()->0@
            == pre.governing()->0@,
        pre.well_formed() ==> post.well_formed(),
        action matches UploadAction::Submit(msg) ==> msg.query_type == QueryType::Insert
            && msg.violation() is None,
{
}

} // verus!
