use crate::credentials::Credentials;
use crate::db::{texts, DbMessage, QueryType};
use vstd::prelude::*;

verus! {

/// Why a download ended badly.
#[derive(Clone, Copy, Debug, PartialEq, Eq, Structural)]
pub enum DownloadError {
    /// No reply came from the store.
    StoreUnavailable,
    /// A recorded file could not be read.
    Io,
    /// A file's contents could not be sent.
    Transport,
    /// An event arrived that the session was not waiting for.
    Protocol,
}

/// How a download ended.
#[derive(Clone, Copy, Debug, PartialEq, Eq, Structural)]
pub enum DownloadOutcome {
    Success,
    Error(DownloadError),
}

/// What happened outside since the session's last action.
pub enum DownloadEvent {
    /// The store answered with the recorded file paths, or no answer can
    /// come any more.
    Reply(Option<Vec<String>>),
    /// The file was read, or could not be.
    FileRead(Option<Vec<u8>>),
    /// The contents went out (`true`), or the transport failed.
    Sent(bool),
}

/// What the session's driver does next.
pub enum DownloadAction {
    /// Hand the request to the store and wait on its conduit; report `Reply`.
    Query(DbMessage),
    /// Read the whole file; report `FileRead`.
    ReadFile(String),
    /// Send the contents as one unit, a frame or the next piece of the
    /// response body; report `Sent`.
    Send(Vec<u8>),
    /// End the transfer: the session is over.
    Finish(DownloadOutcome),
}

/// A download session: it asks the store once, then reads and sends the
/// recorded files one after the other, in the store's order.
pub enum DownloadSession {
    Querying,
    Reading { paths: Vec<String>, next: usize },
    Sending { paths: Vec<String>, next: usize },
    Closed(DownloadOutcome),
}

pub enum DownloadSessionView {
    Querying,
    Reading { paths: Seq<Seq<char>>, next: int },
    Sending { paths: Seq<Seq<char>>, next: int },
    Closed(DownloadOutcome),
}

pub enum DownloadEventView {
    Reply(Option<Seq<Seq<char>>>),
    FileRead(Option<Seq<u8>>),
    Sent(bool),
}

pub enum DownloadActionView {
    Query(DbMessage),
    ReadFile(Seq<char>),
    Send(Seq<u8>),
    Finish(DownloadOutcome),
}

impl View for DownloadSession {
    type V = DownloadSessionView;

    open spec fn view(&self) -> DownloadSessionView {
        match *self {
            DownloadSession::Querying => DownloadSessionView::Querying,
            DownloadSession::Reading { paths, next } => DownloadSessionView::Reading {
                paths: texts(paths@),
                next: next as int,
            },
            DownloadSession::Sending { paths, next } => DownloadSessionView::Sending {
                paths: texts(paths@),
                next: next as int,
            },
            DownloadSession::Closed(outcome) => DownloadSessionView::Closed(outcome),
        }
    }
}

impl View for DownloadEvent {
    type V = DownloadEventView;

    open spec fn view(&self) -> DownloadEventView {
        match *self {
            DownloadEvent::Reply(Some(paths)) => DownloadEventView::Reply(Some(texts(paths@))),
            DownloadEvent::Reply(None) => DownloadEventView::Reply(None),
            DownloadEvent::FileRead(Some(bytes)) => DownloadEventView::FileRead(Some(bytes@)),
            DownloadEvent::FileRead(None) => DownloadEventView::FileRead(None),
            DownloadEvent::Sent(done) => DownloadEventView::Sent(done),
        }
    }
}

impl View for DownloadAction {
    type V = DownloadActionView;

    open spec fn view(&self) -> DownloadActionView {
        match *self {
            DownloadAction::Query(msg) => DownloadActionView::Query(msg),
            DownloadAction::ReadFile(path) => DownloadActionView::ReadFile(path@),
            DownloadAction::Send(bytes) => DownloadActionView::Send(bytes@),
            DownloadAction::Finish(outcome) => DownloadActionView::Finish(outcome),
        }
    }
}

/// The session is over with `outcome`.
pub open spec fn finished(outcome: DownloadOutcome) -> (DownloadSessionView, DownloadActionView) {
    (DownloadSessionView::Closed(outcome), DownloadActionView::Finish(outcome))
}

/// Goes on with the file at `from`: reads it if there is one, and ends the
/// transfer in success if the files are used up.
pub open spec fn resume(paths: Seq<Seq<char>>, from: int) -> (
    DownloadSessionView,
    DownloadActionView,
) {
    if 0 <= from < paths.len() {
        (
            DownloadSessionView::Reading { paths, next: from },
            DownloadActionView::ReadFile(paths[from]),
        )
    } else {
        finished(DownloadOutcome::Success)
    }
}

/// The session's rule: the state and the action that follow a state and an
/// event. A file that cannot be read, or contents that cannot be sent, end
/// the whole transfer. An event in a closed session changes nothing; an
/// event that the state was not waiting for is a protocol error.
pub open spec fn after(pre: DownloadSessionView, event: DownloadEventView) -> (
    DownloadSessionView,
    DownloadActionView,
) {
    match (pre, event) {
        (DownloadSessionView::Closed(outcome), _) => finished(outcome),
        (DownloadSessionView::Querying, DownloadEventView::Reply(None)) => finished(
            DownloadOutcome::Error(DownloadError::StoreUnavailable),
        ),
        (DownloadSessionView::Querying, DownloadEventView::Reply(Some(paths))) => resume(paths, 0),
        (DownloadSessionView::Reading { .. }, DownloadEventView::FileRead(None)) => finished(
            DownloadOutcome::Error(DownloadError::Io),
        ),
        (
            DownloadSessionView::Reading { paths, next },
            DownloadEventView::FileRead(Some(bytes)),
        ) => (DownloadSessionView::Sending { paths, next }, DownloadActionView::Send(bytes)),
        (DownloadSessionView::Sending { paths, next }, DownloadEventView::Sent(done)) => {
            if done {
                resume(paths, next + 1)
            } else {
                finished(DownloadOutcome::Error(DownloadError::Transport))
            }
        },
        _ => finished(DownloadOutcome::Error(DownloadError::Protocol)),
    }
}

impl DownloadSession {
    /// Opens a session for an identity: the store is asked for the identity's
    /// file paths, and answers through `conduit`.
    pub fn start(identity: Credentials, conduit: tokio::sync::oneshot::Sender<Vec<String>>) -> (next:
        (DownloadSession, DownloadAction))
        ensures
            next.0 == DownloadSession::Querying,
            next.1 matches DownloadAction::Query(msg) && msg.credentials == identity
                && msg.query_type == QueryType::Select && msg.return_tx == Some(conduit)
                && msg.violation() is None,
    {
        (DownloadSession::Querying, DownloadAction::Query(DbMessage::select(identity, conduit)))
    }

    /// Ends the session.
    fn finish(outcome: DownloadOutcome) -> (next: (DownloadSession, DownloadAction))
        ensures
            (next.0@, next.1@) == finished(outcome),
    {
        (DownloadSession::Closed(outcome), DownloadAction::Finish(outcome))
    }

    /// Goes on with the file at `from`.
    fn proceed(paths: Vec<String>, from: usize) -> (next: (DownloadSession, DownloadAction))
        ensures
            (next.0@, next.1@) == resume(texts(paths@), from as int),
    {
        if from < paths.len() {
            let path = paths[from].clone();
            (DownloadSession::Reading { paths, next: from }, DownloadAction::ReadFile(path))
        } else {
            Self::finish(DownloadOutcome::Success)
        }
    }

    /// Takes the session one event further and says what to do next.
    pub fn step(self, event: DownloadEvent) -> (next: (DownloadSession, DownloadAction))
        ensures
            (next.0@, next.1@) == after(self@, event@),
    {
        match (self, event) {
            (DownloadSession::Closed(outcome), _) => Self::finish(outcome),
            (DownloadSession::Querying, DownloadEvent::Reply(None)) => Self::finish(
                DownloadOutcome::Error(DownloadError::StoreUnavailable),
            ),
            (DownloadSession::Querying, DownloadEvent::Reply(Some(paths))) => Self::proceed(
                paths,
                0,
            ),
            (DownloadSession::Reading { .. }, DownloadEvent::FileRead(None)) => Self::finish(
                DownloadOutcome::Error(DownloadError::Io),
            ),
            (DownloadSession::Reading { paths, next }, DownloadEvent::FileRead(Some(bytes))) => (
                DownloadSession::Sending { paths, next },
                DownloadAction::Send(bytes),
            ),
            (DownloadSession::Sending { paths, next }, DownloadEvent::Sent(done)) => {
                if !done {
                    Self::finish(DownloadOutcome::Error(DownloadError::Transport))
                } else if next < paths.len() {
                    Self::proceed(paths, next + 1)
                } else {
                    Self::finish(DownloadOutcome::Success)
                }
            },
            _ => Self::finish(DownloadOutcome::Error(DownloadError::Protocol)),
        }
    }
}


/// The actions that a session takes, one for each event, from a state on.
pub open spec fn actions_over(
    state: DownloadSessionView,
    events: Seq<DownloadEventView>,
) -> Seq<DownloadActionView>
    decreases events.len(),
{
    if events.len() == 0 {
        Seq::empty()
    } else {
        let (next, action) = after(state, events[0]);
        seq![action] + actions_over(next, events.drop_first())
    }
}

/// The events of a transfer in which nothing fails: each file is read, with
/// these contents, and then sent.
pub open spec fn smooth_events(contents: Seq<Seq<u8>>) -> Seq<DownloadEventView>
    decreases contents.len(),
{
    if contents.len() == 0 {
        Seq::empty()
    } else {
        seq![
            DownloadEventView::FileRead(Some(contents[0])),
            DownloadEventView::Sent(true),
        ] + smooth_events(contents.drop_first())
    }
}

/// From the moment the file at `from` is being read: every later file is
/// sent once and the next one read, in order, and the transfer ends in
/// success after the last.
proof fn rest_goes_out_in_order(paths: Seq<Seq<char>>, contents: Seq<Seq<u8>>, from: int)
    requires
        paths.len() == contents.len(),
        0 <= from < paths.len(),
    ensures
        ({
            let acts = actions_over(
                DownloadSessionView::Reading { paths, next: from },
                smooth_events(contents.skip(from)),
            );
            &&& acts.len() == 2 * (paths.len() - from)
            &&& forall|k: int|
                from <= k < paths.len() ==> #[trigger] acts[2 * (k - from)]
                    == DownloadActionView::Send(contents[k])
            &&& forall|k: int|
                from < k < paths.len() ==> #[trigger] acts[2 * (k - from) - 1]
                    == DownloadActionView::ReadFile(paths[k])
            &&& acts[2 * (paths.len() - from) - 1] == DownloadActionView::Finish(
                DownloadOutcome::Success,
            )
        }),
    decreases paths.len() - from,
{
    let reading = DownloadSessionView::Reading { paths, next: from };
    let sending = DownloadSessionView::Sending { paths, next: from };
    let left = contents.skip(from);
    let events = smooth_events(left);
    let tail = smooth_events(left.drop_first());
    let head = seq![DownloadEventView::FileRead(Some(left[0])), DownloadEventView::Sent(true)];
    assert(events == head + tail);
    assert(events.drop_first() =~= seq![DownloadEventView::Sent(true)] + tail);
    assert(events.drop_first().drop_first() =~= tail);
    assert(left.drop_first() =~= contents.skip(from + 1));
    let acts = actions_over(reading, events);
    let (after_send, second) = after(sending, DownloadEventView::Sent(true));
    let rest = actions_over(after_send, tail);
    assert(after(reading, events[0]) == (sending, DownloadActionView::Send(contents[from])));
    assert(actions_over(sending, events.drop_first()) == seq![second] + rest);
    assert(acts == seq![DownloadActionView::Send(contents[from])] + (seq![second] + rest));
    if from + 1 < paths.len() {
        rest_goes_out_in_order(paths, contents, from + 1);
        assert forall|k: int| from <= k < paths.len() implies #[trigger] acts[2 * (k - from)]
            == DownloadActionView::Send(contents[k]) by {
            if k > from {
                assert(acts[2 * (k - from)] == rest[2 * (k - (from + 1))]);
            }
        }
        assert forall|k: int| from < k < paths.len() implies #[trigger] acts[2 * (k - from) - 1]
            == DownloadActionView::ReadFile(paths[k]) by {
            if k > from + 1 {
                assert(acts[2 * (k - from) - 1] == rest[2 * (k - (from + 1)) - 1]);
            }
        }
        assert(acts[2 * (paths.len() - from) - 1] == rest[2 * (paths.len() - (from + 1)) - 1]);
    } else {
        assert(tail =~= Seq::<DownloadEventView>::empty());
        assert(rest =~= Seq::<DownloadActionView>::empty());
    }
}

/// A transfer in which nothing fails reads the files in the order of the
/// store's reply and sends each one's contents once, as they were read, then
/// ends in success: the actions after the reply are read, send, read, send
/// and so on, and the finish comes last.
pub proof fn files_go_out_in_reply_order(paths: Seq<Seq<char>>, contents: Seq<Seq<u8>>)
    requires
        paths.len() == contents.len(),
    ensures
        ({
            let events = seq![DownloadEventView::Reply(Some(paths))] + smooth_events(contents);
            let acts = actions_over(DownloadSessionView::Querying, events);
            &&& acts.len() == 2 * paths.len() + 1
            &&& forall|k: int|
                0 <= k < paths.len() ==> #[trigger] acts[2 * k] == DownloadActionView::ReadFile(
                    paths[k],
                )
            &&& forall|k: int|
                0 <= k < paths.len() ==> #[trigger] acts[2 * k + 1] == DownloadActionView::Send(
                    contents[k],
                )
            &&& acts[2 * paths.len() as int] == DownloadActionView::Finish(DownloadOutcome::Success)
        }),
{
    let events = seq![DownloadEventView::Reply(Some(paths))] + smooth_events(contents);
    let acts = actions_over(DownloadSessionView::Querying, events);
    let (state, first) = after(DownloadSessionView::Querying, events[0]);
    let rest = actions_over(state, events.drop_first());
    assert(events.drop_first() =~= smooth_events(contents));
    assert(acts == seq![first] + rest);
    if paths.len() == 0 {
        assert(rest =~= Seq::<DownloadActionView>::empty());
    } else {
        assert(contents.skip(0) =~= contents);
        rest_goes_out_in_order(paths, contents, 0);
        assert forall|k: int| 0 <= k < paths.len() implies #[trigger] acts[2 * k]
            == DownloadActionView::ReadFile(paths[k]) by {
            if k > 0 {
                assert(acts[2 * k] == rest[2 * (k - 0) - 1]);
            }
        }
        assert forall|k: int| 0 <= k < paths.len() implies #[trigger] acts[2 * k + 1]
            == DownloadActionView::Send(contents[k]) by {
            assert(acts[2 * k + 1] == rest[2 * (k - 0)]);
        }
        assert(acts[2 * paths.len() as int] == rest[2 * (paths.len() - 0) - 1]);
    }
}

/// A file that cannot be read ends the transfer at once: nothing more is
/// read or sent.
pub proof fn unreadable_file_ends_the_transfer(
    paths: Seq<Seq<char>>,
    next: int,
    later: DownloadEventView,
)
    ensures
        ({
            let reading = DownloadSessionView::Reading { paths, next };
            let (closed, action) = after(reading, DownloadEventView::FileRead(None));
            &&& (closed, action) == finished(DownloadOutcome::Error(DownloadError::Io))
            &&& after(closed, later) == (closed, action)
        }),
{
}


/// What a run of actions sends, end to end: the body of a response that is
/// made of the pieces sent.
pub open spec fn body_of(actions: Seq<DownloadActionView>) -> Seq<u8>
    decreases actions.len(),
{
    if actions.len() == 0 {
        Seq::empty()
    } else {
        let rest = body_of(actions.drop_first());
        match actions[0] {
            DownloadActionView::Send(bytes) => bytes + rest,
            _ => rest,
        }
    }
}

/// The contents of the files, one after the other.
pub open spec fn joined(contents: Seq<Seq<u8>>) -> Seq<u8>
    decreases contents.len(),
{
    if contents.len() == 0 {
        Seq::empty()
    } else {
        contents[0] + joined(contents.drop_first())
    }
}

/// What is sent from the moment the file at `from` is being read is what the
/// files from there on hold.
proof fn rest_of_body_is_rest_of_files(paths: Seq<Seq<char>>, contents: Seq<Seq<u8>>, from: int)
    requires
        paths.len() == contents.len(),
        0 <= from < paths.len(),
    ensures
        body_of(
            actions_over(
                DownloadSessionView::Reading { paths, next: from },
                smooth_events(contents.skip(from)),
            ),
        ) == joined(contents.skip(from)),
    decreases paths.len() - from,
{
    let reading = DownloadSessionView::Reading { paths, next: from };
    let sending = DownloadSessionView::Sending { paths, next: from };
    let left = contents.skip(from);
    let events = smooth_events(left);
    let tail = smooth_events(left.drop_first());
    assert(events == seq![
        DownloadEventView::FileRead(Some(left[0])),
        DownloadEventView::Sent(true),
    ] + tail);
    assert(events.drop_first() =~= seq![DownloadEventView::Sent(true)] + tail);
    assert(events.drop_first().drop_first() =~= tail);
    assert(left.drop_first() =~= contents.skip(from + 1));
    let acts = actions_over(reading, events);
    let (after_send, second) = after(sending, DownloadEventView::Sent(true));
    let rest = actions_over(after_send, tail);
    let later = seq![second] + rest;
    assert(actions_over(sending, events.drop_first()) == later);
    assert(acts == seq![DownloadActionView::Send(contents[from])] + later);
    assert(acts.drop_first() =~= later);
    assert(later.drop_first() =~= rest);
    assert(body_of(acts) == contents[from] + body_of(later));
    assert(body_of(later) == body_of(rest));
    if from + 1 < paths.len() {
        rest_of_body_is_rest_of_files(paths, contents, from + 1);
    } else {
        assert(tail =~= Seq::<DownloadEventView>::empty());
        assert(rest =~= Seq::<DownloadActionView>::empty());
        assert(joined(contents.skip(from + 1)) =~= Seq::<u8>::empty());
    }
}

/// In a transfer in which nothing fails, what is sent, end to end, is the
/// contents of the files of the store's reply, joined in the reply's order.
pub proof fn body_is_the_files_joined(paths: Seq<Seq<char>>, contents: Seq<Seq<u8>>)
    requires
        paths.len() == contents.len(),
    ensures
        body_of(
            actions_over(
                DownloadSessionView::Querying,
                seq![DownloadEventView::Reply(Some(paths))] + smooth_events(contents),
            ),
        ) == joined(contents),
{
    let events = seq![DownloadEventView::Reply(Some(paths))] + smooth_events(contents);
    let acts = actions_over(DownloadSessionView::Querying, events);
    let (state, first) = after(DownloadSessionView::Querying, events[0]);
    let rest = actions_over(state, events.drop_first());
    assert(events.drop_first() =~= smooth_events(contents));
    assert(acts == seq![first] + rest);
    assert(acts.drop_first() =~= rest);
    assert(body_of(acts) == body_of(rest));
    if paths.len() == 0 {
        assert(rest =~= Seq::<DownloadActionView>::empty());
    } else {
        assert(contents.skip(0) =~= contents);
        rest_of_body_is_rest_of_files(paths, contents, 0);
    }
}

} // verus!
