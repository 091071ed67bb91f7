use crate::credentials::Credentials;
use vstd::prelude::*;
use vstd::string::*;

verus! {

/// tokio's single-use sending half, through which a query's rows go back to
/// the requester. Nothing inside it is visible here.
#[verifier::external_type_specification]
#[verifier::external_body]
#[verifier::reject_recursive_types(T)]
pub struct ExReplySender<T>(tokio::sync::oneshot::Sender<T>);

/// `tokio::sync::oneshot::Sender::send` either accepts the value or hands the
/// same value back when the receiving half is gone.
pub assume_specification<T>[ tokio::sync::oneshot::Sender::<T>::send ](
    conduit: tokio::sync::oneshot::Sender<T>,
    value: T,
) -> (sent: Result<(), T>)
    ensures
        sent matches Err(back) ==> back == value,
;

/// Creates the table of image records unless it is there already.
pub const CREATE_TABLE_SQL: &'static str =
    "CREATE TABLE IF NOT EXISTS images (organization TEXT NOT NULL, username TEXT NOT NULL, mission TEXT NOT NULL, id TEXT NOT NULL, filepath TEXT NOT NULL)";

/// Appends one record; bound to organization, username, mission, id, filepath.
pub const INSERT_SQL: &'static str =
    "INSERT INTO images (organization, username, mission, id, filepath) VALUES (?1, ?2, ?3, ?4, ?5)";

/// The file paths recorded under one identity; bound to organization,
/// username, mission.
pub const SELECT_SQL: &'static str =
    "SELECT filepath FROM images WHERE organization = ?1 AND username = ?2 AND mission = ?3";

/// Rewrites the identity columns of the rows that the identity and the id
/// select; bound to organization, username, mission, id.
pub const UPDATE_SQL: &'static str =
    "UPDATE images SET organization = ?1, username = ?2, mission = ?3 WHERE organization = ?1 AND username = ?2 AND mission = ?3 AND id = ?4";

/// Removes the rows that the identity and the id select; bound to
/// organization, username, mission, id.
pub const DELETE_SQL: &'static str =
    "DELETE FROM images WHERE organization = ?1 AND username = ?2 AND mission = ?3 AND id = ?4";

/// The operation a request asks of the store.
#[derive(Clone, Copy, Debug, PartialEq, Eq, Structural)]
pub enum QueryType {
    Insert,
    Select,
    Update,
    Delete,
}

/// A request to the store worker.
pub struct DbMessage {
    pub credentials: Credentials,
    pub query_type: QueryType,
    pub return_tx: Option<tokio::sync::oneshot::Sender<Vec<String>>>,
}

/// What a request lacks.
#[derive(Clone, Copy, Debug, PartialEq, Eq, Structural)]
pub enum Missing {
    Filepath,
    Id,
    ReplyConduit,
}

/// A request that breaks the store's contract: the operation and what it
/// came without.
#[derive(Clone, Copy, Debug, PartialEq, Eq, Structural)]
pub struct ContractViolation {
    pub query_type: QueryType,
    pub missing: Missing,
}

/// SQL text with the values bound to its numbered placeholders, in order.
pub struct Statement {
    pub sql: String,
    pub params: Vec<String>,
}

pub struct StatementView {
    pub sql: Seq<char>,
    pub params: Seq<Seq<char>>,
}

impl View for Statement {
    type V = StatementView;

    open spec fn view(&self) -> StatementView {
        StatementView { sql: self.sql@, params: texts(self.params@) }
    }
}

/// The text of each string of a sequence.
pub open spec fn texts(strings: Seq<String>) -> Seq<Seq<char>> {
    Seq::new(strings.len(), |i: int| strings[i]@)
}

/// The statement that each operation runs, with the values it binds, for
/// credentials that carry what the operation needs.
pub open spec fn statement_for(query_type: QueryType, creds: Credentials) -> StatementView {
    let who = creds.tuple();
    let identity = seq![who.organization, who.username, who.mission];
    match query_type {
        QueryType::Insert => StatementView {
            sql: INSERT_SQL@,
            params: identity.push(creds@.id->0).push(creds@.filepath->0),
        },
        QueryType::Select => StatementView { sql: SELECT_SQL@, params: identity },
        QueryType::Update => StatementView {
            sql: UPDATE_SQL@,
            params: identity.push(creds@.id->0),
        },
        QueryType::Delete => StatementView {
            sql: DELETE_SQL@,
            params: identity.push(creds@.id->0),
        },
    }
}

impl DbMessage {
    /// What the request lacks, if anything. A query needs its reply conduit;
    /// every other operation needs the file path and the id, and a missing
    /// file path is named before a missing id.
    pub open spec fn violation(&self) -> Option<ContractViolation> {
        let query_type = self.query_type;
        if query_type == QueryType::Select {
            if self.return_tx is None {
                Some(ContractViolation { query_type, missing: Missing::ReplyConduit })
            } else {
                None
            }
        } else if self.credentials.filepath is None {
            Some(ContractViolation { query_type, missing: Missing::Filepath })
        } else if self.credentials.id is None {
            Some(ContractViolation { query_type, missing: Missing::Id })
        } else {
            None
        }
    }

    /// Tests a request against the store's contract.
    pub fn check(&self) -> (found: Option<ContractViolation>)
        ensures
            found == self.violation(),
    {
        let query_type = self.query_type;
        match query_type {
            QueryType::Select => {
                if self.return_tx.is_none() {
                    Some(ContractViolation { query_type, missing: Missing::ReplyConduit })
                } else {
                    None
                }
            },
            _ => {
                if self.credentials.filepath.is_none() {
                    Some(ContractViolation { query_type, missing: Missing::Filepath })
                } else if self.credentials.id.is_none() {
                    Some(ContractViolation { query_type, missing: Missing::Id })
                } else {
                    None
                }
            },
        }
    }

    /// The request that records one stored image. It expects no reply.
    pub fn insert(record: Credentials) -> (msg: DbMessage)
        ensures
            msg.credentials == record,
            msg.query_type == QueryType::Insert,
            msg.return_tx is None,
    {
        DbMessage { credentials: record, query_type: QueryType::Insert, return_tx: None }
    }

    /// The request for the file paths stored under an identity; the rows come
    /// back through `conduit`.
    pub fn select(
        identity: Credentials,
        conduit: tokio::sync::oneshot::Sender<Vec<String>>,
    ) -> (msg: DbMessage)
        ensures
            msg.credentials == identity,
            msg.query_type == QueryType::Select,
            msg.return_tx == Some(conduit),
            msg.violation() is None,
    {
        DbMessage { credentials: identity, query_type: QueryType::Select, return_tx: Some(conduit) }
    }
}

/// What the worker does next for a request.
pub enum StoreAction {
    /// Run the statement. If the store fails it, the failure is logged and
    /// the request dropped; nobody is told.
    Execute(Statement),
    /// Run the query, then `conclude` with this conduit and the rows.
    Query(Statement, tokio::sync::oneshot::Sender<Vec<String>>),
    /// The request breaks the contract: the worker stops the process.
    Abort(ContractViolation),
}

pub enum StoreActionView {
    Execute(StatementView),
    Query(StatementView, tokio::sync::oneshot::Sender<Vec<String>>),
    Abort(ContractViolation),
}

impl View for StoreAction {
    type V = StoreActionView;

    open spec fn view(&self) -> StoreActionView {
        match *self {
            StoreAction::Execute(statement) => StoreActionView::Execute(statement@),
            StoreAction::Query(statement, conduit) => StoreActionView::Query(statement@, conduit),
            StoreAction::Abort(violation) => StoreActionView::Abort(violation),
        }
    }
}

/// What the worker owes a request: an abort exactly for a request that breaks
/// the contract, a query with the request's own conduit for a select, and the
/// operation's statement otherwise.
pub open spec fn planned(msg: DbMessage) -> StoreActionView {
    match msg.violation() {
        Some(violation) => StoreActionView::Abort(violation),
        None => {
            let statement = statement_for(msg.query_type, msg.credentials);
            if msg.query_type == QueryType::Select {
                StoreActionView::Query(statement, msg.return_tx->0)
            } else {
                StoreActionView::Execute(statement)
            }
        },
    }
}

/// The statement that makes sure the table of image records exists. It binds
/// nothing.
pub fn schema() -> (statement: Statement)
    ensures
        statement@ == (StatementView { sql: CREATE_TABLE_SQL@, params: Seq::empty() }),
{
    let statement = Statement { sql: String::from_str(CREATE_TABLE_SQL), params: Vec::new() };
    assert(texts(statement.params@) =~= Seq::<Seq<char>>::empty());
    statement
}

/// The three identity values, in the order every statement binds them.
fn identity_params(organization: String, username: String, mission: String) -> (params: Vec<String>)
    ensures
        texts(params@) == seq![organization@, username@, mission@],
{
    let mut params: Vec<String> = Vec::new();
    params.push(organization);
    params.push(username);
    params.push(mission);
    assert(texts(params@) =~= seq![organization@, username@, mission@]);
    params
}

/// Decides what the worker does for one request. Every value that came from
/// the requester is bound to a placeholder; none becomes part of the SQL text.
pub fn dispatch(msg: DbMessage) -> (action: StoreAction)
    ensures
        action@ == planned(msg),
{
    let DbMessage { credentials, query_type, return_tx } = msg;
    let Credentials { organization, username, mission, id, filepath } = credentials;
    let ghost identity = seq![organization@, username@, mission@];
    let mut params = identity_params(organization, username, mission);
    match query_type {
        QueryType::Select => match return_tx {
            Some(conduit) => StoreAction::Query(
                Statement { sql: String::from_str(SELECT_SQL), params },
                conduit,
            ),
            None => StoreAction::Abort(
                ContractViolation { query_type, missing: Missing::ReplyConduit },
            ),
        },
        _ => match (filepath, id) {
            (None, _) => StoreAction::Abort(
                ContractViolation { query_type, missing: Missing::Filepath },
            ),
            (Some(_), None) => StoreAction::Abort(
                ContractViolation { query_type, missing: Missing::Id },
            ),
            (Some(filepath), Some(id)) => {
                params.push(id);
                assert(texts(params@) =~= identity.push(id@));
                let sql = match query_type {
                    QueryType::Update => String::from_str(UPDATE_SQL),
                    QueryType::Delete => String::from_str(DELETE_SQL),
                    QueryType::Insert | QueryType::Select => {
                        params.push(filepath);
                        assert(texts(params@) =~= identity.push(id@).push(filepath@));
                        String::from_str(INSERT_SQL)
                    },
                };
                StoreAction::Execute(Statement { sql, params })
            },
        },
    }
}

/// How a query ended for its requester.
#[derive(Clone, Copy, Debug, PartialEq, Eq, Structural)]
pub enum Delivery {
    /// The rows were handed to the conduit.
    Delivered,
    /// The requester had stopped waiting; the rows were discarded.
    ReceiverGone,
    /// The store failed the query. The conduit was released unused, so the
    /// requester's wait ends in an error.
    Dropped,
}

/// Ends a query: hands the rows the store produced, in the store's order, to
/// the requester, or releases the conduit when the store produced none.
pub fn conclude(
    conduit: tokio::sync::oneshot::Sender<Vec<String>>,
    rows: Option<Vec<String>>,
) -> (delivery: Delivery)
    ensures
        (delivery == Delivery::Dropped) == (rows is None),
{
    match rows {
        None => Delivery::Dropped,
        Some(filepaths) => match conduit.send(filepaths) {
            Ok(()) => Delivery::Delivered,
            Err(_) => Delivery::ReceiverGone,
        },
    }
}


impl QueryType {
    /// The operation's name as text.
    pub open spec fn label(self) -> Seq<char> {
        match self {
            QueryType::Insert => "Insert"@,
            QueryType::Select => "Select"@,
            QueryType::Update => "Update"@,
            QueryType::Delete => "Delete"@,
        }
    }

    /// The operation's name.
    pub fn name(&self) -> (text: &'static str)
        ensures
            text@ == self.label(),
    {
        match self {
            QueryType::Insert => "Insert",
            QueryType::Select => "Select",
            QueryType::Update => "Update",
            QueryType::Delete => "Delete",
        }
    }
}

impl Missing {
    /// The name of the field that is missing.
    pub open spec fn label(self) -> Seq<char> {
        match self {
            Missing::Filepath => "filepath"@,
            Missing::Id => "id"@,
            Missing::ReplyConduit => "return_tx"@,
        }
    }

    /// The name of the field that is missing.
    pub fn name(&self) -> (text: &'static str)
        ensures
            text@ == self.label(),
    {
        match self {
            Missing::Filepath => "filepath",
            Missing::Id => "id",
            Missing::ReplyConduit => "return_tx",
        }
    }
}

impl ContractViolation {
    /// The violation in words: `Error: <operation> called when <field> is none!`.
    pub open spec fn text(self) -> Seq<char> {
        "Error: "@ + self.query_type.label() + " called when "@ + self.missing.label()
            + " is none!"@
    }

    /// The words with which the worker stops the process.
    pub fn message(&self) -> (words: String)
        ensures
            words@ == self.text(),
    {
        let mut words = String::from_str("Error: ");
        words.append(self.query_type.name());
        words.append(" called when ");
        words.append(self.missing.name());
        words.append(" is none!");
        words
    }
}

/// A query is answered through its own conduit and binds its own identity,
/// nothing else: whatever other requests are about, they have no part in it.
pub proof fn query_binds_its_own_identity(msg: DbMessage)
    requires
        msg.query_type == QueryType::Select,
        msg.return_tx is Some,
    ensures
        planned(msg) == StoreActionView::Query(
            StatementView {
                sql: SELECT_SQL@,
                params: seq![
                    msg.credentials.organization@,
                    msg.credentials.username@,
                    msg.credentials.mission@,
                ],
            },
            msg.return_tx->0,
        ),
{
}

/// Queries for different identities bind different values.
pub proof fn queries_of_different_identities_differ(one: DbMessage, other: DbMessage)
    requires
        one.query_type == QueryType::Select,
        other.query_type == QueryType::Select,
        one.return_tx is Some,
        other.return_tx is Some,
        one.credentials.tuple() != other.credentials.tuple(),
    ensures
        planned(one) is Query,
        planned(other) is Query,
        planned(one)->Query_0.params != planned(other)->Query_0.params,
{
    let a = planned(one)->Query_0.params;
    let b = planned(other)->Query_0.params;
    if a == b {
        assert(a[0] == b[0] && a[1] == b[1] && a[2] == b[2]);
    }
}

/// An insert that carries its id and its file path is never refused and
/// never dropped by the worker's own decision: it becomes the one statement
/// that binds the whole record, in the order of the columns.
pub proof fn insert_binds_the_whole_record(msg: DbMessage)
    requires
        msg.query_type == QueryType::Insert,
        msg.credentials@.is_record(),
    ensures
        planned(msg) == StoreActionView::Execute(
            StatementView {
                sql: INSERT_SQL@,
                params: seq![
                    msg.credentials.organization@,
                    msg.credentials.username@,
                    msg.credentials.mission@,
                    msg.credentials@.record().id,
                    msg.credentials@.record().filepath,
                ],
            },
        ),
{
    assert(statement_for(QueryType::Insert, msg.credentials).params =~= seq![
        msg.credentials.organization@,
        msg.credentials.username@,
        msg.credentials.mission@,
        msg.credentials@.record().id,
        msg.credentials@.record().filepath,
    ]);
}

/// A request that changes the table without its id or its file path is
/// answered by an abort, and by nothing else.
pub proof fn incomplete_change_aborts(msg: DbMessage)
    requires
        msg.query_type != QueryType::Select,
        !msg.credentials@.is_record(),
    ensures
        planned(msg) is Abort,
        planned(msg)->Abort_0.query_type == msg.query_type,
        planned(msg)->Abort_0.missing != Missing::ReplyConduit,
{
}

} // verus!
