//! The boundary operations: greeting and version, and the store engine's
//! reads and writes of contacts and message threads.
//!
//! A read is a statement for the storage engine, and what the engine found
//! is then listed in order. A send is a short protocol: the insert, then the
//! read of the row that the insert created.

use vstd::prelude::*;
use vstd::string::*;
use vstd::multiset::{group_multiset_axioms, lemma_multiset_empty_len};
use vstd::seq_lib::{to_multiset_build, to_multiset_insert};
use crate::db::{BoundValue, SqlValue, Statement, StatementText, plain};
use crate::error::{AppError, ErrorText};
use crate::listing::{
    Rank, alike_keep_their_order, alike_to, choice_with_one_more, contact_before,
    contact_before_is_not_alike, contact_precedes, contacts_in_order, is_message_before, message_before,
    message_precedes, none_chosen, of_contact, one_chosen, rank_contacts, thread_in_order,
};

verus! {

/// The answer to a greeting.
#[derive(Debug, Clone, PartialEq, Eq)]
pub struct MessageResponse {
    pub message: String,
    pub status: String,
}

/// The version of the application and the build it came from.
#[derive(Debug, Clone, PartialEq, Eq)]
pub struct VersionInfo {
    pub version: String,
    pub build: String,
}

/// A conversation partner.
#[derive(Debug, Clone, PartialEq, Eq)]
pub struct Contact {
    pub id: i64,
    pub name: String,
    pub status: String,
    pub category: String,
}

/// One message of a contact's thread. The timestamp counts seconds since
/// 1970-01-01T00:00:00Z.
#[derive(Debug, Clone, PartialEq, Eq)]
pub struct Message {
    pub id: i64,
    pub contact_id: i64,
    pub content: String,
    pub is_from_user: bool,
    pub timestamp: i64,
}

/// The build name used where none was given.
pub const DEFAULT_BUILD: &'static str = "dev";

pub const SELECT_CONTACTS_SQL: &'static str =
    "SELECT id, name, status, category FROM contacts ORDER BY category, name";

pub const SELECT_MESSAGES_SQL: &'static str =
    "SELECT id, contact_id, content, is_from_user, timestamp FROM messages WHERE contact_id = ? ORDER BY timestamp, id";

pub const INSERT_MESSAGE_SQL: &'static str =
    "INSERT INTO messages (contact_id, content, is_from_user) VALUES (?, ?, true)";

pub const SELECT_MESSAGE_SQL: &'static str =
    "SELECT id, contact_id, content, is_from_user, timestamp FROM messages WHERE id = ?";

/// The text of a greeting.
pub open spec fn greeting_text(name: Seq<char>) -> Seq<char> {
    "Hello, "@ + name + "! Welcome to Tauri Application."@
}

/// Greets by name.
pub fn greet(name: String) -> (r: MessageResponse)
    ensures
        r.message@ == greeting_text(name@),
        r.status@ == "success"@,
{
    MessageResponse {
        message: String::from_str("Hello, ").concat(name.as_str()).concat("! Welcome to Tauri Application."),
        status: String::from_str("success"),
    }
}

/// The version as the runtime reports it, and the build number, or `dev`
/// where the build carried none.
pub fn get_app_version(version: String, build_number: Option<String>) -> (r: VersionInfo)
    ensures
        r.version@ == version@,
        r.build@ == (match build_number {
            Some(b) => b@,
            None => DEFAULT_BUILD@,
        }),
{
    let build = match build_number {
        Some(b) => b,
        None => String::from_str(DEFAULT_BUILD),
    };
    VersionInfo { version, build }
}

/// The read of all contacts, by category and then by name.
pub fn contacts_query() -> (s: Statement)
    ensures
        s@ == plain(SELECT_CONTACTS_SQL@),
{
    Statement::new(SELECT_CONTACTS_SQL)
}

/// Lists the contacts that the read of `contacts_query` found: the same
/// contacts, each as often as it was read, by category and then by name,
/// those of the same category and name in the order in which they were read.
pub fn get_contacts(rows: Vec<Contact>) -> (list: Vec<Contact>)
    ensures
        list@.to_multiset() == rows@.to_multiset(),
        contacts_in_order(list@),
        alike_keep_their_order(rows@, list@),
{
    broadcast use group_multiset_axioms;

    let ghost all = rows@;
    let mut rest = rows;
    let mut list: Vec<Contact> = Vec::new();
    proof {
        list@.to_multiset_ensures();
        lemma_multiset_empty_len(list@.to_multiset());
        assert(list@.to_multiset().add(rest@.to_multiset()) =~= all.to_multiset());
        assert(rest@ =~= all.subrange(0, rest@.len() as int));
        assert(all.subrange(rest@.len() as int, all.len() as int) =~= list@);
    }
    while rest.len() > 0
        invariant
            list@.to_multiset().add(rest@.to_multiset()) == all.to_multiset(),
            contacts_in_order(list@),
            rest@.len() <= all.len(),
            rest@ == all.subrange(0, rest@.len() as int),
            alike_keep_their_order(all.subrange(rest@.len() as int, all.len() as int), list@),
        decreases rest@.len(),
    {
        let ghost taken_from = rest@;
        let ghost placed_in = list@;
        let x = rest.pop().unwrap();
        let mut pos: usize = 0;
        loop
            invariant_except_break
                pos <= list@.len(),
                list@ == placed_in,
                forall|k: int| 0 <= k < pos ==> contact_before(#[trigger] list@[k], x),
            ensures
                pos <= list@.len(),
                list@ == placed_in,
                forall|k: int| 0 <= k < pos ==> contact_before(#[trigger] list@[k], x),
                pos < list@.len() ==> contact_precedes(x, list@[pos as int]),
            decreases list@.len() - pos,
        {
            if pos >= list.len() {
                break ;
            }
            match rank_contacts(&list[pos], &x) {
                Rank::Before => {},
                _ => {
                    break ;
                },
            }
            pos = pos + 1;
        }
        list.insert(pos, x);
        proof {
            assert(taken_from =~= rest@.push(x));
            to_multiset_build(rest@, x);
            to_multiset_insert(placed_in, pos as int, x);
            assert(list@.to_multiset().add(rest@.to_multiset()) =~= all.to_multiset());
            assert(rest@ =~= all.subrange(0, rest@.len() as int));
            let later = all.subrange(taken_from.len() as int, all.len() as int);
            let head = placed_in.subrange(0, pos as int);
            let tail = placed_in.subrange(pos as int, placed_in.len() as int);
            assert(placed_in =~= head + tail);
            assert(list@ =~= (head + seq![x]) + tail);
            assert(all.subrange(rest@.len() as int, all.len() as int) =~= seq![x] + later);
            assert forall|c: Contact| #[trigger]
                list@.filter(alike_to(c)) == (seq![x] + later).filter(alike_to(c)) by {
                let p = alike_to(c);
                Seq::filter_distributes_over_add(head, tail, p);
                Seq::filter_distributes_over_add(head, seq![x], p);
                Seq::filter_distributes_over_add(head + seq![x], tail, p);
                Seq::filter_distributes_over_add(seq![x], later, p);
                one_chosen(x, p);
                assert(placed_in.filter(p) == later.filter(p));
                if p(x) {
                    assert forall|i: int| 0 <= i < head.len() implies !p(#[trigger] head[i]) by {
                        assert(head[i] == placed_in[i]);
                        contact_before_is_not_alike(head[i], x);
                    }
                    none_chosen(head, p);
                    assert(list@.filter(p) =~= seq![x] + tail.filter(p));
                    assert(placed_in.filter(p) =~= tail.filter(p));
                } else {
                    assert(list@.filter(p) =~= head.filter(p) + tail.filter(p));
                }
            }
            assert forall|i: int| 0 <= i < list@.len() - 1 implies contact_precedes(
                #[trigger] list@[i],
                list@[i + 1],
            ) by {
                if i + 1 < pos {
                    assert(list@[i] == placed_in[i]);
                    assert(list@[i + 1] == placed_in[i + 1]);
                } else if i + 1 == pos {
                    assert(list@[i] == placed_in[i]);
                } else if i == pos {
                    assert(list@[i + 1] == placed_in[i]);
                } else {
                    assert(list@[i] == placed_in[i - 1]);
                    assert(list@[i + 1] == placed_in[i]);
                }
            }
        }
    }
    proof {
        rest@.to_multiset_ensures();
        lemma_multiset_empty_len(rest@.to_multiset());
        assert(list@.to_multiset() =~= all.to_multiset());
        assert(all.subrange(0, all.len() as int) =~= all);
    }
    list
}

/// The read of one contact's thread, oldest first, messages of the same
/// second in the order of their ids.
pub open spec fn thread_read(contact_id: i64) -> StatementText {
    StatementText { sql: SELECT_MESSAGES_SQL@, params: seq![BoundValue::Integer(contact_id)] }
}

/// The insert of a message written by the user.
pub open spec fn message_insert(contact_id: i64, content: Seq<char>) -> StatementText {
    StatementText {
        sql: INSERT_MESSAGE_SQL@,
        params: seq![BoundValue::Integer(contact_id), BoundValue::Text(content)],
    }
}

/// The read of the one message with the given id.
pub open spec fn message_read(id: i64) -> StatementText {
    StatementText { sql: SELECT_MESSAGE_SQL@, params: seq![BoundValue::Integer(id)] }
}

/// The read of the thread of the contact with the given id.
pub fn thread_query(contact_id: i64) -> (s: Statement)
    ensures
        s@ == thread_read(contact_id),
{
    let s = Statement::new(SELECT_MESSAGES_SQL).bind(SqlValue::Integer(contact_id));
    proof {
        assert(s@.params =~= thread_read(contact_id).params);
    }
    s
}

/// Lists the thread of the contact with the given id from what the read of
/// `thread_query` found: the messages of that contact, each as often as it
/// was read, oldest first, messages of the same second by id. A contact
/// without messages has the empty thread.
pub fn get_messages(contact_id: i64, rows: Vec<Message>) -> (list: Vec<Message>)
    ensures
        list@.to_multiset() == rows@.filter(of_contact(contact_id)).to_multiset(),
        thread_in_order(list@),
        forall|i: int| 0 <= i < list@.len() ==> (#[trigger] list@[i]).contact_id == contact_id,
{
    broadcast use group_multiset_axioms;

    let ghost all = rows@;
    let ghost p = of_contact(contact_id);
    let mut rest = rows;
    let mut list: Vec<Message> = Vec::new();
    proof {
        list@.to_multiset_ensures();
        lemma_multiset_empty_len(list@.to_multiset());
        assert(list@.to_multiset().add(rest@.filter(p).to_multiset()) =~= all.filter(p).to_multiset());
    }
    while rest.len() > 0
        invariant
            p == of_contact(contact_id),
            list@.to_multiset().add(rest@.filter(p).to_multiset()) == all.filter(p).to_multiset(),
            thread_in_order(list@),
            forall|i: int| 0 <= i < list@.len() ==> (#[trigger] list@[i]).contact_id == contact_id,
        decreases rest@.len(),
    {
        let ghost taken_from = rest@;
        let ghost placed_in = list@;
        let x = rest.pop().unwrap();
        proof {
            assert(taken_from =~= rest@.push(x));
            choice_with_one_more(rest@, x, p);
        }
        if x.contact_id == contact_id {
            let mut pos: usize = 0;
            loop
                invariant_except_break
                    pos <= list@.len(),
                    list@ == placed_in,
                    forall|k: int| 0 <= k < pos ==> message_before(#[trigger] list@[k], x),
                ensures
                    pos <= list@.len(),
                    list@ == placed_in,
                    forall|k: int| 0 <= k < pos ==> message_before(#[trigger] list@[k], x),
                    pos < list@.len() ==> message_precedes(x, list@[pos as int]),
                decreases list@.len() - pos,
            {
                if pos >= list.len() {
                    break ;
                }
                if !is_message_before(&list[pos], &x) {
                    break ;
                }
                pos = pos + 1;
            }
            list.insert(pos, x);
            proof {
                to_multiset_build(rest@.filter(p), x);
                to_multiset_insert(placed_in, pos as int, x);
                assert(list@.to_multiset().add(rest@.filter(p).to_multiset()) =~= all.filter(p).to_multiset());
                assert forall|i: int, j: int| 0 <= i < j < list@.len() implies message_precedes(
                    #[trigger] list@[i],
                    #[trigger] list@[j],
                ) by {
                    let a = if i < pos { i } else { i - 1 };
                    let b = if j < pos { j } else { j - 1 };
                    if i != pos {
                        assert(list@[i] == placed_in[a]);
                    }
                    if j != pos {
                        assert(list@[j] == placed_in[b]);
                    }
                    if i == pos {
                        assert(message_precedes(placed_in[pos as int], placed_in[b]) || b == pos);
                    }
                }
                assert forall|i: int| 0 <= i < list@.len() implies (#[trigger] list@[i]).contact_id
                    == contact_id by {
                    if i < pos {
                        assert(list@[i] == placed_in[i]);
                    } else if i > pos {
                        assert(list@[i] == placed_in[i - 1]);
                    }
                }
            }
        }
    }
    proof {
        assert(rest@ =~= Seq::<Message>::empty());
        rest@.lemma_filter_len(p);
        rest@.filter(p).to_multiset_ensures();
        lemma_multiset_empty_len(rest@.filter(p).to_multiset());
        assert(list@.to_multiset() =~= all.filter(p).to_multiset());
    }
    list
}

/// How far a send has come.
#[derive(Debug, Clone, Copy, PartialEq, Eq, Structural)]
pub enum SendStage {
    Start,
    Inserting,
    /// The row of this id, which the insert created, is being read.
    Reading(i64),
    Done,
    Failed,
}

/// What the storage engine reported of the action last asked for.
#[derive(Debug, Clone, PartialEq, Eq)]
pub enum SendEvent {
    /// Nothing was asked yet.
    Begin,
    /// The insert succeeded and created the row of this id.
    Inserted(i64),
    /// The read found this row.
    Row(Message),
    /// The action failed.
    Failed(AppError),
}

/// What a send asks for next.
#[derive(Debug, Clone, PartialEq, Eq)]
pub enum SendAction {
    /// Run the insert and report the id of the row it created.
    Insert(Statement),
    /// Run the read and report the one row it finds.
    Fetch(Statement),
    /// Hand the message to the caller.
    Return(Message),
    /// Give up with this error.
    Fail(AppError),
}

/// An action as plain data.
pub ghost enum SendActionText {
    Insert(StatementText),
    Fetch(StatementText),
    Return(Message),
    Fail(ErrorText),
}

impl View for SendAction {
    type V = SendActionText;

    open spec fn view(&self) -> SendActionText {
        match *self {
            SendAction::Insert(s) => SendActionText::Insert(s@),
            SendAction::Fetch(s) => SendActionText::Fetch(s@),
            SendAction::Return(m) => SendActionText::Return(m),
            SendAction::Fail(e) => SendActionText::Fail(e@),
        }
    }
}

/// The stage reached, and the action to perform there.
#[derive(Debug, Clone, PartialEq, Eq)]
pub struct SendStep {
    pub stage: SendStage,
    pub action: SendAction,
}

/// The cause reported when an event does not answer the action asked for.
pub const OUT_OF_TURN: &'static str = "event does not answer the pending action";

/// The cause reported when the row read back is not the message sent.
pub const ROW_DIFFERS: &'static str = "stored message differs from the message sent";

/// Whether a row is the message sent: it has the id that the insert
/// reported, belongs to the contact, is marked as written by the user, and
/// holds the content.
pub open spec fn is_message_sent(row: Message, id: i64, contact_id: i64, content: Seq<char>) -> bool {
    row.id == id && row.contact_id == contact_id && row.is_from_user && row.content@ == content
}

/// The protocol of a send. The message is inserted as written by the user,
/// the row that the insert created is read back by the id that the insert
/// reported, and that row is what the caller gets, provided that it is the
/// message sent. A failure at either step ends the send with the error as
/// reported, and nothing is returned.
pub open spec fn send_next(contact_id: i64, content: Seq<char>, stage: SendStage, event: SendEvent) -> (
    SendStage,
    SendActionText,
) {
    match (stage, event) {
        (SendStage::Start, SendEvent::Begin) => (
            SendStage::Inserting,
            SendActionText::Insert(message_insert(contact_id, content)),
        ),
        (SendStage::Inserting, SendEvent::Inserted(id)) => (
            SendStage::Reading(id),
            SendActionText::Fetch(message_read(id)),
        ),
        (SendStage::Reading(id), SendEvent::Row(m)) => if is_message_sent(m, id, contact_id, content) {
            (SendStage::Done, SendActionText::Return(m))
        } else {
            (SendStage::Failed, SendActionText::Fail(ErrorText::DatabaseError(ROW_DIFFERS@)))
        },
        (_, SendEvent::Failed(e)) => (SendStage::Failed, SendActionText::Fail(e@)),
        _ => (SendStage::Failed, SendActionText::Fail(ErrorText::UnknownError(OUT_OF_TURN@))),
    }
}

/// One step of sending `content` to the contact with id `contact_id`: from
/// the stage reached and the report of the last action, the next stage and
/// the action to perform.
pub fn send_message(contact_id: i64, content: String, stage: SendStage, event: SendEvent) -> (step:
    SendStep)
    ensures
        step.stage == send_next(contact_id, content@, stage, event).0,
        step.action@ == send_next(contact_id, content@, stage, event).1,
{
    match (stage, event) {
        (SendStage::Start, SendEvent::Begin) => {
            let ghost text = content@;
            let s = Statement::new(INSERT_MESSAGE_SQL).bind(SqlValue::Integer(contact_id)).bind(
                SqlValue::Text(content),
            );
            proof {
                assert(s@.params =~= message_insert(contact_id, text).params);
            }
            SendStep { stage: SendStage::Inserting, action: SendAction::Insert(s) }
        },
        (SendStage::Inserting, SendEvent::Inserted(id)) => {
            let s = Statement::new(SELECT_MESSAGE_SQL).bind(SqlValue::Integer(id));
            proof {
                assert(s@.params =~= message_read(id).params);
            }
            SendStep { stage: SendStage::Reading(id), action: SendAction::Fetch(s) }
        },
        (SendStage::Reading(id), SendEvent::Row(m)) => {
            if m.id == id && m.contact_id == contact_id && m.is_from_user && m.content == content {
                SendStep { stage: SendStage::Done, action: SendAction::Return(m) }
            } else {
                SendStep {
                    stage: SendStage::Failed,
                    action: SendAction::Fail(AppError::DatabaseError(String::from_str(ROW_DIFFERS))),
                }
            }
        },
        (_, SendEvent::Failed(e)) => SendStep { stage: SendStage::Failed, action: SendAction::Fail(e) },
        _ => SendStep {
            stage: SendStage::Failed,
            action: SendAction::Fail(AppError::UnknownError(String::from_str(OUT_OF_TURN))),
        },
    }
}

/// Every message that a send returns is the message sent: it belongs to
/// the contact, is marked as written by the user, holds the content as it
/// was sent, and is the row that was read by the id the insert reported.
pub proof fn returned_message_is_the_message_sent(
    contact_id: i64,
    content: Seq<char>,
    stage: SendStage,
    event: SendEvent,
    m: Message,
)
    requires
        send_next(contact_id, content, stage, event).1 == SendActionText::Return(m),
    ensures
        m.contact_id == contact_id,
        m.is_from_user,
        m.content@ == content,
        stage == SendStage::Reading(m.id),
        event == SendEvent::Row(m),
        send_next(contact_id, content, stage, event).0 == SendStage::Done,
{
}

/// A row is read only by the id that the insert reported, and only as the
/// answer to that report.
pub proof fn row_is_read_by_the_id_inserted(
    contact_id: i64,
    content: Seq<char>,
    stage: SendStage,
    event: SendEvent,
    id: i64,
)
    requires
        send_next(contact_id, content, stage, event).0 == SendStage::Reading(id),
    ensures
        stage == SendStage::Inserting,
        event == SendEvent::Inserted(id),
        send_next(contact_id, content, stage, event).1 == SendActionText::Fetch(message_read(id)),
{
}

/// A failure that the storage engine reports ends the send at once: no
/// message is returned, no further statement is asked for, and the error
/// goes to the caller as it was reported.
pub proof fn failed_send_returns_nothing(contact_id: i64, content: Seq<char>, stage: SendStage, e: AppError)
    ensures
        send_next(contact_id, content, stage, SendEvent::Failed(e)) == (
            SendStage::Failed,
            SendActionText::Fail(e@),
        ),
{
}

/// A send that meets no failure inserts the message as written by the user,
/// for the contact given, reads back the row of the id that the insert
/// reported, and returns that row unchanged.
pub proof fn successful_send_returns_inserted_row(contact_id: i64, content: Seq<char>, id: i64, row: Message)
    requires
        is_message_sent(row, id, contact_id, content),
    ensures
        ({
            let s1 = send_next(contact_id, content, SendStage::Start, SendEvent::Begin);
            let s2 = send_next(contact_id, content, s1.0, SendEvent::Inserted(id));
            let s3 = send_next(contact_id, content, s2.0, SendEvent::Row(row));
            &&& s1.1 == SendActionText::Insert(message_insert(contact_id, content))
            &&& s2.1 == SendActionText::Fetch(message_read(id))
            &&& s3 == (SendStage::Done, SendActionText::Return(row))
        }),
{
}

} // verus!
