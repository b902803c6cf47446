//! The connection manager: where the database lives, the statements that
//! create its schema, and the protocol by which it is initialized.
//!
//! The storage engine itself is driven from outside this crate. The protocol
//! here decides, from the stage reached and from what the engine reported,
//! what is asked of the engine next.

use vstd::prelude::*;
use vstd::string::*;
use crate::error::{AppError, ErrorText};

verus! {

/// A value bound to a placeholder of a statement.
#[derive(Debug, Clone, PartialEq, Eq)]
pub enum SqlValue {
    Integer(i64),
    Text(String),
}

/// A bound value as plain data.
pub ghost enum BoundValue {
    Integer(i64),
    Text(Seq<char>),
}

impl View for SqlValue {
    type V = BoundValue;

    open spec fn view(&self) -> BoundValue {
        match *self {
            SqlValue::Integer(n) => BoundValue::Integer(n),
            SqlValue::Text(s) => BoundValue::Text(s@),
        }
    }
}

/// A statement for the storage engine: its text, and the values for its
/// placeholders in order.
#[derive(Debug, Clone, PartialEq, Eq)]
pub struct Statement {
    pub sql: String,
    pub params: Vec<SqlValue>,
}

/// A statement as plain data.
pub ghost struct StatementText {
    pub sql: Seq<char>,
    pub params: Seq<BoundValue>,
}

impl View for Statement {
    type V = StatementText;

    open spec fn view(&self) -> StatementText {
        StatementText { sql: self.sql@, params: self.params@.map_values(|v: SqlValue| v@) }
    }
}

/// A statement without placeholders.
pub open spec fn plain(sql: Seq<char>) -> StatementText {
    StatementText { sql, params: Seq::empty() }
}

impl Statement {
    /// A statement without placeholders.
    pub fn new(sql: &str) -> (s: Statement)
        ensures
            s@ == plain(sql@),
    {
        let s = Statement { sql: String::from_str(sql), params: Vec::new() };
        proof {
            assert(s@.params =~= Seq::empty());
        }
        s
    }

    /// The statement with one more value bound, after those already there.
    pub fn bind(self, value: SqlValue) -> (s: Statement)
        ensures
            s@ == (StatementText { sql: self@.sql, params: self@.params.push(value@) }),
    {
        let mut params = self.params;
        params.push(value);
        let s = Statement { sql: self.sql, params };
        proof {
            assert(s@.params =~= self@.params.push(value@));
        }
        s
    }
}

/// The words that make a table only where none of its name exists.
pub const CREATE_IF_ABSENT: &'static str = "CREATE TABLE IF NOT EXISTS ";

pub const CONTACTS_TABLE: &'static str =
    "contacts (id INTEGER PRIMARY KEY AUTOINCREMENT, name TEXT NOT NULL, status TEXT NOT NULL DEFAULT 'offline', category TEXT NOT NULL DEFAULT 'General', created_at TIMESTAMP DEFAULT CURRENT_TIMESTAMP)";

pub const MESSAGES_TABLE: &'static str =
    "messages (id INTEGER PRIMARY KEY AUTOINCREMENT, contact_id INTEGER NOT NULL, content TEXT NOT NULL, is_from_user BOOLEAN NOT NULL, timestamp TIMESTAMP DEFAULT CURRENT_TIMESTAMP, FOREIGN KEY (contact_id) REFERENCES contacts (id))";

pub const SETTINGS_TABLE: &'static str = "settings (key TEXT PRIMARY KEY, value TEXT NOT NULL)";

pub const COUNT_SETTINGS_SQL: &'static str = "SELECT COUNT(*) FROM settings";

pub const SEED_THEME_SQL: &'static str = "INSERT INTO settings (key, value) VALUES ('theme', 'light')";

pub const SEED_SOUND_SQL: &'static str =
    "INSERT INTO settings (key, value) VALUES ('notification_sound', 'on')";

/// The directory that holds the database, under the application's data
/// directory.
pub open spec fn database_dir_text(app_data_dir: Seq<char>) -> Seq<char> {
    app_data_dir + "/database"@
}

/// The address of the database: the one file `database/app.db` under the
/// application's data directory.
pub open spec fn database_url_text(app_data_dir: Seq<char>) -> Seq<char> {
    "sqlite://"@ + app_data_dir + "/database"@ + "/app.db"@
}

/// The statement that creates a table of the given definition unless a table
/// of that name exists.
pub open spec fn create_table(definition: Seq<char>) -> StatementText {
    plain(CREATE_IF_ABSENT@ + definition)
}

/// How far initialization has come.
#[derive(Debug, Clone, Copy, PartialEq, Eq, Structural)]
pub enum InitStage {
    Start,
    CreatingDirectory,
    CheckingDatabase,
    CreatingDatabase,
    Connecting,
    CreatingContacts,
    CreatingMessages,
    CreatingSettings,
    CountingSettings,
    SeedingTheme,
    SeedingSound,
    Ready,
    Failed,
}

/// What the outside reported of the action last asked for.
#[derive(Debug, Clone, PartialEq, Eq)]
pub enum InitEvent {
    /// Nothing was asked yet.
    Begin,
    /// The action succeeded and has nothing to report.
    Completed,
    /// Whether the database was found.
    Exists(bool),
    /// The number of rows counted.
    Count(i64),
    /// The action failed.
    Failed(AppError),
}

/// What initialization asks for next.
#[derive(Debug, Clone, PartialEq, Eq)]
pub enum InitAction {
    /// Create the directory of this path, with its parents.
    CreateDirectory(String),
    /// Report whether a database exists at this address.
    CheckDatabase(String),
    /// Create the database at this address.
    CreateDatabase(String),
    /// Open the shared pool at this address.
    Connect(String),
    /// Run the statement.
    Execute(Statement),
    /// Run the statement and report the count it yields.
    CountRows(Statement),
    /// Nothing more: hand out the pool.
    Finish,
    /// Give up with this error.
    Fail(AppError),
}

/// An action as plain data.
pub ghost enum InitActionText {
    CreateDirectory(Seq<char>),
    CheckDatabase(Seq<char>),
    CreateDatabase(Seq<char>),
    Connect(Seq<char>),
    Execute(StatementText),
    CountRows(StatementText),
    Finish,
    Fail(ErrorText),
}

impl View for InitAction {
    type V = InitActionText;

    open spec fn view(&self) -> InitActionText {
        match *self {
            InitAction::CreateDirectory(p) => InitActionText::CreateDirectory(p@),
            InitAction::CheckDatabase(u) => InitActionText::CheckDatabase(u@),
            InitAction::CreateDatabase(u) => InitActionText::CreateDatabase(u@),
            InitAction::Connect(u) => InitActionText::Connect(u@),
            InitAction::Execute(s) => InitActionText::Execute(s@),
            InitAction::CountRows(s) => InitActionText::CountRows(s@),
            InitAction::Finish => InitActionText::Finish,
            InitAction::Fail(e) => InitActionText::Fail(e@),
        }
    }
}

/// The stage reached, and the action to perform there.
#[derive(Debug, Clone, PartialEq, Eq)]
pub struct InitStep {
    pub stage: InitStage,
    pub action: InitAction,
}

/// The cause reported when an event does not answer the action asked for.
pub const OUT_OF_TURN: &'static str = "event does not answer the pending action";

/// The protocol of initialization. The directory is made, the database is
/// created only if it is not found (a failed lookup counts as not found),
/// the pool is opened, the three tables are created if absent, and the two
/// default settings are written only into an empty settings table. A failure
/// anywhere else ends the run with the error as reported.
pub open spec fn init_next(app_data_dir: Seq<char>, stage: InitStage, event: InitEvent) -> (
    InitStage,
    InitActionText,
) {
    let url = database_url_text(app_data_dir);
    match (stage, event) {
        (InitStage::Start, InitEvent::Begin) => (
            InitStage::CreatingDirectory,
            InitActionText::CreateDirectory(database_dir_text(app_data_dir)),
        ),
        (InitStage::CreatingDirectory, InitEvent::Completed) => (
            InitStage::CheckingDatabase,
            InitActionText::CheckDatabase(url),
        ),
        (InitStage::CheckingDatabase, InitEvent::Exists(found)) => if found {
            (InitStage::Connecting, InitActionText::Connect(url))
        } else {
            (InitStage::CreatingDatabase, InitActionText::CreateDatabase(url))
        },
        (InitStage::CheckingDatabase, InitEvent::Failed(_)) => (
            InitStage::CreatingDatabase,
            InitActionText::CreateDatabase(url),
        ),
        (InitStage::CreatingDatabase, InitEvent::Completed) => (
            InitStage::Connecting,
            InitActionText::Connect(url),
        ),
        (InitStage::Connecting, InitEvent::Completed) => (
            InitStage::CreatingContacts,
            InitActionText::Execute(create_table(CONTACTS_TABLE@)),
        ),
        (InitStage::CreatingContacts, InitEvent::Completed) => (
            InitStage::CreatingMessages,
            InitActionText::Execute(create_table(MESSAGES_TABLE@)),
        ),
        (InitStage::CreatingMessages, InitEvent::Completed) => (
            InitStage::CreatingSettings,
            InitActionText::Execute(create_table(SETTINGS_TABLE@)),
        ),
        (InitStage::CreatingSettings, InitEvent::Completed) => (
            InitStage::CountingSettings,
            InitActionText::CountRows(plain(COUNT_SETTINGS_SQL@)),
        ),
        (InitStage::CountingSettings, InitEvent::Count(n)) => if n == 0 {
            (InitStage::SeedingTheme, InitActionText::Execute(plain(SEED_THEME_SQL@)))
        } else {
            (InitStage::Ready, InitActionText::Finish)
        },
        (InitStage::SeedingTheme, InitEvent::Completed) => (
            InitStage::SeedingSound,
            InitActionText::Execute(plain(SEED_SOUND_SQL@)),
        ),
        (InitStage::SeedingSound, InitEvent::Completed) => (InitStage::Ready, InitActionText::Finish),
        (_, InitEvent::Failed(e)) => (InitStage::Failed, InitActionText::Fail(e@)),
        _ => (InitStage::Failed, InitActionText::Fail(ErrorText::UnknownError(OUT_OF_TURN@))),
    }
}

/// The address at which the shared pool is opened. Initialization connects
/// to this same address, so no second database can come to exist.
pub fn get_pool(app_data_dir: &str) -> (url: String)
    ensures
        url@ == database_url_text(app_data_dir@),
{
    String::from_str("sqlite://").concat(app_data_dir).concat("/database").concat("/app.db")
}

fn database_dir(app_data_dir: &str) -> (path: String)
    ensures
        path@ == database_dir_text(app_data_dir@),
{
    String::from_str(app_data_dir).concat("/database")
}

fn out_of_turn() -> (step: InitStep)
    ensures
        step.stage == InitStage::Failed,
        step.action@ == InitActionText::Fail(ErrorText::UnknownError(OUT_OF_TURN@)),
{
    InitStep {
        stage: InitStage::Failed,
        action: InitAction::Fail(AppError::UnknownError(String::from_str(OUT_OF_TURN))),
    }
}

fn execute(stage: InitStage, sql: &str) -> (step: InitStep)
    ensures
        step.stage == stage,
        step.action@ == InitActionText::Execute(plain(sql@)),
{
    InitStep { stage, action: InitAction::Execute(Statement::new(sql)) }
}

fn create(stage: InitStage, definition: &str) -> (step: InitStep)
    ensures
        step.stage == stage,
        step.action@ == InitActionText::Execute(create_table(definition@)),
{
    let sql = String::from_str(CREATE_IF_ABSENT).concat(definition);
    InitStep { stage, action: InitAction::Execute(Statement::new(sql.as_str())) }
}

/// One step of initialization: from the stage reached and the report of the
/// last action, the next stage and the action to perform.
pub fn init_database(app_data_dir: &str, stage: InitStage, event: InitEvent) -> (step: InitStep)
    ensures
        step.stage == init_next(app_data_dir@, stage, event).0,
        step.action@ == init_next(app_data_dir@, stage, event).1,
{
    match (stage, event) {
        (InitStage::Start, InitEvent::Begin) => InitStep {
            stage: InitStage::CreatingDirectory,
            action: InitAction::CreateDirectory(database_dir(app_data_dir)),
        },
        (InitStage::CreatingDirectory, InitEvent::Completed) => InitStep {
            stage: InitStage::CheckingDatabase,
            action: InitAction::CheckDatabase(get_pool(app_data_dir)),
        },
        (InitStage::CheckingDatabase, InitEvent::Exists(found)) => {
            if found {
                InitStep { stage: InitStage::Connecting, action: InitAction::Connect(get_pool(app_data_dir)) }
            } else {
                InitStep {
                    stage: InitStage::CreatingDatabase,
                    action: InitAction::CreateDatabase(get_pool(app_data_dir)),
                }
            }
        },
        (InitStage::CheckingDatabase, InitEvent::Failed(_)) => InitStep {
            stage: InitStage::CreatingDatabase,
            action: InitAction::CreateDatabase(get_pool(app_data_dir)),
        },
        (InitStage::CreatingDatabase, InitEvent::Completed) => InitStep {
            stage: InitStage::Connecting,
            action: InitAction::Connect(get_pool(app_data_dir)),
        },
        (InitStage::Connecting, InitEvent::Completed) => create(InitStage::CreatingContacts, CONTACTS_TABLE),
        (InitStage::CreatingContacts, InitEvent::Completed) => create(
            InitStage::CreatingMessages,
            MESSAGES_TABLE,
        ),
        (InitStage::CreatingMessages, InitEvent::Completed) => create(
            InitStage::CreatingSettings,
            SETTINGS_TABLE,
        ),
        (InitStage::CreatingSettings, InitEvent::Completed) => InitStep {
            stage: InitStage::CountingSettings,
            action: InitAction::CountRows(Statement::new(COUNT_SETTINGS_SQL)),
        },
        (InitStage::CountingSettings, InitEvent::Count(n)) => {
            if n == 0 {
                execute(InitStage::SeedingTheme, SEED_THEME_SQL)
            } else {
                InitStep { stage: InitStage::Ready, action: InitAction::Finish }
            }
        },
        (InitStage::SeedingTheme, InitEvent::Completed) => execute(InitStage::SeedingSound, SEED_SOUND_SQL),
        (InitStage::SeedingSound, InitEvent::Completed) => InitStep {
            stage: InitStage::Ready,
            action: InitAction::Finish,
        },
        (_, InitEvent::Failed(e)) => InitStep { stage: InitStage::Failed, action: InitAction::Fail(e) },
        _ => out_of_turn(),
    }
}

/// Initialization never writes the default settings into a settings table
/// that holds rows already: the first default is asked for only when the
/// count came back zero, and the second only once the first was written.
pub proof fn seeding_needs_empty_settings(app_data_dir: Seq<char>, stage: InitStage, event: InitEvent)
    ensures
        init_next(app_data_dir, stage, event).0 == InitStage::SeedingTheme ==> stage
            == InitStage::CountingSettings && event == InitEvent::Count(0),
        init_next(app_data_dir, stage, event).0 == InitStage::SeedingSound ==> stage
            == InitStage::SeedingTheme && event == InitEvent::Completed,
        stage == InitStage::CountingSettings && (event matches InitEvent::Count(n) && n != 0)
            ==> init_next(app_data_dir, stage, event) == (InitStage::Ready, InitActionText::Finish),
{
}

/// Initialization creates the database only where the lookup did not find
/// one, and otherwise connects to the address that `get_pool` gives.
pub proof fn database_created_only_when_absent(app_data_dir: Seq<char>, stage: InitStage, event: InitEvent)
    ensures
        init_next(app_data_dir, stage, event).0 == InitStage::CreatingDatabase ==> stage
            == InitStage::CheckingDatabase && event != InitEvent::Exists(true),
        init_next(app_data_dir, stage, event).0 == InitStage::Connecting ==> init_next(
            app_data_dir,
            stage,
            event,
        ).1 == InitActionText::Connect(database_url_text(app_data_dir)),
{
}

/// Initialization knows one address only: whatever it looks up, creates or
/// connects to is the database at the address that `get_pool` gives.
pub proof fn init_uses_the_address_of_the_pool(
    app_data_dir: Seq<char>,
    stage: InitStage,
    event: InitEvent,
    url: Seq<char>,
)
    requires
        ({
            let action = init_next(app_data_dir, stage, event).1;
            action == InitActionText::CheckDatabase(url) || action == InitActionText::CreateDatabase(url)
                || action == InitActionText::Connect(url)
        }),
    ensures
        url == database_url_text(app_data_dir),
{
}

/// A second run over an initialized database changes nothing: with the
/// database found and a settings table that is not empty, the run from start
/// to finish asks only to make the directory, to look the database up, to
/// connect, to create the three tables if absent, and to count.
pub proof fn rerun_changes_nothing(app_data_dir: Seq<char>, count: i64)
    requires
        count != 0,
    ensures
        ({
            let d = app_data_dir;
            let s1 = init_next(d, InitStage::Start, InitEvent::Begin);
            let s2 = init_next(d, s1.0, InitEvent::Completed);
            let s3 = init_next(d, s2.0, InitEvent::Exists(true));
            let s4 = init_next(d, s3.0, InitEvent::Completed);
            let s5 = init_next(d, s4.0, InitEvent::Completed);
            let s6 = init_next(d, s5.0, InitEvent::Completed);
            let s7 = init_next(d, s6.0, InitEvent::Completed);
            let s8 = init_next(d, s7.0, InitEvent::Count(count));
            &&& s1.1 == InitActionText::CreateDirectory(database_dir_text(d))
            &&& s2.1 == InitActionText::CheckDatabase(database_url_text(d))
            &&& s3.1 == InitActionText::Connect(database_url_text(d))
            &&& s4.1 == InitActionText::Execute(create_table(CONTACTS_TABLE@))
            &&& s5.1 == InitActionText::Execute(create_table(MESSAGES_TABLE@))
            &&& s6.1 == InitActionText::Execute(create_table(SETTINGS_TABLE@))
            &&& s7.1 == InitActionText::CountRows(plain(COUNT_SETTINGS_SQL@))
            &&& s8 == (InitStage::Ready, InitActionText::Finish)
        }),
{
}

/// A first run creates and seeds: with no database found and an empty
/// settings table, the run also creates the database, and it writes the two
/// default settings, the theme first, before it finishes.
pub proof fn first_run_creates_and_seeds(app_data_dir: Seq<char>)
    ensures
        ({
            let d = app_data_dir;
            let s1 = init_next(d, InitStage::Start, InitEvent::Begin);
            let s2 = init_next(d, s1.0, InitEvent::Completed);
            let s3 = init_next(d, s2.0, InitEvent::Exists(false));
            let s4 = init_next(d, s3.0, InitEvent::Completed);
            let s5 = init_next(d, s4.0, InitEvent::Completed);
            let s6 = init_next(d, s5.0, InitEvent::Completed);
            let s7 = init_next(d, s6.0, InitEvent::Completed);
            let s8 = init_next(d, s7.0, InitEvent::Completed);
            let s9 = init_next(d, s8.0, InitEvent::Count(0));
            let s10 = init_next(d, s9.0, InitEvent::Completed);
            let s11 = init_next(d, s10.0, InitEvent::Completed);
            &&& s3.1 == InitActionText::CreateDatabase(database_url_text(d))
            &&& s4.1 == InitActionText::Connect(database_url_text(d))
            &&& s8.1 == InitActionText::CountRows(plain(COUNT_SETTINGS_SQL@))
            &&& s9.1 == InitActionText::Execute(plain(SEED_THEME_SQL@))
            &&& s10.1 == InitActionText::Execute(plain(SEED_SOUND_SQL@))
            &&& s11 == (InitStage::Ready, InitActionText::Finish)
        }),
{
}

/// Whatever initialization runs against the database either creates a table
/// on condition that it is absent, or writes one of the two default
/// settings: no step drops, alters or overwrites anything.
pub proof fn init_only_creates_if_absent_or_seeds(
    app_data_dir: Seq<char>,
    stage: InitStage,
    event: InitEvent,
    statement: StatementText,
)
    requires
        init_next(app_data_dir, stage, event).1 == InitActionText::Execute(statement),
    ensures
        statement == create_table(CONTACTS_TABLE@) || statement == create_table(MESSAGES_TABLE@) || statement
            == create_table(SETTINGS_TABLE@) || statement == plain(SEED_THEME_SQL@) || statement == plain(
            SEED_SOUND_SQL@,
        ),
{
}

/// A failure that is reported anywhere but at the lookup of the database
/// ends initialization with that same error.
pub proof fn init_failure_is_passed_on(app_data_dir: Seq<char>, stage: InitStage, e: AppError)
    requires
        stage != InitStage::CheckingDatabase,
    ensures
        init_next(app_data_dir, stage, InitEvent::Failed(e)) == (InitStage::Failed, InitActionText::Fail(e@)),
{
}

} // verus!
