use messaging_core::db::{get_pool, init_database, InitAction, InitEvent, InitStage, InitStep, Statement};
use messaging_core::error::AppError;

const DIR: &str = "/var/lib/messenger";
const URL: &str = "sqlite:///var/lib/messenger/database/app.db";

fn statement(sql: &str) -> Statement {
    Statement { sql: sql.to_string(), params: vec![] }
}

fn step(stage: InitStage, action: InitAction) -> InitStep {
    InitStep { stage, action }
}

#[test]
fn pool_address_is_under_the_data_directory() {
    assert_eq!(get_pool(DIR), URL);
    assert_eq!(get_pool(""), "sqlite:///database/app.db");
}

#[test]
fn init_makes_the_directory_first() {
    assert_eq!(
        init_database(DIR, InitStage::Start, InitEvent::Begin),
        step(InitStage::CreatingDirectory, InitAction::CreateDirectory("/var/lib/messenger/database".to_string()))
    );
}

#[test]
fn init_looks_the_database_up() {
    assert_eq!(
        init_database(DIR, InitStage::CreatingDirectory, InitEvent::Completed),
        step(InitStage::CheckingDatabase, InitAction::CheckDatabase(URL.to_string()))
    );
}

#[test]
fn init_creates_the_database_only_when_absent() {
    assert_eq!(
        init_database(DIR, InitStage::CheckingDatabase, InitEvent::Exists(false)),
        step(InitStage::CreatingDatabase, InitAction::CreateDatabase(URL.to_string()))
    );
    assert_eq!(
        init_database(DIR, InitStage::CheckingDatabase, InitEvent::Exists(true)),
        step(InitStage::Connecting, InitAction::Connect(URL.to_string()))
    );
}

#[test]
fn init_takes_a_failed_lookup_as_absent() {
    assert_eq!(
        init_database(
            DIR,
            InitStage::CheckingDatabase,
            InitEvent::Failed(AppError::DatabaseError("unable to open".to_string()))
        ),
        step(InitStage::CreatingDatabase, InitAction::CreateDatabase(URL.to_string()))
    );
}

#[test]
fn init_connects_to_the_address_of_the_pool() {
    assert_eq!(
        init_database(DIR, InitStage::CreatingDatabase, InitEvent::Completed),
        step(InitStage::Connecting, InitAction::Connect(get_pool(DIR)))
    );
}

#[test]
fn init_creates_the_three_tables_in_order() {
    assert_eq!(
        init_database(DIR, InitStage::Connecting, InitEvent::Completed),
        step(
            InitStage::CreatingContacts,
            InitAction::Execute(statement(
                "CREATE TABLE IF NOT EXISTS contacts (id INTEGER PRIMARY KEY AUTOINCREMENT, name TEXT NOT NULL, status TEXT NOT NULL DEFAULT 'offline', category TEXT NOT NULL DEFAULT 'General', created_at TIMESTAMP DEFAULT CURRENT_TIMESTAMP)"
            ))
        )
    );
    assert_eq!(
        init_database(DIR, InitStage::CreatingContacts, InitEvent::Completed),
        step(
            InitStage::CreatingMessages,
            InitAction::Execute(statement(
                "CREATE TABLE IF NOT EXISTS messages (id INTEGER PRIMARY KEY AUTOINCREMENT, contact_id INTEGER NOT NULL, content TEXT NOT NULL, is_from_user BOOLEAN NOT NULL, timestamp TIMESTAMP DEFAULT CURRENT_TIMESTAMP, FOREIGN KEY (contact_id) REFERENCES contacts (id))"
            ))
        )
    );
    assert_eq!(
        init_database(DIR, InitStage::CreatingMessages, InitEvent::Completed),
        step(
            InitStage::CreatingSettings,
            InitAction::Execute(statement(
                "CREATE TABLE IF NOT EXISTS settings (key TEXT PRIMARY KEY, value TEXT NOT NULL)"
            ))
        )
    );
}

#[test]
fn init_counts_the_settings() {
    assert_eq!(
        init_database(DIR, InitStage::CreatingSettings, InitEvent::Completed),
        step(InitStage::CountingSettings, InitAction::CountRows(statement("SELECT COUNT(*) FROM settings")))
    );
}

#[test]
fn init_seeds_an_empty_settings_table() {
    assert_eq!(
        init_database(DIR, InitStage::CountingSettings, InitEvent::Count(0)),
        step(
            InitStage::SeedingTheme,
            InitAction::Execute(statement("INSERT INTO settings (key, value) VALUES ('theme', 'light')"))
        )
    );
    assert_eq!(
        init_database(DIR, InitStage::SeedingTheme, InitEvent::Completed),
        step(
            InitStage::SeedingSound,
            InitAction::Execute(statement(
                "INSERT INTO settings (key, value) VALUES ('notification_sound', 'on')"
            ))
        )
    );
    assert_eq!(
        init_database(DIR, InitStage::SeedingSound, InitEvent::Completed),
        step(InitStage::Ready, InitAction::Finish)
    );
}

#[test]
fn init_leaves_existing_settings_alone() {
    for count in [1, 2, 17, -1, i64::MAX] {
        assert_eq!(
            init_database(DIR, InitStage::CountingSettings, InitEvent::Count(count)),
            step(InitStage::Ready, InitAction::Finish)
        );
    }
}

#[test]
fn init_passes_a_failure_on_unchanged() {
    let stages = [
        InitStage::Start,
        InitStage::CreatingDirectory,
        InitStage::CreatingDatabase,
        InitStage::Connecting,
        InitStage::CreatingContacts,
        InitStage::CreatingMessages,
        InitStage::CreatingSettings,
        InitStage::CountingSettings,
        InitStage::SeedingTheme,
        InitStage::SeedingSound,
        InitStage::Ready,
        InitStage::Failed,
    ];
    for stage in stages {
        let e = AppError::IoError("disk full".to_string());
        assert_eq!(
            init_database(DIR, stage, InitEvent::Failed(e.clone())),
            step(InitStage::Failed, InitAction::Fail(e))
        );
    }
}

#[test]
fn init_refuses_an_event_out_of_turn() {
    let out_of_turn = step(
        InitStage::Failed,
        InitAction::Fail(AppError::UnknownError("event does not answer the pending action".to_string())),
    );
    assert_eq!(init_database(DIR, InitStage::Start, InitEvent::Completed), out_of_turn);
    assert_eq!(init_database(DIR, InitStage::CreatingDirectory, InitEvent::Count(0)), out_of_turn);
    assert_eq!(init_database(DIR, InitStage::CheckingDatabase, InitEvent::Completed), out_of_turn);
    assert_eq!(init_database(DIR, InitStage::CountingSettings, InitEvent::Exists(true)), out_of_turn);
    assert_eq!(init_database(DIR, InitStage::Ready, InitEvent::Begin), out_of_turn);
    assert_eq!(init_database(DIR, InitStage::Failed, InitEvent::Completed), out_of_turn);
}
