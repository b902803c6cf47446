use messaging_core::commands::{
    contacts_query, get_contacts, get_messages, send_message, thread_query, Contact, Message, SendAction,
    SendEvent, SendStage,
};
use messaging_core::db::{init_database, InitAction, InitEvent, InitStage, SqlValue, Statement};
use messaging_core::error::AppError;
use sqlx::sqlite::{SqlitePool, SqlitePoolOptions, SqliteQueryResult, SqliteRow};
use sqlx::Row;

async fn open() -> SqlitePool {
    SqlitePoolOptions::new().max_connections(1).connect("sqlite::memory:").await.unwrap()
}

async fn execute(pool: &SqlitePool, statement: &Statement) -> Result<SqliteQueryResult, sqlx::Error> {
    let mut query = sqlx::query(&statement.sql);
    for value in &statement.params {
        query = match value {
            SqlValue::Integer(n) => query.bind(*n),
            SqlValue::Text(t) => query.bind(t.clone()),
        };
    }
    query.execute(pool).await
}

async fn fetch(pool: &SqlitePool, statement: &Statement) -> Result<Vec<SqliteRow>, sqlx::Error> {
    let mut query = sqlx::query(&statement.sql);
    for value in &statement.params {
        query = match value {
            SqlValue::Integer(n) => query.bind(*n),
            SqlValue::Text(t) => query.bind(t.clone()),
        };
    }
    query.fetch_all(pool).await
}

fn message(row: &SqliteRow) -> Message {
    Message {
        id: row.get("id"),
        contact_id: row.get("contact_id"),
        content: row.get("content"),
        is_from_user: row.get("is_from_user"),
        timestamp: row.get::<time::OffsetDateTime, _>("timestamp").unix_timestamp(),
    }
}

fn contact(row: &SqliteRow) -> Contact {
    Contact { id: row.get("id"), name: row.get("name"), status: row.get("status"), category: row.get("category") }
}

/// Runs initialization on an open pool; the directory and the database file
/// are taken as present.
async fn initialize(pool: &SqlitePool) -> Result<Vec<InitAction>, AppError> {
    let mut asked = Vec::new();
    let mut step = init_database("/data", InitStage::Start, InitEvent::Begin);
    loop {
        asked.push(step.action.clone());
        let event = match &step.action {
            InitAction::CreateDirectory(_) => InitEvent::Completed,
            InitAction::CheckDatabase(_) => InitEvent::Exists(true),
            InitAction::CreateDatabase(_) => InitEvent::Completed,
            InitAction::Connect(_) => InitEvent::Completed,
            InitAction::Execute(s) => match execute(pool, s).await {
                Ok(_) => InitEvent::Completed,
                Err(e) => InitEvent::Failed(AppError::from(e)),
            },
            InitAction::CountRows(s) => match fetch(pool, s).await {
                Ok(rows) => InitEvent::Count(rows[0].get::<i64, _>(0)),
                Err(e) => InitEvent::Failed(AppError::from(e)),
            },
            InitAction::Finish => return Ok(asked),
            InitAction::Fail(e) => return Err(e.clone()),
        };
        step = init_database("/data", step.stage, event);
    }
}

async fn send(pool: &SqlitePool, contact_id: i64, content: &str) -> Result<Message, AppError> {
    let mut step = send_message(contact_id, content.to_string(), SendStage::Start, SendEvent::Begin);
    loop {
        let event = match &step.action {
            SendAction::Insert(s) => match execute(pool, s).await {
                Ok(done) => SendEvent::Inserted(done.last_insert_rowid()),
                Err(e) => SendEvent::Failed(AppError::from(e)),
            },
            SendAction::Fetch(s) => match fetch(pool, s).await {
                Ok(rows) if rows.len() == 1 => SendEvent::Row(message(&rows[0])),
                Ok(_) => SendEvent::Failed(AppError::from(sqlx::Error::RowNotFound)),
                Err(e) => SendEvent::Failed(AppError::from(e)),
            },
            SendAction::Return(m) => return Ok(m.clone()),
            SendAction::Fail(e) => return Err(e.clone()),
        };
        step = send_message(contact_id, content.to_string(), step.stage, event);
    }
}

async fn thread(pool: &SqlitePool, contact_id: i64) -> Vec<Message> {
    get_messages(contact_id, fetch(pool, &thread_query(contact_id)).await.unwrap().iter().map(message).collect())
}

async fn contacts(pool: &SqlitePool) -> Vec<Contact> {
    get_contacts(fetch(pool, &contacts_query()).await.unwrap().iter().map(contact).collect())
}

async fn add_contact(pool: &SqlitePool, name: &str, category: &str) -> i64 {
    let statement = Statement::new("INSERT INTO contacts (name, category) VALUES (?, ?)")
        .bind(SqlValue::Text(name.to_string()))
        .bind(SqlValue::Text(category.to_string()));
    execute(pool, &statement).await.unwrap().last_insert_rowid()
}

async fn settings(pool: &SqlitePool) -> Vec<(String, String)> {
    let rows = fetch(pool, &Statement::new("SELECT key, value FROM settings ORDER BY key")).await.unwrap();
    rows.iter().map(|r| (r.get(0), r.get(1))).collect()
}

async fn schema(pool: &SqlitePool) -> Vec<(String, String)> {
    let statement = Statement::new("SELECT name, sql FROM sqlite_master WHERE type = 'table' ORDER BY name");
    let rows = fetch(pool, &statement).await.unwrap();
    rows.iter().map(|r| (r.get(0), r.get(1))).collect()
}

fn runtime() -> tokio::runtime::Runtime {
    tokio::runtime::Runtime::new().unwrap()
}

#[test]
fn first_initialization_seeds_the_two_settings() {
    runtime().block_on(async {
        let pool = open().await;
        let asked = initialize(&pool).await.unwrap();
        assert_eq!(asked.len(), 10);
        assert_eq!(
            settings(&pool).await,
            vec![
                ("notification_sound".to_string(), "on".to_string()),
                ("theme".to_string(), "light".to_string()),
            ]
        );
    });
}

#[test]
fn second_initialization_changes_nothing() {
    runtime().block_on(async {
        let pool = open().await;
        initialize(&pool).await.unwrap();
        let schema_before = schema(&pool).await;
        let settings_before = settings(&pool).await;
        let asked = initialize(&pool).await.unwrap();
        assert_eq!(asked.len(), 8);
        assert_eq!(schema(&pool).await, schema_before);
        assert_eq!(settings(&pool).await, settings_before);
        assert_eq!(settings_before.len(), 2);
        let names: Vec<String> = schema_before.into_iter().map(|t| t.0).collect();
        assert!(names.contains(&"contacts".to_string()));
        assert!(names.contains(&"messages".to_string()));
        assert!(names.contains(&"settings".to_string()));
    });
}

#[test]
fn initialization_keeps_settings_that_were_changed() {
    runtime().block_on(async {
        let pool = open().await;
        initialize(&pool).await.unwrap();
        execute(&pool, &Statement::new("DELETE FROM settings WHERE key = 'theme'")).await.unwrap();
        initialize(&pool).await.unwrap();
        assert_eq!(settings(&pool).await, vec![("notification_sound".to_string(), "on".to_string())]);
    });
}

#[test]
fn contacts_come_by_category_then_name() {
    runtime().block_on(async {
        let pool = open().await;
        initialize(&pool).await.unwrap();
        add_contact(&pool, "Bob", "Work").await;
        add_contact(&pool, "Amy", "Work").await;
        add_contact(&pool, "Zed", "General").await;
        let listed: Vec<(String, String)> =
            contacts(&pool).await.into_iter().map(|c| (c.name, c.category)).collect();
        assert_eq!(
            listed,
            vec![
                ("Zed".to_string(), "General".to_string()),
                ("Amy".to_string(), "Work".to_string()),
                ("Bob".to_string(), "Work".to_string()),
            ]
        );
    });
}

#[test]
fn engine_and_library_agree_on_the_order_of_contacts() {
    runtime().block_on(async {
        let pool = open().await;
        initialize(&pool).await.unwrap();
        for (name, category) in [("bob", "work"), ("Bob", "Work"), ("amy", "Work"), ("Zed", ""), ("Émile", "Work")] {
            add_contact(&pool, name, category).await;
        }
        let read: Vec<Contact> = fetch(&pool, &contacts_query()).await.unwrap().iter().map(contact).collect();
        assert_eq!(get_contacts(read.clone()), read);
        let names: Vec<&str> = read.iter().map(|c| c.name.as_str()).collect();
        assert_eq!(names, vec!["Zed", "Bob", "amy", "Émile", "bob"]);
    });
}

#[test]
fn contact_defaults_are_offline_and_general() {
    runtime().block_on(async {
        let pool = open().await;
        initialize(&pool).await.unwrap();
        execute(&pool, &Statement::new("INSERT INTO contacts (name) VALUES ('Eve')")).await.unwrap();
        let listed = contacts(&pool).await;
        assert_eq!(listed.len(), 1);
        let eve = &listed[0];
        assert_eq!(eve.name, "Eve");
        assert_eq!(eve.status, "offline");
        assert_eq!(eve.category, "General");
    });
}

#[test]
fn sent_messages_are_listed_in_order() {
    runtime().block_on(async {
        let pool = open().await;
        initialize(&pool).await.unwrap();
        let amy = add_contact(&pool, "Amy", "Work").await;
        let bob = add_contact(&pool, "Bob", "Work").await;
        let texts = ["first", "", "third", "first"];
        let mut sent = Vec::new();
        for text in texts {
            let m = send(&pool, amy, text).await.unwrap();
            assert_eq!(m.contact_id, amy);
            assert_eq!(m.content, text);
            assert!(m.is_from_user);
            sent.push(m);
        }
        send(&pool, bob, "elsewhere").await.unwrap();
        let listed = thread(&pool, amy).await;
        assert_eq!(listed, sent);
        for pair in listed.windows(2) {
            assert!(pair[0].timestamp <= pair[1].timestamp);
            assert!(pair[0].id < pair[1].id);
        }
        assert_eq!(thread(&pool, bob).await.len(), 1);
    });
}

#[test]
fn thread_of_unknown_contact_is_empty() {
    runtime().block_on(async {
        let pool = open().await;
        initialize(&pool).await.unwrap();
        assert_eq!(thread(&pool, 99).await, vec![]);
        let amy = add_contact(&pool, "Amy", "Work").await;
        assert_eq!(thread(&pool, amy).await, vec![]);
    });
}

#[test]
fn send_to_unknown_contact_fails_and_stores_nothing() {
    runtime().block_on(async {
        let pool = open().await;
        initialize(&pool).await.unwrap();
        let failure = send(&pool, 99, "lost").await.unwrap_err();
        assert!(matches!(failure, AppError::DatabaseError(_)));
        assert!(failure.message().starts_with("Database error: "));
        assert_eq!(thread(&pool, 99).await, vec![]);
        let rows = fetch(&pool, &Statement::new("SELECT COUNT(*) FROM messages")).await.unwrap();
        assert_eq!(rows[0].get::<i64, _>(0), 0);
    });
}

#[test]
fn concurrent_sends_lose_nothing_and_share_no_id() {
    runtime().block_on(async {
        let pool = open().await;
        initialize(&pool).await.unwrap();
        let amy = add_contact(&pool, "Amy", "Work").await;
        let mut tasks = Vec::new();
        for n in 0..16 {
            let pool = pool.clone();
            tasks.push(tokio::spawn(async move { send(&pool, amy, &format!("message {}", n)).await.unwrap() }));
        }
        let mut sent = Vec::new();
        for task in tasks {
            sent.push(task.await.unwrap());
        }
        let mut ids: Vec<i64> = sent.iter().map(|m| m.id).collect();
        ids.sort();
        ids.dedup();
        assert_eq!(ids.len(), 16);
        let listed = thread(&pool, amy).await;
        assert_eq!(listed.len(), 16);
        for m in &sent {
            assert!(listed.contains(m));
        }
    });
}
