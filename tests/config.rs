use dbview::config::{database_url, Config, StartingDb, SEED_SQL};

#[test]
fn in_memory_flag_wins() {
    let c = Config::new(Some("x.db".to_string()), true);
    assert!(matches!(c.starting_db, StartingDb::InMemoryWithSeedData));
}

#[test]
fn file_flag_gives_file_policy() {
    let c = Config::new(Some("x.db".to_string()), false);
    match c.starting_db {
        StartingDb::FromFile(f) => assert_eq!(f, "x.db"),
        _ => panic!("expected a file policy"),
    }
}

#[test]
fn no_flags_give_no_database() {
    let c = Config::new(None, false);
    assert!(matches!(c.starting_db, StartingDb::NoDatabase));
    assert!(c.starting_db.target().is_none());
}

#[test]
fn targets_of_policies() {
    let t = StartingDb::InMemoryWithSeedData.target().unwrap();
    assert_eq!(t.url, "sqlite::memory:");
    assert!(t.seed);
    let t = StartingDb::FromFile("/data/app.db".to_string()).target().unwrap();
    assert_eq!(t.url, "sqlite:///data/app.db");
    assert!(!t.seed);
}

#[test]
fn file_urls() {
    assert_eq!(database_url("db.sqlite"), "sqlite://db.sqlite");
    assert_eq!(database_url(""), "sqlite://");
}

#[test]
fn seed_creates_alice() {
    assert!(SEED_SQL.contains("CREATE TABLE users"));
    assert!(SEED_SQL.contains("'Alice', 'temp@email.com'"));
}
