//! Startup configuration: which database, if any, the session opens first.
use vstd::prelude::*;

verus! {

/// The startup policy.
pub enum StartingDb {
    /// Start without a database.
    NoDatabase,
    /// Start on a fresh in-memory database seeded with demonstration data.
    InMemoryWithSeedData,
    /// Start on the database file at the given path.
    FromFile(String),
}

pub struct Config {
    pub starting_db: StartingDb,
}

/// What a startup policy asks the database gateway to open.
pub struct ConnectTarget {
    /// The connection string handed to the driver.
    pub url: String,
    /// Whether the demonstration schema and rows are created after opening.
    pub seed: bool,
}

/// The connection string for an in-memory database.
pub const IN_MEMORY_URL: &'static str = "sqlite::memory:";

/// The scheme prefix of a connection string for a database file.
pub const FILE_URL_PREFIX: &'static str = "sqlite://";

/// The demonstration schema and its single row, run on a seeded in-memory database.
pub const SEED_SQL: &'static str = "CREATE TABLE users (id INTEGER PRIMARY KEY, name TEXT NOT NULL, email TEXT NOT NULL UNIQUE); INSERT INTO users (name, email) VALUES ('Alice', 'temp@email.com')";

/// The connection string for the database file at `path`, as a sequence of characters.
pub open spec fn file_url(path: Seq<char>) -> Seq<char> {
    FILE_URL_PREFIX@ + path
}

/// The connection string for the database file at `path`.
pub fn database_url(path: &str) -> (r: String)
    ensures
        r@ == file_url(path@),
{
    let prefix = String::from_str(FILE_URL_PREFIX);
    prefix.concat(path)
}

impl Config {
    /// The policy chosen by the command line: the in-memory flag wins over a file path.
    pub fn new(db_file: Option<String>, in_memory: bool) -> (r: Config)
        ensures
            in_memory ==> r.starting_db is InMemoryWithSeedData,
            !in_memory ==> match db_file {
                Option::Some(f) => r.starting_db == StartingDb::FromFile(f),
                Option::None => r.starting_db is NoDatabase,
            },
    {
        let starting_db = if in_memory {
            StartingDb::InMemoryWithSeedData
        } else {
            match db_file {
                Option::Some(file) => StartingDb::FromFile(file),
                Option::None => StartingDb::NoDatabase,
            }
        };
        Config { starting_db }
    }
}

impl StartingDb {
    /// What the policy asks the gateway to open: nothing, the seeded in-memory
    /// database, or the given file.
    pub fn target(&self) -> (r: Option<ConnectTarget>)
        ensures
            match *self {
                StartingDb::NoDatabase => r is None,
                StartingDb::InMemoryWithSeedData => r matches Option::Some(t) && t.url@
                    == IN_MEMORY_URL@ && t.seed,
                StartingDb::FromFile(f) => r matches Option::Some(t) && t.url@ == file_url(f@)
                    && !t.seed,
            },
    {
        match self {
            StartingDb::NoDatabase => Option::None,
            StartingDb::InMemoryWithSeedData => Option::Some(
                ConnectTarget { url: String::from_str(IN_MEMORY_URL), seed: true },
            ),
            StartingDb::FromFile(file) => Option::Some(
                ConnectTarget { url: database_url(file.as_str()), seed: false },
            ),
        }
    }
}

} // verus!
