//! The messages that drive the state machine: intents read from input,
//! and the outcomes of database work delivered back to it.
use crate::gateway::{error_text, Connection};
use crate::results::{columns_agree, readable, records_of, table_of, DbError, ResultSet};
use vstd::prelude::*;

verus! {

pub enum Message {
    /// No change and no further dispatch.
    NoOp,
    /// End the session.
    Quit,
    /// Enter the mode behind the focused home panel.
    SelectMode,
    /// Leave the current mode for home.
    Escape,
    /// Move the home focus to the next panel.
    FocusNext,
    /// Browse the filesystem for a database file.
    OpenFileBrowser,
    /// Edit the configuration.
    EditConfig,
    /// Close the open connection.
    Disconnect,
    /// Replace the text of the query being edited.
    SetQuery(String),
    /// Send the query being edited to the database.
    RunQuery,
    /// Open the database file at the given path.
    ConnectTo(String),
    /// A statement returned these rows.
    QuerySucceeded(ResultSet),
    /// A statement could not be run.
    QueryFailed(DbError),
    /// A database file was opened.
    ConnectSucceeded(Connection),
    /// A database file could not be opened.
    ConnectFailed(DbError),
}

impl Message {
    /// The outcomes of database work. Only these are ever emitted as follow-ups.
    pub open spec fn is_outcome(self) -> bool {
        ||| self is QuerySucceeded
        ||| self is QueryFailed
        ||| self is ConnectSucceeded
        ||| self is ConnectFailed
    }

    /// The message that delivers what the gateway got from running a statement:
    /// its rows as a result set, or the failure, whether of the statement or of
    /// reading a row.
    pub fn from_query_outcome(outcome: Result<Vec<sqlx::sqlite::SqliteRow>, sqlx::Error>) -> (r: Message)
        ensures
            r is QuerySucceeded || r is QueryFailed,
            outcome is Err ==> r matches Message::QueryFailed(DbError::QueryFailure(_)),
            r matches Message::QueryFailed(e) ==> e is QueryFailure,
            outcome matches Ok(rows) ==> (readable(rows@) && columns_agree(records_of(rows@)) ==> (
            r matches Message::QuerySucceeded(rs) && rs@ == table_of(records_of(rows@)))),
            outcome matches Ok(rows) ==> (r is QueryFailed ==> !readable(rows@) || !columns_agree(
                records_of(rows@),
            )),
            r matches Message::QuerySucceeded(rs) ==> (outcome matches Ok(rows) && rs@ == table_of(
                records_of(rows@),
            ) && rs@.well_formed()),
    {
        match outcome {
            Ok(rows) => match ResultSet::from_sqlite_rows(&rows) {
                Ok(rs) => Message::QuerySucceeded(rs),
                Err(e) => Message::QueryFailed(e),
            },
            Err(e) => Message::QueryFailed(DbError::from_driver(&e)),
        }
    }

    /// The message that delivers what the gateway got from opening a database
    /// file: the connection, or the driver's reason for the failure.
    pub fn from_connect_outcome(outcome: Result<Connection, sqlx::Error>) -> (r: Message)
        ensures
            match outcome {
                Ok(c) => r == Message::ConnectSucceeded(c),
                Err(_) => r matches Message::ConnectFailed(DbError::ConnectionFailure(_)),
            },
    {
        match outcome {
            Ok(c) => Message::ConnectSucceeded(c),
            Err(e) => Message::ConnectFailed(DbError::ConnectionFailure(error_text(&e))),
        }
    }
}

} // verus!
