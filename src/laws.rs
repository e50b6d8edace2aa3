//! Properties of the state machine that hold for every state and message.
use crate::message::Message;
use crate::model::{home_mode, Component, Home, Mode, Request};
use crate::gateway::{cell_of, column_count_of, column_name_of};
use crate::results::{
    cell_text_of, columns_agree, names_of, readable, records_of, table_of, values_of, DbError,
    ResultSet, ResultSetView,
};
use crate::viewstate::{claims, settle, step, ViewStateView};
use vstd::prelude::*;

verus! {

/// A mode that does not act on a message returns itself, unchanged, with no follow-up.
pub proof fn lemma_unclaimed_message_is_ignored(s: ViewStateView, m: Message)
    requires
        !claims(s.app.mode, m),
    ensures
        step(s, m) == (s, Option::<Message>::None),
{
}

/// Leaving any mode but home and the terminal one with `Escape` lands at home
/// with the connection, the result set and the query history untouched.
pub proof fn lemma_escape_returns_home(s: ViewStateView)
    requires
        !(s.app.mode is Home),
        !(s.app.mode is Quit),
    ensures
        step(s, Message::Escape) == (s.in_mode(home_mode()), Option::<Message>::None),
        settle(s, Message::Escape).app.mode == home_mode(),
        settle(s, Message::Escape).app.same_session(s.app),
{
}

/// `Quit` from any mode reaches the terminal mode.
pub proof fn lemma_quit_reaches_terminal(s: ViewStateView)
    ensures
        settle(s, Message::Quit).app.mode is Quit,
{
}

/// Once in the terminal mode, every message leaves the state as it is.
pub proof fn lemma_terminal_mode_absorbs(s: ViewStateView, m: Message)
    requires
        s.app.mode is Quit,
    ensures
        step(s, m) == (s, Option::<Message>::None),
        settle(s, m) == s,
{
}

/// A failed attempt to open a database file leaves no connection.
pub proof fn lemma_failed_connect_leaves_no_connection(s: ViewStateView, e: DbError)
    requires
        s.app.mode is BrowseSqliteDBFiles,
    ensures
        settle(s, Message::ConnectFailed(e)).app.connection is None,
        settle(s, Message::ConnectFailed(e)).status == Option::Some(e),
{
}

/// Only a successful open brings a connection where there was none.
pub proof fn lemma_only_connect_success_opens(s: ViewStateView, m: Message)
    requires
        s.app.connection is None,
        !(m is ConnectSucceeded),
    ensures
        step(s, m).0.app.connection is None,
{
}

/// Running a query without a connection fails with `NoActiveConnection`; the
/// result set is not replaced, by an empty one or any other.
pub proof fn lemma_query_without_connection_fails(s: ViewStateView)
    requires
        s.app.mode is EditQuery,
        s.app.connection is None,
    ensures
        step(s, Message::RunQuery) == (
            s,
            Option::Some(Message::QueryFailed(DbError::NoActiveConnection)),
        ),
        settle(s, Message::RunQuery) == (ViewStateView {
            status: Option::Some(DbError::NoActiveConnection),
            ..s
        }),
{
    let failed = Message::QueryFailed(DbError::NoActiveConnection);
    assert(settle(s, failed) == step(s, failed).0);
}

/// Running a query, taking its rows, leaving for home, coming back to the
/// editor and running the same text again asks the gateway for the same work
/// again: the same text on the same connection.
pub proof fn lemma_resubmission_repeats_request(s: ViewStateView, rows: ResultSet)
    requires
        s.app.mode is EditQuery,
        s.app.connection is Some,
    ensures
        ({
            let sent = settle(s, Message::RunQuery);
            let answered = settle(sent, Message::QuerySucceeded(rows));
            let home = settle(answered, Message::Escape);
            let focused = settle(
                settle(settle(home, Message::FocusNext), Message::FocusNext),
                Message::FocusNext,
            );
            let editing = settle(focused, Message::SelectMode);
            let resent = settle(editing, Message::RunQuery);
            &&& sent.pending == Option::Some(
                Request::Execute { connection: s.app.connection->0, query: s.app.queries.current },
            )
            &&& answered.app.results == rows
            &&& editing.app.mode is EditQuery
            &&& editing.app.results == rows
            &&& resent.pending == sent.pending
            &&& resent.app.queries.executed == s.app.queries.executed.push(
                s.app.queries.current,
            ).push(s.app.queries.current)
        }),
{
    let sent = settle(s, Message::RunQuery);
    let answered = settle(sent, Message::QuerySucceeded(rows));
    let home = settle(answered, Message::Escape);
    assert(home.app.mode == Mode::Home(Home { selected: Component::Nothing }));
}

/// A follow-up is an outcome, and an outcome is handled without a further
/// follow-up: the chain that one event starts has at most two steps.
pub proof fn lemma_followup_chain_is_short(s: ViewStateView, m: Message)
    ensures
        step(s, m).1 matches Option::Some(f) ==> f.is_outcome() && step(step(s, m).0, f).1 is None,
{
}

/// A single fetched row with a single readable column (what `SELECT 1` returns)
/// makes a result set of one row of one column.
pub proof fn lemma_one_cell_result(row: sqlx::sqlite::SqliteRow)
    requires
        column_count_of(row) == 1,
        cell_of(row, 0) is Some,
    ensures
        readable(seq![row]),
        columns_agree(records_of(seq![row])),
        table_of(records_of(seq![row])) == (ResultSetView::Populated {
            column_names: seq![column_name_of(row, 0)],
            rows: seq![seq![cell_text_of(row, 0)]],
        }),
{
    let recs = records_of(seq![row]);
    assert(cell_of(row, (0int) as usize) is Some);
    assert(readable(seq![row]));
    assert(recs[0] =~= seq![(column_name_of(row, 0), cell_text_of(row, 0))]);
    assert(values_of(recs[0]) =~= seq![cell_text_of(row, 0)]);
    assert(names_of(recs[0]) =~= seq![column_name_of(row, 0)]);
    assert(table_of(recs)->rows =~= seq![seq![cell_text_of(row, 0)]]);
    assert(table_of(recs)->column_names =~= seq![column_name_of(row, 0)]);
}

/// Rows that hold the same column names and the same values, in the same
/// order, make the same result set, and fail or succeed alike.
pub proof fn lemma_same_rows_same_result(
    a: Seq<sqlx::sqlite::SqliteRow>,
    b: Seq<sqlx::sqlite::SqliteRow>,
)
    requires
        records_of(a) == records_of(b),
    ensures
        columns_agree(records_of(a)) == columns_agree(records_of(b)),
        table_of(records_of(a)) == table_of(records_of(b)),
{
}

} // verus!
