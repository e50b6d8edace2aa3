//! The session data that the modes hand to one another, and the mode tag that
//! travels with it.
use crate::gateway::Connection;
use crate::results::{DbError, ResultSet};
use vstd::prelude::*;

verus! {

/// The panel of the home screen that has the focus.
#[derive(Clone, Copy, PartialEq, Eq, Structural, Debug)]
pub enum Component {
    Nothing,
    Connections,
    Results,
    Queries,
}

/// The panel that takes the focus after `c`: connections, results, queries, and round again.
pub open spec fn next_focus(c: Component) -> Component {
    match c {
        Component::Nothing => Component::Connections,
        Component::Connections => Component::Results,
        Component::Results => Component::Queries,
        Component::Queries => Component::Connections,
    }
}

impl Component {
    pub fn next(self) -> (r: Component)
        ensures
            r == next_focus(self),
    {
        match self {
            Component::Nothing => Component::Connections,
            Component::Connections => Component::Results,
            Component::Results => Component::Queries,
            Component::Queries => Component::Connections,
        }
    }
}

/// The overview of the session; the focused panel decides where selecting leads.
#[derive(Clone, Copy, PartialEq, Eq, Structural, Debug)]
pub struct Home {
    pub selected: Component,
}

/// Editing the current query and sending it to the database.
#[derive(Clone, Copy, PartialEq, Eq, Structural, Debug)]
pub struct EditQuery;

/// Browsing the filesystem for a database file to open.
#[derive(Clone, Copy, PartialEq, Eq, Structural, Debug)]
pub struct BrowseSqliteDBFiles;

/// Looking through the last result set.
#[derive(Clone, Copy, PartialEq, Eq, Structural, Debug)]
pub struct ExploreResults;

/// Inspecting the open connection.
#[derive(Clone, Copy, PartialEq, Eq, Structural, Debug)]
pub struct ExploreConnection;

/// Editing the configuration.
#[derive(Clone, Copy, PartialEq, Eq, Structural, Debug)]
pub struct ConfigEditor;

/// The terminal mode: the session is over.
#[derive(Clone, Copy, PartialEq, Eq, Structural, Debug)]
pub struct Quit;

/// The mode tag, with what is particular to each mode.
#[derive(Clone, Copy, PartialEq, Eq, Structural, Debug)]
pub enum Mode {
    Home(Home),
    EditQuery(EditQuery),
    BrowseSqliteDBFiles(BrowseSqliteDBFiles),
    ExploreResults(ExploreResults),
    ExploreConnection(ExploreConnection),
    ConfigEditor(ConfigEditor),
    Quit(Quit),
}

/// Home with no panel focused, the mode that every return home lands in.
pub open spec fn home_mode() -> Mode {
    Mode::Home(Home { selected: Component::Nothing })
}

/// The text being edited and the queries sent so far, oldest first.
pub struct QueryHistory {
    pub current: String,
    pub executed: Vec<String>,
}

pub struct QueryHistoryView {
    pub current: String,
    pub executed: Seq<String>,
}

impl View for QueryHistory {
    type V = QueryHistoryView;

    open spec fn view(&self) -> QueryHistoryView {
        QueryHistoryView { current: self.current, executed: self.executed@ }
    }
}

impl QueryHistory {
    /// No text and nothing sent.
    pub fn new() -> (r: QueryHistory)
        ensures
            r.current@ == Seq::<char>::empty(),
            r.executed@ == Seq::<String>::empty(),
    {
        QueryHistory { current: String::new(), executed: Vec::new() }
    }
}

/// Work that the state machine hands to the database gateway. Its outcome comes
/// back as a message.
pub enum Request {
    /// Run `query` on `connection`.
    Execute { connection: Connection, query: String },
    /// Open the database file at `path`.
    Connect { path: String },
}

/// The session: the mode tag beside the one copy of the session data.
pub struct App {
    pub mode: Mode,
    pub connection: Option<Connection>,
    pub results: ResultSet,
    pub queries: QueryHistory,
}

pub struct AppView {
    pub mode: Mode,
    pub connection: Option<Connection>,
    pub results: ResultSet,
    pub queries: QueryHistoryView,
}

impl View for App {
    type V = AppView;

    open spec fn view(&self) -> AppView {
        AppView {
            mode: self.mode,
            connection: self.connection,
            results: self.results,
            queries: self.queries@,
        }
    }
}

impl AppView {
    pub open spec fn with_mode(self, mode: Mode) -> AppView {
        AppView { mode, ..self }
    }

    /// The same session data, whatever the mode.
    pub open spec fn same_session(self, other: AppView) -> bool {
        &&& self.connection == other.connection
        &&& self.results == other.results
        &&& self.queries == other.queries
    }

    /// The request that running the current query makes, or why there is none.
    pub open spec fn query_request(self) -> Result<Request, DbError> {
        match self.connection {
            Option::Some(c) => Ok(Request::Execute { connection: c, query: self.queries.current }),
            Option::None => Err(DbError::NoActiveConnection),
        }
    }

    /// The session after the current query was sent: it joins the history.
    pub open spec fn record_current(self) -> AppView {
        AppView {
            queries: QueryHistoryView {
                executed: self.queries.executed.push(self.queries.current),
                ..self.queries
            },
            ..self
        }
    }
}

impl App {
    /// A session at home with the given startup connection, no result and no history.
    pub fn new(connection: Option<Connection>) -> (r: App)
        ensures
            r.mode == home_mode(),
            r.connection == connection,
            r.results@ is Empty,
            r.queries.current@ == Seq::<char>::empty(),
            r.queries.executed@ == Seq::<String>::empty(),
    {
        App { mode: Mode::Home(Home { selected: Component::Nothing }), connection, results: ResultSet::empty(), queries: QueryHistory::new() }
    }

    fn copy_app_with_new_mode(self, mode: Mode) -> (r: App)
        ensures
            r@ == self@.with_mode(mode),
    {
        App { mode, ..self }
    }

    /// Back home, with nothing focused.
    pub fn cancel(self) -> (r: App)
        ensures
            r@ == self@.with_mode(home_mode()),
    {
        self.copy_app_with_new_mode(Mode::Home(Home { selected: Component::Nothing }))
    }

    /// Into the terminal mode.
    pub fn quit(self) -> (r: App)
        ensures
            r@ == self@.with_mode(Mode::Quit(Quit)),
    {
        self.copy_app_with_new_mode(Mode::Quit(Quit))
    }

    pub fn edit_query(self) -> (r: App)
        requires
            self.mode is Home,
        ensures
            r@ == self@.with_mode(Mode::EditQuery(EditQuery)),
    {
        self.copy_app_with_new_mode(Mode::EditQuery(EditQuery))
    }

    pub fn open_sqlite_db(self) -> (r: App)
        requires
            self.mode is Home,
        ensures
            r@ == self@.with_mode(Mode::BrowseSqliteDBFiles(BrowseSqliteDBFiles)),
    {
        self.copy_app_with_new_mode(Mode::BrowseSqliteDBFiles(BrowseSqliteDBFiles))
    }

    pub fn explore_results(self) -> (r: App)
        requires
            self.mode is Home,
        ensures
            r@ == self@.with_mode(Mode::ExploreResults(ExploreResults)),
    {
        self.copy_app_with_new_mode(Mode::ExploreResults(ExploreResults))
    }

    pub fn explore_connection(self) -> (r: App)
        requires
            self.mode is Home,
        ensures
            r@ == self@.with_mode(Mode::ExploreConnection(ExploreConnection)),
    {
        self.copy_app_with_new_mode(Mode::ExploreConnection(ExploreConnection))
    }

    pub fn edit_config(self) -> (r: App)
        requires
            self.mode is Home,
        ensures
            r@ == self@.with_mode(Mode::ConfigEditor(ConfigEditor)),
    {
        self.copy_app_with_new_mode(Mode::ConfigEditor(ConfigEditor))
    }

    /// The same session with its result set replaced.
    pub fn add_results(self, results: ResultSet) -> (r: App)
        ensures
            r@ == (AppView { results, ..self@ }),
    {
        App { results, ..self }
    }

    /// Resolves a file browse: back home with the outcome of opening the file as
    /// the connection, the old one discarded. A failed open leaves no connection.
    pub fn connected_to(self, connection: Option<Connection>) -> (r: App)
        requires
            self.mode is BrowseSqliteDBFiles,
        ensures
            r@ == (AppView { mode: home_mode(), connection, ..self@ }),
    {
        App { mode: Mode::Home(Home { selected: Component::Nothing }), connection, ..self }
    }

    /// The same session without a connection; closing twice is closing once.
    pub fn disconnect(self) -> (r: App)
        ensures
            r@ == (AppView { connection: Option::None, ..self@ }),
    {
        App { connection: Option::None, ..self }
    }

    /// The same session with `text` as the query being edited.
    pub fn set_query(self, text: String) -> (r: App)
        ensures
            r@ == (AppView { queries: QueryHistoryView { current: text, ..self@.queries }, ..self@ }),
    {
        App { queries: QueryHistory { current: text, ..self.queries }, ..self }
    }

    /// What running the current query asks of the gateway: the query on the open
    /// connection, or `NoActiveConnection` when none is open.
    pub fn query_request(&self) -> (r: Result<Request, DbError>)
        ensures
            r == self@.query_request(),
    {
        match &self.connection {
            Option::Some(c) => Ok(Request::Execute { connection: c.share(), query: self.queries.current.clone() }),
            Option::None => Err(DbError::NoActiveConnection),
        }
    }

    /// The same session with the current query added to the history.
    pub fn record_current(self) -> (r: App)
        ensures
            r@ == self@.record_current(),
    {
        let mut queries = self.queries;
        let sent = queries.current.clone();
        queries.executed.push(sent);
        App { queries, ..self }
    }
}

} // verus!
