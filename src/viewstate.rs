//! The message-driven state machine: turning input into messages, applying
//! a message to the current state, and draining the follow-ups it produces.
use crate::message::Message;
use crate::model::{
    home_mode, next_focus, App, AppView, BrowseSqliteDBFiles, Component, ConfigEditor, EditQuery,
    ExploreConnection, ExploreResults, Home, Mode, QueryHistoryView, Quit, Request,
};
use crate::results::DbError;
use vstd::prelude::*;

verus! {

/// A key press, as far as the modes tell keys apart.
#[derive(Clone, Copy, PartialEq, Eq, Structural, Debug)]
pub enum Key {
    Char(char),
    Enter,
    Esc,
    Tab,
    Other,
}

/// Raw input, after the widgets that own part of the screen have taken what is theirs.
pub enum Input {
    Key(Key),
    /// The lines of the query editor after an edit.
    QueryText(Vec<String>),
    /// The file under the browser's cursor was confirmed.
    FileChosen(String),
    /// Anything else: a resize, the mouse.
    Other,
}

/// What the main loop receives, in one ordered stream.
pub enum MainEvent {
    Input(Input),
    /// The periodic timer fired.
    Tick,
    /// Database work finished; its outcome.
    Resolved(Message),
}

/// Which screen layout draws the current mode.
#[derive(Clone, Copy, PartialEq, Eq, Structural, Debug)]
pub enum UiState {
    /// The query editor above the result table.
    Query,
    /// The file browser.
    Explorer,
}

/// The editor's lines as one query text, joined by single spaces.
pub open spec fn joined(lines: Seq<Seq<char>>) -> Seq<char>
    decreases lines.len(),
{
    if lines.len() == 0 {
        Seq::empty()
    } else if lines.len() == 1 {
        lines[0]
    } else {
        joined(lines.drop_last()) + seq![' '] + lines.last()
    }
}

pub fn join_lines(lines: &Vec<String>) -> (r: String)
    ensures
        r@ == joined(lines.deep_view()),
{
    let mut text = String::new();
    let mut i: usize = 0;
    while i < lines.len()
        invariant
            i <= lines.len(),
            text@ == joined(lines.deep_view().take(i as int)),
        decreases lines.len() - i,
    {
        let ghost before = text@;
        if i > 0 {
            text.append(" ");
        }
        text.append(lines[i].as_str());
        i = i + 1;
        proof {
            reveal_strlit(" ");
            let taken = lines.deep_view().take(i as int);
            assert(taken.drop_last() =~= lines.deep_view().take(i - 1));
            assert(taken.last() == lines@[i - 1]@);
            if i == 1 {
                assert(text@ =~= joined(taken));
            } else {
                assert(text@ =~= before + seq![' '] + lines@[i - 1]@);
            }
        }
    }
    proof {
        assert(lines.deep_view().take(i as int) =~= lines.deep_view());
    }
    text
}

/// The message that a key press means in a mode.
pub open spec fn key_message(mode: Mode, key: Key) -> Message {
    match mode {
        Mode::Quit(_) => Message::Quit,
        Mode::Home(_) => match key {
            Key::Char('q') => Message::Quit,
            Key::Enter => Message::SelectMode,
            Key::Tab => Message::FocusNext,
            Key::Char('o') => Message::OpenFileBrowser,
            Key::Char('c') => Message::EditConfig,
            _ => Message::NoOp,
        },
        Mode::EditQuery(_) => match key {
            Key::Esc => Message::Escape,
            Key::Tab => Message::RunQuery,
            _ => Message::NoOp,
        },
        Mode::BrowseSqliteDBFiles(_) => match key {
            Key::Esc => Message::Escape,
            _ => Message::NoOp,
        },
        Mode::ExploreConnection(_) => match key {
            Key::Char('q') | Key::Esc => Message::Escape,
            Key::Char('d') => Message::Disconnect,
            _ => Message::NoOp,
        },
        Mode::ExploreResults(_) | Mode::ConfigEditor(_) => match key {
            Key::Char('q') | Key::Esc => Message::Escape,
            _ => Message::NoOp,
        },
    }
}

/// `r` is what `input` means in `mode`: a key as `key_message` says, the
/// editor's lines as their joined text, a confirmed file as a request to open it.
pub open spec fn input_means(mode: Mode, input: Input, r: Message) -> bool {
    match input {
        Input::Key(k) => r == key_message(mode, k),
        Input::QueryText(lines) => match mode {
            Mode::Quit(_) => r is Quit,
            Mode::EditQuery(_) => r matches Message::SetQuery(t) && t@ == joined(lines.deep_view()),
            _ => r is NoOp,
        },
        Input::FileChosen(p) => match mode {
            Mode::Quit(_) => r is Quit,
            Mode::BrowseSqliteDBFiles(_) => r == Message::ConnectTo(p),
            _ => r is NoOp,
        },
        Input::Other => if mode is Quit {
            r is Quit
        } else {
            r is NoOp
        },
    }
}

/// The messages that a mode acts on; every other message leaves it as it is.
pub open spec fn claims(mode: Mode, m: Message) -> bool {
    match mode {
        Mode::Quit(_) => false,
        _ => match m {
            Message::NoOp => false,
            Message::Quit | Message::QuerySucceeded(_) | Message::QueryFailed(_) => true,
            Message::SelectMode | Message::FocusNext | Message::OpenFileBrowser
            | Message::EditConfig => mode is Home,
            Message::Escape => !(mode is Home),
            Message::SetQuery(_) | Message::RunQuery => mode is EditQuery,
            Message::ConnectTo(_) | Message::ConnectSucceeded(_) | Message::ConnectFailed(_) => {
                mode is BrowseSqliteDBFiles
            },
            Message::Disconnect => mode is ExploreConnection,
        },
    }
}

/// The state machine: the session, the last failure to show, and the work
/// waiting to be handed to the database gateway.
pub struct ViewState {
    pub app: App,
    pub status: Option<DbError>,
    pub pending: Option<Request>,
}

pub struct ViewStateView {
    pub app: AppView,
    pub status: Option<DbError>,
    pub pending: Option<Request>,
}

impl View for ViewState {
    type V = ViewStateView;

    open spec fn view(&self) -> ViewStateView {
        ViewStateView { app: self.app@, status: self.status, pending: self.pending }
    }
}

impl ViewStateView {
    pub open spec fn in_mode(self, mode: Mode) -> ViewStateView {
        ViewStateView { app: self.app.with_mode(mode), ..self }
    }
}

/// One transition: the next state and the follow-up message, if any.
pub open spec fn step(s: ViewStateView, m: Message) -> (ViewStateView, Option<Message>) {
    let mode = s.app.mode;
    let unchanged = (s, Option::<Message>::None);
    if mode is Quit {
        unchanged
    } else {
        match m {
            Message::NoOp => unchanged,
            Message::Quit => (s.in_mode(Mode::Quit(Quit)), Option::None),
            Message::QuerySucceeded(rs) => (
                ViewStateView { app: AppView { results: rs, ..s.app }, status: Option::None, ..s },
                Option::None,
            ),
            Message::QueryFailed(e) => (ViewStateView { status: Option::Some(e), ..s }, Option::None),
            Message::SelectMode => match mode {
                Mode::Home(h) => match h.selected {
                    Component::Nothing => unchanged,
                    Component::Connections => (
                        s.in_mode(Mode::ExploreConnection(ExploreConnection)),
                        Option::None,
                    ),
                    Component::Results => (
                        s.in_mode(Mode::ExploreResults(ExploreResults)),
                        Option::None,
                    ),
                    Component::Queries => (s.in_mode(Mode::EditQuery(EditQuery)), Option::None),
                },
                _ => unchanged,
            },
            Message::FocusNext => match mode {
                Mode::Home(h) => (
                    s.in_mode(Mode::Home(Home { selected: next_focus(h.selected) })),
                    Option::None,
                ),
                _ => unchanged,
            },
            Message::OpenFileBrowser => if mode is Home {
                (s.in_mode(Mode::BrowseSqliteDBFiles(BrowseSqliteDBFiles)), Option::None)
            } else {
                unchanged
            },
            Message::EditConfig => if mode is Home {
                (s.in_mode(Mode::ConfigEditor(ConfigEditor)), Option::None)
            } else {
                unchanged
            },
            Message::Escape => if mode is Home {
                unchanged
            } else {
                (s.in_mode(home_mode()), Option::None)
            },
            Message::SetQuery(t) => if mode is EditQuery {
                (
                    ViewStateView {
                        app: AppView {
                            queries: QueryHistoryView { current: t, ..s.app.queries },
                            ..s.app
                        },
                        ..s
                    },
                    Option::None,
                )
            } else {
                unchanged
            },
            Message::RunQuery => if mode is EditQuery {
                match s.app.query_request() {
                    Ok(req) => (
                        ViewStateView {
                            app: s.app.record_current(),
                            pending: Option::Some(req),
                            ..s
                        },
                        Option::None,
                    ),
                    Err(e) => (s, Option::Some(Message::QueryFailed(e))),
                }
            } else {
                unchanged
            },
            Message::ConnectTo(p) => if mode is BrowseSqliteDBFiles {
                (
                    ViewStateView { pending: Option::Some(Request::Connect { path: p }), ..s },
                    Option::None,
                )
            } else {
                unchanged
            },
            Message::ConnectSucceeded(c) => if mode is BrowseSqliteDBFiles {
                (
                    ViewStateView {
                        app: AppView { mode: home_mode(), connection: Option::Some(c), ..s.app },
                        status: Option::None,
                        ..s
                    },
                    Option::None,
                )
            } else {
                unchanged
            },
            Message::ConnectFailed(e) => if mode is BrowseSqliteDBFiles {
                (
                    ViewStateView {
                        app: AppView { mode: home_mode(), connection: Option::None, ..s.app },
                        status: Option::Some(e),
                        ..s
                    },
                    Option::None,
                )
            } else {
                unchanged
            },
            Message::Disconnect => if mode is ExploreConnection {
                (
                    ViewStateView { app: AppView { connection: Option::None, ..s.app }, ..s },
                    Option::None,
                )
            } else {
                unchanged
            },
        }
    }
}

/// How far a message is from the end of its chain: an outcome is handled
/// without a follow-up, and any other message has at most an outcome as one.
pub open spec fn rank(m: Option<Message>) -> nat {
    match m {
        Option::None => 0,
        Option::Some(m) => if m.is_outcome() {
            1
        } else {
            2
        },
    }
}

/// A follow-up is always an outcome, answering a message that is not one.
pub proof fn lemma_followup_is_outcome(s: ViewStateView, m: Message)
    ensures
        step(s, m).1 matches Option::Some(f) ==> f.is_outcome() && !m.is_outcome(),
        rank(step(s, m).1) < rank(Option::Some(m)),
{
}

/// The state once `m` and every follow-up it leads to have been applied.
pub open spec fn settle(s: ViewStateView, m: Message) -> ViewStateView
    decreases rank(Option::Some(m)),
    via settle_decreases
{
    match step(s, m).1 {
        Option::Some(f) => settle(step(s, m).0, f),
        Option::None => step(s, m).0,
    }
}

#[via_fn]
proof fn settle_decreases(s: ViewStateView, m: Message) {
    lemma_followup_is_outcome(s, m);
}

/// `settle` from a message that may be absent.
pub open spec fn settle_from(s: ViewStateView, m: Option<Message>) -> ViewStateView {
    match m {
        Option::Some(m) => settle(s, m),
        Option::None => s,
    }
}

impl ViewState {
    /// The initial state: home, with no connection, no result and no history.
    pub fn new() -> (r: ViewState)
        ensures
            r.app.mode == home_mode(),
            r.app.connection is None,
            r.app.results@ is Empty,
            r.app.queries.current@ == Seq::<char>::empty(),
            r.app.queries.executed@ == Seq::<String>::empty(),
            r.status is None,
            r.pending is None,
    {
        ViewState::from_app(App::new(Option::None))
    }

    /// The state machine over a session, nothing failed and nothing pending.
    pub fn from_app(app: App) -> (r: ViewState)
        ensures
            r.app == app,
            r.status is None,
            r.pending is None,
    {
        ViewState { app, status: Option::None, pending: Option::None }
    }

    /// Whether the session is over: only in the terminal mode.
    pub fn should_quit(&self) -> (r: bool)
        ensures
            r == (self.app.mode is Quit),
    {
        match self.app.mode {
            Mode::Quit(_) => true,
            _ => false,
        }
    }

    /// The layout that draws the current mode.
    pub fn ui_state(&self) -> (r: UiState)
        ensures
            r == (if self.app.mode is BrowseSqliteDBFiles {
                UiState::Explorer
            } else {
                UiState::Query
            }),
    {
        match self.app.mode {
            Mode::BrowseSqliteDBFiles(_) => UiState::Explorer,
            _ => UiState::Query,
        }
    }

    /// Whether a key belongs to the widget of the current mode (the query
    /// editor, the file browser) rather than to the state machine.
    pub fn routes_to_widget(&self, key: Key) -> (r: bool)
        ensures
            r == match self.app.mode {
                Mode::EditQuery(_) => !(key is Esc || key is Tab),
                Mode::BrowseSqliteDBFiles(_) => !(key is Esc || key is Enter),
                _ => false,
            },
    {
        match self.app.mode {
            Mode::EditQuery(_) => match key {
                Key::Esc | Key::Tab => false,
                _ => true,
            },
            Mode::BrowseSqliteDBFiles(_) => match key {
                Key::Esc | Key::Enter => false,
                _ => true,
            },
            _ => false,
        }
    }

    /// The message that an input means in the current mode. Pure: it depends on
    /// the mode and the input alone.
    pub fn handle_input(&self, input: Input) -> (r: Message)
        ensures
            input_means(self.app.mode, input, r),
    {
        match self.app.mode {
            Mode::Quit(_) => Message::Quit,
            Mode::Home(_) => match input {
                Input::Key(Key::Char('q')) => Message::Quit,
                Input::Key(Key::Enter) => Message::SelectMode,
                Input::Key(Key::Tab) => Message::FocusNext,
                Input::Key(Key::Char('o')) => Message::OpenFileBrowser,
                Input::Key(Key::Char('c')) => Message::EditConfig,
                _ => Message::NoOp,
            },
            Mode::EditQuery(_) => match input {
                Input::Key(Key::Esc) => Message::Escape,
                Input::Key(Key::Tab) => Message::RunQuery,
                Input::QueryText(lines) => Message::SetQuery(join_lines(&lines)),
                _ => Message::NoOp,
            },
            Mode::BrowseSqliteDBFiles(_) => match input {
                Input::Key(Key::Esc) => Message::Escape,
                Input::FileChosen(path) => Message::ConnectTo(path),
                _ => Message::NoOp,
            },
            Mode::ExploreConnection(_) => match input {
                Input::Key(Key::Char('q')) | Input::Key(Key::Esc) => Message::Escape,
                Input::Key(Key::Char('d')) => Message::Disconnect,
                _ => Message::NoOp,
            },
            Mode::ExploreResults(_) | Mode::ConfigEditor(_) => match input {
                Input::Key(Key::Char('q')) | Input::Key(Key::Esc) => Message::Escape,
                _ => Message::NoOp,
            },
        }
    }

    /// The message that an event of the main loop means: the timer means
    /// nothing, and finished work is its outcome.
    pub fn handle_event(&self, event: MainEvent) -> (r: Message)
        ensures
            match event {
                MainEvent::Input(input) => input_means(self.app.mode, input, r),
                MainEvent::Tick => r is NoOp,
                MainEvent::Resolved(m) => r == m,
            },
    {
        match event {
            MainEvent::Input(input) => self.handle_input(input),
            MainEvent::Tick => Message::NoOp,
            MainEvent::Resolved(m) => m,
        }
    }

    /// Applies one message: the next state and the follow-up message, if any.
    pub fn update(self, message: Message) -> (r: (ViewState, Option<Message>))
        ensures
            (r.0@, r.1) == step(self@, message),
    {
        let ViewState { app, status, pending } = self;
        if let Mode::Quit(_) = app.mode {
            return (ViewState { app, status, pending }, Option::None);
        }
        match message {
            Message::NoOp => (ViewState { app, status, pending }, Option::None),
            Message::Quit => (ViewState { app: app.quit(), status, pending }, Option::None),
            Message::QuerySucceeded(rs) => (
                ViewState { app: app.add_results(rs), status: Option::None, pending },
                Option::None,
            ),
            Message::QueryFailed(e) => (
                ViewState { app, status: Option::Some(e), pending },
                Option::None,
            ),
            Message::SelectMode => match app.mode {
                Mode::Home(h) => match h.selected {
                    Component::Nothing => (ViewState { app, status, pending }, Option::None),
                    Component::Connections => (
                        ViewState { app: app.explore_connection(), status, pending },
                        Option::None,
                    ),
                    Component::Results => (
                        ViewState { app: app.explore_results(), status, pending },
                        Option::None,
                    ),
                    Component::Queries => (
                        ViewState { app: app.edit_query(), status, pending },
                        Option::None,
                    ),
                },
                _ => (ViewState { app, status, pending }, Option::None),
            },
            Message::FocusNext => match app.mode {
                Mode::Home(h) => (
                    ViewState {
                        app: App { mode: Mode::Home(Home { selected: h.selected.next() }), ..app },
                        status,
                        pending,
                    },
                    Option::None,
                ),
                _ => (ViewState { app, status, pending }, Option::None),
            },
            Message::OpenFileBrowser => match app.mode {
                Mode::Home(_) => (
                    ViewState { app: app.open_sqlite_db(), status, pending },
                    Option::None,
                ),
                _ => (ViewState { app, status, pending }, Option::None),
            },
            Message::EditConfig => match app.mode {
                Mode::Home(_) => (
                    ViewState { app: app.edit_config(), status, pending },
                    Option::None,
                ),
                _ => (ViewState { app, status, pending }, Option::None),
            },
            Message::Escape => match app.mode {
                Mode::Home(_) => (ViewState { app, status, pending }, Option::None),
                _ => (ViewState { app: app.cancel(), status, pending }, Option::None),
            },
            Message::SetQuery(text) => match app.mode {
                Mode::EditQuery(_) => (
                    ViewState { app: app.set_query(text), status, pending },
                    Option::None,
                ),
                _ => (ViewState { app, status, pending }, Option::None),
            },
            Message::RunQuery => match app.mode {
                Mode::EditQuery(_) => match app.query_request() {
                    Ok(req) => (
                        ViewState { app: app.record_current(), status, pending: Option::Some(req) },
                        Option::None,
                    ),
                    Err(e) => (
                        ViewState { app, status, pending },
                        Option::Some(Message::QueryFailed(e)),
                    ),
                },
                _ => (ViewState { app, status, pending }, Option::None),
            },
            Message::ConnectTo(path) => match app.mode {
                Mode::BrowseSqliteDBFiles(_) => (
                    ViewState { app, status, pending: Option::Some(Request::Connect { path }) },
                    Option::None,
                ),
                _ => (ViewState { app, status, pending }, Option::None),
            },
            Message::ConnectSucceeded(c) => match app.mode {
                Mode::BrowseSqliteDBFiles(_) => (
                    ViewState {
                        app: app.connected_to(Option::Some(c)),
                        status: Option::None,
                        pending,
                    },
                    Option::None,
                ),
                _ => (ViewState { app, status, pending }, Option::None),
            },
            Message::ConnectFailed(e) => match app.mode {
                Mode::BrowseSqliteDBFiles(_) => (
                    ViewState {
                        app: app.connected_to(Option::None),
                        status: Option::Some(e),
                        pending,
                    },
                    Option::None,
                ),
                _ => (ViewState { app, status, pending }, Option::None),
            },
            Message::Disconnect => match app.mode {
                Mode::ExploreConnection(_) => (
                    ViewState { app: app.disconnect(), status, pending },
                    Option::None,
                ),
                _ => (ViewState { app, status, pending }, Option::None),
            },
        }
    }

    /// Applies a message and then each follow-up it leads to, until none is
    /// left. The chain is finite: see `rank`.
    pub fn dispatch(self, message: Message) -> (r: ViewState)
        ensures
            r@ == settle(self@, message),
            step(self@, message).1 is None ==> r@ == step(self@, message).0,
            step(self@, message).1 matches Option::Some(f) ==> r@ == step(
                step(self@, message).0,
                f,
            ).0,
    {
        proof {
            lemma_followup_is_outcome(self@, message);
            if let Option::Some(f) = step(self@, message).1 {
                lemma_followup_is_outcome(step(self@, message).0, f);
                assert(settle(step(self@, message).0, f) == step(step(self@, message).0, f).0);
            }
        }
        let ghost goal = settle(self@, message);
        let mut state = self;
        let mut followup = Option::Some(message);
        loop
            invariant_except_break
                settle_from(state@, followup) == goal,
            ensures
                state@ == goal,
            decreases rank(followup),
        {
            match followup {
                Option::None => {
                    break;
                },
                Option::Some(m) => {
                    proof {
                        lemma_followup_is_outcome(state@, m);
                    }
                    let (next, f) = state.update(m);
                    state = next;
                    followup = f;
                },
            }
        }
        state
    }

    /// Hands the waiting work to the caller, leaving none.
    pub fn take_request(&mut self) -> (r: Option<Request>)
        ensures
            r == old(self).pending,
            final(self)@ == (ViewStateView { pending: Option::None, ..old(self)@ }),
    {
        let r = self.pending.take();
        r
    }
}

} // verus!
