use dbview::message::Message;
use dbview::model::{
    App, BrowseSqliteDBFiles, Component, ConfigEditor, EditQuery, ExploreConnection,
    ExploreResults, Home, Mode, Quit, Request,
};
use dbview::results::DbError;
use dbview::viewstate::{join_lines, Input, Key, MainEvent, UiState, ViewState};

fn home(selected: Component) -> Mode {
    Mode::Home(Home { selected })
}

fn state_in(mode: Mode) -> ViewState {
    let mut app = App::new(None);
    app.mode = mode;
    app.queries.current = "SELECT 1".to_string();
    app.queries.executed = vec!["SELECT 2".to_string()];
    ViewState::from_app(app)
}

fn all_modes() -> Vec<Mode> {
    vec![
        home(Component::Nothing),
        home(Component::Connections),
        home(Component::Results),
        home(Component::Queries),
        Mode::EditQuery(EditQuery),
        Mode::BrowseSqliteDBFiles(BrowseSqliteDBFiles),
        Mode::ExploreResults(ExploreResults),
        Mode::ExploreConnection(ExploreConnection),
        Mode::ConfigEditor(ConfigEditor),
        Mode::Quit(Quit),
    ]
}

#[test]
fn new_state_is_home_without_session_data() {
    let s = ViewState::new();
    assert_eq!(s.app.mode, home(Component::Nothing));
    assert!(s.app.connection.is_none());
    assert!(!s.app.results.is_populated());
    assert_eq!(s.app.queries.current, "");
    assert!(s.app.queries.executed.is_empty());
    assert!(s.status.is_none());
    assert!(s.pending.is_none());
    assert!(!s.should_quit());
}

#[test]
fn select_query_panel_then_escape_keeps_history() {
    let s = state_in(home(Component::Queries));
    let s = s.dispatch(Message::SelectMode);
    assert_eq!(s.app.mode, Mode::EditQuery(EditQuery));
    let s = s.dispatch(Message::Escape);
    assert_eq!(s.app.mode, home(Component::Nothing));
    assert_eq!(s.app.queries.current, "SELECT 1");
    assert_eq!(s.app.queries.executed, vec!["SELECT 2".to_string()]);
    assert!(s.pending.is_none());
}

#[test]
fn select_mode_follows_focus() {
    let cases = [
        (Component::Nothing, home(Component::Nothing)),
        (Component::Connections, Mode::ExploreConnection(ExploreConnection)),
        (Component::Results, Mode::ExploreResults(ExploreResults)),
        (Component::Queries, Mode::EditQuery(EditQuery)),
    ];
    for (focus, expected) in cases {
        let (s, f) = state_in(home(focus)).update(Message::SelectMode);
        assert_eq!(s.app.mode, expected);
        assert!(f.is_none());
    }
}

#[test]
fn focus_cycles_through_panels() {
    let mut s = ViewState::new();
    let mut seen = Vec::new();
    for _ in 0..4 {
        s = s.dispatch(Message::FocusNext);
        seen.push(s.app.mode);
    }
    assert_eq!(
        seen,
        vec![
            home(Component::Connections),
            home(Component::Results),
            home(Component::Queries),
            home(Component::Connections),
        ]
    );
}

#[test]
fn escape_from_auxiliary_modes_returns_home_unchanged() {
    for mode in [
        Mode::EditQuery(EditQuery),
        Mode::BrowseSqliteDBFiles(BrowseSqliteDBFiles),
        Mode::ExploreResults(ExploreResults),
        Mode::ExploreConnection(ExploreConnection),
        Mode::ConfigEditor(ConfigEditor),
    ] {
        let (s, f) = state_in(mode).update(Message::Escape);
        assert_eq!(s.app.mode, home(Component::Nothing));
        assert!(f.is_none());
        assert!(s.app.connection.is_none());
        assert!(!s.app.results.is_populated());
        assert_eq!(s.app.queries.current, "SELECT 1");
        assert_eq!(s.app.queries.executed, vec!["SELECT 2".to_string()]);
    }
}

#[test]
fn escape_at_home_is_ignored() {
    let (s, f) = state_in(home(Component::Results)).update(Message::Escape);
    assert_eq!(s.app.mode, home(Component::Results));
    assert!(f.is_none());
}

#[test]
fn quit_from_every_mode_is_terminal() {
    for mode in all_modes() {
        let s = state_in(mode).dispatch(Message::Quit);
        assert!(s.should_quit());
        assert_eq!(s.app.mode, Mode::Quit(Quit));
        let s = s.dispatch(Message::Escape);
        assert!(s.should_quit());
        let s = s.dispatch(Message::SelectMode);
        assert!(s.should_quit());
        let (s, f) = s.update(Message::Quit);
        assert!(s.should_quit());
        assert!(f.is_none());
    }
}

#[test]
fn unclaimed_messages_leave_modes_unchanged() {
    let unclaimed: Vec<(Mode, Vec<Message>)> = vec![
        (
            home(Component::Queries),
            vec![
                Message::NoOp,
                Message::Escape,
                Message::RunQuery,
                Message::SetQuery("x".to_string()),
                Message::ConnectTo("f.db".to_string()),
                Message::Disconnect,
            ],
        ),
        (
            Mode::EditQuery(EditQuery),
            vec![Message::NoOp, Message::SelectMode, Message::FocusNext, Message::ConnectTo("f.db".to_string())],
        ),
        (
            Mode::ExploreResults(ExploreResults),
            vec![Message::NoOp, Message::SelectMode, Message::RunQuery, Message::Disconnect],
        ),
        (
            Mode::ConfigEditor(ConfigEditor),
            vec![Message::NoOp, Message::OpenFileBrowser, Message::SetQuery("x".to_string())],
        ),
        (
            Mode::BrowseSqliteDBFiles(BrowseSqliteDBFiles),
            vec![Message::NoOp, Message::RunQuery, Message::EditConfig],
        ),
    ];
    for (mode, messages) in unclaimed {
        for m in messages {
            let (s, f) = state_in(mode).update(m);
            assert_eq!(s.app.mode, mode);
            assert!(f.is_none());
            assert_eq!(s.app.queries.current, "SELECT 1");
            assert_eq!(s.app.queries.executed, vec!["SELECT 2".to_string()]);
            assert!(s.status.is_none());
            assert!(s.pending.is_none());
        }
    }
}

#[test]
fn open_file_browser_and_edit_config_from_home() {
    let s = ViewState::new().dispatch(Message::OpenFileBrowser);
    assert_eq!(s.app.mode, Mode::BrowseSqliteDBFiles(BrowseSqliteDBFiles));
    assert_eq!(s.ui_state(), UiState::Explorer);
    let s = ViewState::new().dispatch(Message::EditConfig);
    assert_eq!(s.app.mode, Mode::ConfigEditor(ConfigEditor));
    assert_eq!(s.ui_state(), UiState::Query);
}

#[test]
fn run_query_without_connection_reports_no_active_connection() {
    let s = state_in(Mode::EditQuery(EditQuery));
    let (s1, f) = s.update(Message::RunQuery);
    assert!(matches!(f, Some(Message::QueryFailed(DbError::NoActiveConnection))));
    assert!(s1.pending.is_none());
    let s = s1.dispatch(Message::RunQuery);
    assert_eq!(s.app.mode, Mode::EditQuery(EditQuery));
    assert!(matches!(s.status, Some(DbError::NoActiveConnection)));
    assert!(!s.app.results.is_populated());
    assert_eq!(s.app.queries.executed, vec!["SELECT 2".to_string()]);
}

#[test]
fn set_query_replaces_current_text() {
    let s = state_in(Mode::EditQuery(EditQuery)).dispatch(Message::SetQuery("SELECT 3".to_string()));
    assert_eq!(s.app.queries.current, "SELECT 3");
    assert_eq!(s.app.queries.executed, vec!["SELECT 2".to_string()]);
}

#[test]
fn connect_to_in_browser_issues_request() {
    let mut s = state_in(Mode::BrowseSqliteDBFiles(BrowseSqliteDBFiles))
        .dispatch(Message::ConnectTo("/tmp/a.db".to_string()));
    assert_eq!(s.app.mode, Mode::BrowseSqliteDBFiles(BrowseSqliteDBFiles));
    match s.take_request() {
        Some(Request::Connect { path }) => assert_eq!(path, "/tmp/a.db"),
        _ => panic!("expected a connect request"),
    }
    assert!(s.pending.is_none());
    assert!(s.take_request().is_none());
}

#[test]
fn failed_connect_returns_home_without_connection() {
    let s = state_in(Mode::BrowseSqliteDBFiles(BrowseSqliteDBFiles))
        .dispatch(Message::ConnectFailed(DbError::ConnectionFailure("no such file".to_string())));
    assert_eq!(s.app.mode, home(Component::Nothing));
    assert!(s.app.connection.is_none());
    match &s.status {
        Some(DbError::ConnectionFailure(reason)) => assert_eq!(reason, "no such file"),
        _ => panic!("expected a connection failure"),
    }
}

#[test]
fn query_failure_keeps_results_and_mode() {
    let s = state_in(Mode::ExploreResults(ExploreResults))
        .dispatch(Message::QueryFailed(DbError::QueryFailure("syntax error".to_string())));
    assert_eq!(s.app.mode, Mode::ExploreResults(ExploreResults));
    assert!(!s.app.results.is_populated());
    assert!(matches!(s.status, Some(DbError::QueryFailure(_))));
}

#[test]
fn home_keys() {
    let s = ViewState::new();
    assert!(matches!(s.handle_input(Input::Key(Key::Char('q'))), Message::Quit));
    assert!(matches!(s.handle_input(Input::Key(Key::Enter)), Message::SelectMode));
    assert!(matches!(s.handle_input(Input::Key(Key::Tab)), Message::FocusNext));
    assert!(matches!(s.handle_input(Input::Key(Key::Char('o'))), Message::OpenFileBrowser));
    assert!(matches!(s.handle_input(Input::Key(Key::Char('c'))), Message::EditConfig));
    assert!(matches!(s.handle_input(Input::Key(Key::Char('x'))), Message::NoOp));
    assert!(matches!(s.handle_input(Input::Key(Key::Esc)), Message::NoOp));
    assert!(matches!(s.handle_input(Input::Other), Message::NoOp));
}

#[test]
fn editor_keys_and_text() {
    let s = state_in(Mode::EditQuery(EditQuery));
    assert!(matches!(s.handle_input(Input::Key(Key::Esc)), Message::Escape));
    assert!(matches!(s.handle_input(Input::Key(Key::Tab)), Message::RunQuery));
    assert!(matches!(s.handle_input(Input::Key(Key::Char('q'))), Message::NoOp));
    let lines = vec!["SELECT id,".to_string(), "name".to_string(), "FROM users".to_string()];
    match s.handle_input(Input::QueryText(lines)) {
        Message::SetQuery(t) => assert_eq!(t, "SELECT id, name FROM users"),
        _ => panic!("expected the edited text"),
    }
}

#[test]
fn browser_and_explorer_keys() {
    let s = state_in(Mode::BrowseSqliteDBFiles(BrowseSqliteDBFiles));
    assert!(matches!(s.handle_input(Input::Key(Key::Esc)), Message::Escape));
    match s.handle_input(Input::FileChosen("/data/x.db".to_string())) {
        Message::ConnectTo(p) => assert_eq!(p, "/data/x.db"),
        _ => panic!("expected a connect message"),
    }
    let s = state_in(Mode::ExploreConnection(ExploreConnection));
    assert!(matches!(s.handle_input(Input::Key(Key::Char('q'))), Message::Escape));
    assert!(matches!(s.handle_input(Input::Key(Key::Char('d'))), Message::Disconnect));
    assert!(matches!(s.handle_input(Input::FileChosen("/data/x.db".to_string())), Message::NoOp));
    let s = state_in(Mode::ExploreResults(ExploreResults));
    assert!(matches!(s.handle_input(Input::Key(Key::Esc)), Message::Escape));
    assert!(matches!(s.handle_input(Input::Key(Key::Char('d'))), Message::NoOp));
}

#[test]
fn quit_mode_input_means_quit() {
    let s = state_in(Mode::Quit(Quit));
    assert!(matches!(s.handle_input(Input::Key(Key::Enter)), Message::Quit));
    assert!(matches!(s.handle_input(Input::Other), Message::Quit));
}

#[test]
fn events_of_the_main_loop() {
    let s = ViewState::new();
    assert!(matches!(s.handle_event(MainEvent::Tick), Message::NoOp));
    assert!(matches!(s.handle_event(MainEvent::Input(Input::Key(Key::Enter))), Message::SelectMode));
    assert!(matches!(
        s.handle_event(MainEvent::Resolved(Message::QueryFailed(DbError::NoActiveConnection))),
        Message::QueryFailed(DbError::NoActiveConnection)
    ));
}

#[test]
fn widget_routing() {
    let s = state_in(Mode::EditQuery(EditQuery));
    assert!(s.routes_to_widget(Key::Char('q')));
    assert!(s.routes_to_widget(Key::Enter));
    assert!(!s.routes_to_widget(Key::Esc));
    assert!(!s.routes_to_widget(Key::Tab));
    let s = state_in(Mode::BrowseSqliteDBFiles(BrowseSqliteDBFiles));
    assert!(s.routes_to_widget(Key::Other));
    assert!(!s.routes_to_widget(Key::Enter));
    assert!(!s.routes_to_widget(Key::Esc));
    let s = ViewState::new();
    assert!(!s.routes_to_widget(Key::Char('a')));
}

#[test]
fn joining_editor_lines() {
    assert_eq!(join_lines(&vec![]), "");
    assert_eq!(join_lines(&vec!["SELECT 1".to_string()]), "SELECT 1");
    assert_eq!(join_lines(&vec!["a".to_string(), "".to_string(), "b".to_string()]), "a  b");
}
