use catalog_client::client::{AuthAction, AuthEvent, AuthState, Client, Command, Dispatch, LoginError};
use catalog_client::command_line::{join_query, tokenize};
use catalog_client::communication::login_outcome;
use catalog_client::model::{LoginResult, Reason};
use catalog_client::search::{decimal_text, search_reply, SearchReply};

type Handler = fn(&str, &LoginResult, &[String]) -> Vec<String>;

fn record(url: &str, session: &LoginResult, args: &[String]) -> Vec<String> {
    vec![url.to_string(), session.session_id.clone(), join_query(args)]
}

fn command(name: &str, short: &str, args: &[&str]) -> Command<Handler> {
    Command {
        name: name.to_string(),
        action: record as Handler,
        arg_descriptions: args.iter().map(|a| a.to_string()).collect(),
        short_description: short.to_string(),
    }
}

fn client_with_search() -> Client<Handler> {
    let mut c: Client<Handler> = Client::new("http://localhost:8080/api/v1");
    c.add_command(command("search", "search <a query string>", &["query   - search this text"]));
    c
}

fn session(id: &str) -> LoginResult {
    LoginResult { session_id: id.to_string(), username: "tf-test".to_string(), roles: vec![] }
}

fn credentials() -> AuthEvent {
    AuthEvent::Credentials("tf-test".to_string(), "pw".to_string())
}

#[test]
fn new_client_is_not_logged_in() {
    let c: Client<Handler> = Client::new("http://localhost:8080/api/v1");
    assert_eq!(c.host_url, "http://localhost:8080/api/v1");
    assert!(c.session_info.is_none());
    assert!(c.commands.is_empty());
    assert_eq!(c.auth, AuthState::Prompting);
    assert!(matches!(c.awaited_action(), AuthAction::AskCredentials));
}

#[test]
fn add_command_keeps_registration_order() {
    let mut c = client_with_search();
    c.add_command(command("show", "show <id>", &[]));
    assert_eq!(c.commands.len(), 2);
    assert_eq!(c.commands[0].name, "search");
    assert_eq!(c.commands[1].name, "show");
}

#[test]
fn credentials_lead_to_a_login_request() {
    let mut c = client_with_search();
    match c.login(credentials()) {
        AuthAction::SendLogin(body) => {
            assert_eq!(body, "{\"username\":\"tf-test\",\"password\":\"pw\"}")
        }
        _ => panic!("expected a login request"),
    }
    assert_eq!(c.auth, AuthState::Verifying);
}

#[test]
fn login_succeeds_after_rejections() {
    let mut c = client_with_search();
    for _ in 0..3 {
        assert!(matches!(c.login(credentials()), AuthAction::SendLogin(_)));
        assert!(matches!(c.login(AuthEvent::Reply(Err(Reason::InvalidCredentials))), AuthAction::AskRetry));
        assert!(c.session_info.is_none());
        assert!(matches!(c.login(AuthEvent::Retry(true)), AuthAction::AskCredentials));
    }
    assert!(matches!(c.login(credentials()), AuthAction::SendLogin(_)));
    let reply = login_outcome(200, "{\"sessionId\":\"abc123\",\"username\":\"tf-test\"}");
    assert!(matches!(c.login(AuthEvent::Reply(reply)), AuthAction::Ready));
    assert_eq!(c.auth, AuthState::Authenticated);
    assert_eq!(c.session_info.as_ref().map(|s| s.session_id.clone()), Some("abc123".to_string()));
}

#[test]
fn declined_retry_aborts_without_session() {
    let mut c = client_with_search();
    c.login(credentials());
    c.login(AuthEvent::Reply(Err(Reason::InvalidCredentials)));
    assert!(matches!(c.login(AuthEvent::Retry(false)), AuthAction::Fail(LoginError::Declined)));
    assert_eq!(c.auth, AuthState::Aborted(LoginError::Declined));
    assert!(c.session_info.is_none());
    assert!(matches!(c.login(AuthEvent::Reply(Ok(session("late")))), AuthAction::Fail(LoginError::Declined)));
    assert!(c.session_info.is_none());
}

#[test]
fn unexpected_reply_aborts_on_first_attempt() {
    let mut c = client_with_search();
    c.login(credentials());
    let reply = login_outcome(500, "");
    assert!(matches!(c.login(AuthEvent::Reply(reply)), AuthAction::Fail(LoginError::Unexpected)));
    assert_eq!(c.auth, AuthState::Aborted(LoginError::Unexpected));
    assert!(c.session_info.is_none());
}

#[test]
fn cancelled_prompt_aborts() {
    let mut c = client_with_search();
    assert!(matches!(c.login(AuthEvent::Cancelled), AuthAction::Fail(LoginError::Cancelled)));
    assert!(c.session_info.is_none());
}

#[test]
fn event_out_of_turn_changes_nothing() {
    let mut c = client_with_search();
    assert!(matches!(c.login(AuthEvent::Retry(true)), AuthAction::AskCredentials));
    assert_eq!(c.auth, AuthState::Prompting);
    c.login(credentials());
    assert!(matches!(c.login(credentials()), AuthAction::AwaitReply));
    assert_eq!(c.auth, AuthState::Verifying);
}

#[test]
fn blank_line_is_skipped() {
    let c = client_with_search();
    assert!(matches!(c.dispatch(&tokenize("   \t ")), Dispatch::Skip));
    assert!(matches!(c.dispatch(&tokenize("")), Dispatch::Skip));
}

#[test]
fn quit_ends_the_loop_whatever_follows() {
    let c = client_with_search();
    let d = c.dispatch(&tokenize("quit now please"));
    assert!(matches!(d, Dispatch::Quit));
    assert!(d.ends_loop());
    assert!(matches!(c.dispatch(&tokenize("QuIt")), Dispatch::Quit));
}

#[test]
fn help_is_recognised() {
    let c = client_with_search();
    assert!(matches!(c.dispatch(&tokenize("HELP")), Dispatch::Help));
}

#[test]
fn builtins_are_not_shadowed() {
    let mut c = client_with_search();
    c.add_command(command("help", "my help", &[]));
    c.add_command(command("quit", "my quit", &[]));
    assert!(matches!(c.dispatch(&tokenize("help")), Dispatch::Help));
    assert!(matches!(c.dispatch(&tokenize("quit")), Dispatch::Quit));
}

#[test]
fn search_command_is_invoked_with_query() {
    let mut c = client_with_search();
    c.login(credentials());
    c.login(AuthEvent::Reply(login_outcome(200, "{\"sessionId\":\"abc123\",\"username\":\"tf-test\"}")));
    let tokens = tokenize("search queen 1969");
    match c.dispatch(&tokens) {
        Dispatch::Invoke(ix) => {
            assert_eq!(ix, vec![0]);
            let s = c.session_info.as_ref().unwrap();
            let seen = (c.commands[0].action)(&c.host_url, s, &tokens[1..]);
            assert_eq!(seen, vec!["http://localhost:8080/api/v1".to_string(), "abc123".to_string(), "queen 1969".to_string()]);
        }
        _ => panic!("expected the search command"),
    }
    match search_reply(1) {
        SearchReply::Choose(prompt) => assert!(prompt.contains("Found 1 products")),
        SearchReply::NoMatches => panic!("expected a selection"),
    }
}

#[test]
fn mixed_case_name_matches_search() {
    let c = client_with_search();
    match c.dispatch(&tokenize("SeArCh foo")) {
        Dispatch::Invoke(ix) => assert_eq!(ix, vec![0]),
        _ => panic!("expected the search command"),
    }
}

#[test]
fn unknown_command_keeps_the_loop() {
    let c = client_with_search();
    let d = c.dispatch(&tokenize("bogus"));
    assert!(matches!(d, Dispatch::Unknown));
    assert!(!d.ends_loop());
}

#[test]
fn duplicate_names_are_all_invoked() {
    let mut c = client_with_search();
    c.add_command(command("other", "other", &[]));
    c.add_command(command("SEARCH", "second search", &[]));
    match c.dispatch(&tokenize("search x")) {
        Dispatch::Invoke(ix) => assert_eq!(ix, vec![0, 2]),
        _ => panic!("expected both search commands"),
    }
}

#[test]
fn help_lists_builtins_then_commands_in_order() {
    let mut c = client_with_search();
    c.add_command(command("show", "show <id>", &["id - a product id", "prints it"]));
    let expected: Vec<String> = [
        "Command: ",
        "help   - displays this list",
        "-----------------",
        "Command: ",
        "quit   - exits the program",
        "-----------------",
        "Command: ",
        "search <a query string>",
        "query   - search this text",
        "-----------------",
        "Command: ",
        "show <id>",
        "id - a product id",
        "prints it",
        "-----------------",
    ]
    .iter()
    .map(|s| s.to_string())
    .collect();
    assert_eq!(c.help_lines(), expected);
}

#[test]
fn help_without_commands_lists_builtins_only() {
    let c: Client<Handler> = Client::new("u");
    assert_eq!(c.help_lines().len(), 6);
}

#[test]
fn command_help_lines() {
    let cmd = command("show", "show <id>", &["id - a product id"]);
    assert_eq!(cmd.help_lines(), vec!["show <id>".to_string(), "id - a product id".to_string()]);
}

#[test]
fn no_results_means_no_matches() {
    assert!(matches!(search_reply(0), SearchReply::NoMatches));
}

#[test]
fn selection_prompt_counts_results() {
    match search_reply(1969) {
        SearchReply::Choose(prompt) => assert_eq!(prompt, "Found 1969 products"),
        SearchReply::NoMatches => panic!("expected a selection"),
    }
}

#[test]
fn decimal_text_of_edge_values() {
    assert_eq!(decimal_text(0), "0");
    assert_eq!(decimal_text(10), "10");
    assert_eq!(decimal_text(usize::MAX), usize::MAX.to_string());
}
