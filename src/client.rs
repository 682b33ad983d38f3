use vstd::prelude::*;
use crate::command_line::{
    eq_ignore_case, lemma_blank_line_has_no_tokens, names_match, tokens_of, views, white_space,
};
use crate::communication::{login_body, login_request_body};
use crate::model::{LoginResult, Reason};

verus! {

/// A command that the operator can type, with its help text.
///
/// `action` is whatever the program around the library runs when the
/// command is typed; the library only routes to it.
pub struct Command<H> {
    pub name: String,
    pub action: H,
    pub arg_descriptions: Vec<String>,
    pub short_description: String,
}

impl<H> Command<H> {
    /// The help text of this command: its short description, then each
    /// argument description in order.
    pub fn help_lines(&self) -> (r: Vec<String>)
        ensures
            views(r@) == command_help(*self),
    {
        let mut out: Vec<String> = Vec::new();
        out.push(self.short_description.clone());
        let mut i: usize = 0;
        while i < self.arg_descriptions.len()
            invariant
                i <= self.arg_descriptions@.len(),
                views(out@) == seq![self.short_description@] + views(
                    self.arg_descriptions@.take(i as int),
                ),
            decreases self.arg_descriptions@.len() - i,
        {
            let line = self.arg_descriptions[i].clone();
            proof {
                assert(views(out@.push(line)) =~= views(out@).push(line@));
                assert(views(self.arg_descriptions@.take(i + 1)) =~= views(
                    self.arg_descriptions@.take(i as int),
                ).push(line@));
            }
            out.push(line);
            i = i + 1;
        }
        proof {
            assert(self.arg_descriptions@.take(i as int) =~= self.arg_descriptions@);
        }
        out
    }
}

/// The help text of one command.
pub open spec fn command_help<H>(c: Command<H>) -> Seq<Seq<char>> {
    seq![c.short_description@] + views(c.arg_descriptions@)
}

/// How far the login has come.
#[derive(Debug, Clone, Copy, PartialEq, Eq, Structural)]
pub enum AuthState {
    /// Waiting for the operator's username and password.
    Prompting,
    /// Waiting for the service's answer to a login request.
    Verifying,
    /// The credentials were rejected; waiting for the operator to say
    /// whether to try again.
    Confirming,
    /// A session was established.
    Authenticated,
    /// The login was given up; no session will come.
    Aborted(LoginError),
}

/// Why a login was given up.
#[derive(Debug, Clone, Copy, PartialEq, Eq, Structural)]
pub enum LoginError {
    /// The operator declined to retry after rejected credentials.
    Declined,
    /// The operator cancelled the credential prompt.
    Cancelled,
    /// The service answered in a way that cannot be classified.
    Unexpected,
}

/// What happened outside since the last step of the login.
pub enum AuthEvent {
    /// The operator entered a username and a password.
    Credentials(String, String),
    /// The operator cancelled the credential prompt.
    Cancelled,
    /// The service answered the login request.
    Reply(Result<LoginResult, Reason>),
    /// The operator answered whether to retry.
    Retry(bool),
}

/// What the login asks the program around it to do next.
pub enum AuthAction {
    /// Ask the operator for a username and a password.
    AskCredentials,
    /// Send a login request with this JSON body.
    SendLogin(String),
    /// Keep waiting for the service's answer.
    AwaitReply,
    /// Ask the operator whether to try again.
    AskRetry,
    /// The session is established: start taking commands.
    Ready,
    /// Give up: shut down without taking commands.
    Fail(LoginError),
}

/// The state that follows `s` on event `e`.
pub open spec fn next_auth(s: AuthState, e: AuthEvent) -> AuthState {
    match (s, e) {
        (AuthState::Prompting, AuthEvent::Credentials(_, _)) => AuthState::Verifying,
        (AuthState::Prompting, AuthEvent::Cancelled) => AuthState::Aborted(LoginError::Cancelled),
        (AuthState::Verifying, AuthEvent::Reply(Ok(_))) => AuthState::Authenticated,
        (AuthState::Verifying, AuthEvent::Reply(Err(Reason::InvalidCredentials))) => AuthState::Confirming,
        (AuthState::Verifying, AuthEvent::Reply(Err(Reason::Other))) => AuthState::Aborted(
            LoginError::Unexpected,
        ),
        (AuthState::Confirming, AuthEvent::Retry(true)) => AuthState::Prompting,
        (AuthState::Confirming, AuthEvent::Retry(false)) => AuthState::Aborted(LoginError::Declined),
        _ => s,
    }
}

/// The session held after event `e` in state `s`: the one a successful
/// reply carries, else the one held before.
pub open spec fn next_session(
    sess: Option<LoginResult>,
    s: AuthState,
    e: AuthEvent,
) -> Option<LoginResult> {
    match (s, e) {
        (AuthState::Verifying, AuthEvent::Reply(Ok(r))) => Some(r),
        _ => sess,
    }
}

/// What state `s` waits for, as an action for the program around it.
pub open spec fn awaited(s: AuthState) -> AuthAction {
    match s {
        AuthState::Prompting => AuthAction::AskCredentials,
        AuthState::Verifying => AuthAction::AwaitReply,
        AuthState::Confirming => AuthAction::AskRetry,
        AuthState::Authenticated => AuthAction::Ready,
        AuthState::Aborted(why) => AuthAction::Fail(why),
    }
}

/// `a` is the action that event `e` in state `s` calls for: the login
/// request for fresh credentials, else what the next state waits for.
pub open spec fn auth_action(s: AuthState, e: AuthEvent, a: AuthAction) -> bool {
    match (s, e) {
        (AuthState::Prompting, AuthEvent::Credentials(u, p)) => a matches AuthAction::SendLogin(
            body,
        ) && body@ == login_body(u@, p@),
        _ => a == awaited(next_auth(s, e)),
    }
}

/// The client: where it connects, its session once logged in, the
/// registered commands, and how far the login has come.
pub struct Client<H> {
    pub host_url: String,
    pub session_info: Option<LoginResult>,
    pub commands: Vec<Command<H>>,
    pub auth: AuthState,
}

impl<H> Client<H> {
    /// A session is held exactly when the login has succeeded.
    pub open spec fn wf(&self) -> bool {
        self.session_info is Some <==> self.auth == AuthState::Authenticated
    }

    /// A client for `url`, not logged in, with no commands.
    pub fn new(url: &str) -> (r: Client<H>)
        ensures
            r.host_url@ == url@,
            r.session_info is None,
            r.commands@.len() == 0,
            r.auth == AuthState::Prompting,
            r.wf(),
    {
        Client {
            host_url: String::from_str(url),
            session_info: None,
            commands: Vec::new(),
            auth: AuthState::Prompting,
        }
    }

    /// What the login waits for now.
    pub fn awaited_action(&self) -> (r: AuthAction)
        ensures
            r == awaited(self.auth),
    {
        match self.auth {
            AuthState::Prompting => AuthAction::AskCredentials,
            AuthState::Verifying => AuthAction::AwaitReply,
            AuthState::Confirming => AuthAction::AskRetry,
            AuthState::Authenticated => AuthAction::Ready,
            AuthState::Aborted(why) => AuthAction::Fail(why),
        }
    }

    /// One step of the login: takes what happened outside, moves the login
    /// on, and says what to do next. An event that the current state does
    /// not wait for changes nothing.
    pub fn login(&mut self, event: AuthEvent) -> (r: AuthAction)
        requires
            old(self).wf(),
        ensures
            final(self).wf(),
            final(self).auth == next_auth(old(self).auth, event),
            final(self).session_info == next_session(
                old(self).session_info,
                old(self).auth,
                event,
            ),
            final(self).host_url == old(self).host_url,
            final(self).commands == old(self).commands,
            auth_action(old(self).auth, event, r),
    {
        match (self.auth, event) {
            (AuthState::Prompting, AuthEvent::Credentials(username, password)) => {
                self.auth = AuthState::Verifying;
                AuthAction::SendLogin(login_request_body(username.as_str(), password.as_str()))
            },
            (AuthState::Prompting, AuthEvent::Cancelled) => {
                self.auth = AuthState::Aborted(LoginError::Cancelled);
                AuthAction::Fail(LoginError::Cancelled)
            },
            (AuthState::Verifying, AuthEvent::Reply(Ok(session))) => {
                self.auth = AuthState::Authenticated;
                self.session_info = Some(session);
                AuthAction::Ready
            },
            (AuthState::Verifying, AuthEvent::Reply(Err(Reason::InvalidCredentials))) => {
                self.auth = AuthState::Confirming;
                AuthAction::AskRetry
            },
            (AuthState::Verifying, AuthEvent::Reply(Err(Reason::Other))) => {
                self.auth = AuthState::Aborted(LoginError::Unexpected);
                AuthAction::Fail(LoginError::Unexpected)
            },
            (AuthState::Confirming, AuthEvent::Retry(again)) => {
                if again {
                    self.auth = AuthState::Prompting;
                    AuthAction::AskCredentials
                } else {
                    self.auth = AuthState::Aborted(LoginError::Declined);
                    AuthAction::Fail(LoginError::Declined)
                }
            },
            _ => self.awaited_action(),
        }
    }

    /// Registers a command; it is listed and matched after those already there.
    /// Names need not be unique: a typed name runs every command registered
    /// under it, in registration order.
    pub fn add_command(&mut self, command: Command<H>)
        ensures
            final(self).commands@ == old(self).commands@.push(command),
            final(self).host_url == old(self).host_url,
            final(self).session_info == old(self).session_info,
            final(self).auth == old(self).auth,
    {
        self.commands.push(command)
    }
}

/// What a typed line asks of the command loop.
pub enum Dispatch {
    /// Nothing was typed: read the next line.
    Skip,
    /// End the command loop.
    Quit,
    /// Show the help listing.
    Help,
    /// Run the registered commands at these positions, in order, with the
    /// tokens after the first.
    Invoke(Vec<usize>),
    /// No built-in and no registered command has this name.
    Unknown,
}

impl Dispatch {
    /// Whether the command loop ends here.
    pub fn ends_loop(&self) -> (r: bool)
        ensures
            r == (self is Quit),
    {
        match self {
            Dispatch::Quit => true,
            _ => false,
        }
    }
}

/// `t` names the built-in `quit`.
pub open spec fn is_quit(t: Seq<char>) -> bool {
    names_match(t, "quit"@)
}

/// `t` names the built-in `help`.
pub open spec fn is_help(t: Seq<char>) -> bool {
    names_match(t, "help"@)
}

/// The positions of the commands of `cmds` whose name matches `t`, in order.
pub open spec fn matching<H>(cmds: Seq<Command<H>>, t: Seq<char>) -> Seq<usize>
    decreases cmds.len(),
{
    if cmds.len() == 0 {
        Seq::empty()
    } else {
        let m = matching(cmds.drop_last(), t);
        if names_match(t, cmds.last().name@) {
            m.push((cmds.len() - 1) as usize)
        } else {
            m
        }
    }
}

/// `d` is what the tokens `tokens` ask of a loop whose registry is `cmds`:
/// nothing on an empty line; the built-ins before any registered command;
/// then every matching command; else an unknown name.
pub open spec fn dispatched<H>(cmds: Seq<Command<H>>, tokens: Seq<Seq<char>>, d: Dispatch) -> bool {
    if tokens.len() == 0 {
        d is Skip
    } else if is_quit(tokens[0]) {
        d is Quit
    } else if is_help(tokens[0]) {
        d is Help
    } else if matching(cmds, tokens[0]).len() == 0 {
        d is Unknown
    } else {
        d matches Dispatch::Invoke(ix) && ix@ == matching(cmds, tokens[0])
    }
}

/// The first two help entries, for the built-ins.
pub open spec fn builtin_help() -> Seq<Seq<char>> {
    seq![
        "Command: "@,
        "help   - displays this list"@,
        "-----------------"@,
        "Command: "@,
        "quit   - exits the program"@,
        "-----------------"@,
    ]
}

/// The help entries of the registered commands, in registration order, each
/// under a heading and followed by a divider.
pub open spec fn commands_help<H>(cmds: Seq<Command<H>>) -> Seq<Seq<char>>
    decreases cmds.len(),
{
    if cmds.len() == 0 {
        Seq::empty()
    } else {
        commands_help(cmds.drop_last()) + seq!["Command: "@] + command_help(cmds.last()) + seq![
            "-----------------"@,
        ]
    }
}

/// The whole help listing: the built-ins, then every registered command.
pub open spec fn help_listing<H>(cmds: Seq<Command<H>>) -> Seq<Seq<char>> {
    builtin_help() + commands_help(cmds)
}

impl<H> Client<H> {
    /// Decides what a tokenized line asks of the command loop. The first
    /// token names the command, ASCII letters in any case; `quit` and `help`
    /// come before any registered command and take no arguments (further
    /// tokens are ignored).
    pub fn dispatch(&self, tokens: &[String]) -> (r: Dispatch)
        ensures
            dispatched(self.commands@, views(tokens@), r),
    {
        if tokens.len() == 0 {
            return Dispatch::Skip;
        }
        let name = tokens[0].as_str();
        if eq_ignore_case(name, "quit") {
            return Dispatch::Quit;
        }
        if eq_ignore_case(name, "help") {
            return Dispatch::Help;
        }
        let mut found: Vec<usize> = Vec::new();
        let mut i: usize = 0;
        while i < self.commands.len()
            invariant
                i <= self.commands@.len(),
                name@ == views(tokens@)[0],
                found@ == matching(self.commands@.take(i as int), name@),
            decreases self.commands@.len() - i,
        {
            proof {
                assert(self.commands@.take(i + 1).drop_last() =~= self.commands@.take(i as int));
            }
            if eq_ignore_case(name, self.commands[i].name.as_str()) {
                found.push(i);
            }
            i = i + 1;
        }
        proof {
            assert(self.commands@.take(i as int) =~= self.commands@);
        }
        if found.len() == 0 {
            Dispatch::Unknown
        } else {
            Dispatch::Invoke(found)
        }
    }

    /// The help listing: both built-ins, then each registered command's short
    /// description and argument descriptions, in registration order.
    pub fn help_lines(&self) -> (r: Vec<String>)
        ensures
            views(r@) == help_listing(self.commands@),
    {
        let mut out: Vec<String> = Vec::new();
        out.push(String::from_str("Command: "));
        out.push(String::from_str("help   - displays this list"));
        out.push(String::from_str("-----------------"));
        out.push(String::from_str("Command: "));
        out.push(String::from_str("quit   - exits the program"));
        out.push(String::from_str("-----------------"));
        proof {
            assert(views(out@) =~= builtin_help());
        }
        let mut i: usize = 0;
        while i < self.commands.len()
            invariant
                i <= self.commands@.len(),
                views(out@) == builtin_help() + commands_help(self.commands@.take(i as int)),
            decreases self.commands@.len() - i,
        {
            let ghost before = views(out@);
            let heading = String::from_str("Command: ");
            proof {
                assert(views(out@.push(heading)) =~= views(out@).push(heading@));
            }
            out.push(heading);
            let lines = self.commands[i].help_lines();
            let mut j: usize = 0;
            while j < lines.len()
                invariant
                    j <= lines@.len(),
                    views(out@) == before + seq!["Command: "@] + views(lines@.take(j as int)),
                decreases lines@.len() - j,
            {
                let line = lines[j].clone();
                proof {
                    assert(views(out@.push(line)) =~= views(out@).push(line@));
                    assert(views(lines@.take(j + 1)) =~= views(lines@.take(j as int)).push(
                        line@,
                    ));
                }
                out.push(line);
                j = j + 1;
            }
            let divider = String::from_str("-----------------");
            proof {
                assert(lines@.take(j as int) =~= lines@);
                assert(views(out@.push(divider)) =~= views(out@).push(divider@));
                assert(self.commands@.take(i + 1).drop_last() =~= self.commands@.take(i as int));
            }
            out.push(divider);
            i = i + 1;
            proof {
                assert(views(out@) =~= builtin_help() + commands_help(
                    self.commands@.take(i as int),
                ));
            }
        }
        proof {
            assert(self.commands@.take(i as int) =~= self.commands@);
        }
        out
    }
}

/// The login state and session after the events `es`, one step each,
/// starting from state `s` holding `sess`.
pub open spec fn run_auth(s: AuthState, sess: Option<LoginResult>, es: Seq<AuthEvent>) -> (
    AuthState,
    Option<LoginResult>,
)
    decreases es.len(),
{
    if es.len() == 0 {
        (s, sess)
    } else {
        run_auth(next_auth(s, es[0]), next_session(sess, s, es[0]), es.drop_first())
    }
}

/// One attempt whose credentials the service rejects, after which the
/// operator chooses to try again.
pub open spec fn rejected_attempt(username: String, password: String) -> Seq<AuthEvent> {
    seq![
        AuthEvent::Credentials(username, password),
        AuthEvent::Reply(Err(Reason::InvalidCredentials)),
        AuthEvent::Retry(true),
    ]
}

/// One rejected-and-retried attempt for each credential pair of `creds`.
pub open spec fn retried(creds: Seq<(String, String)>) -> Seq<AuthEvent>
    decreases creds.len(),
{
    if creds.len() == 0 {
        Seq::empty()
    } else {
        rejected_attempt(creds[0].0, creds[0].1) + retried(creds.drop_first())
    }
}

/// Rejected attempts that the operator retries bring the login back to the
/// credential prompt with no session, however many there were.
pub proof fn lemma_retries_return_to_prompt(creds: Seq<(String, String)>, rest: Seq<AuthEvent>)
    ensures
        run_auth(AuthState::Prompting, None, retried(creds) + rest) == run_auth(
            AuthState::Prompting,
            None,
            rest,
        ),
    decreases creds.len(),
{
    if creds.len() > 0 {
        let tail = retried(creds.drop_first()) + rest;
        let es = retried(creds) + rest;
        let (u, p) = creds[0];
        assert(es =~= rejected_attempt(u, p) + tail);
        let e1 = es.drop_first();
        let e2 = e1.drop_first();
        assert(es.drop_first().drop_first().drop_first() =~= tail);
        assert(run_auth(AuthState::Prompting, None, es) == run_auth(AuthState::Verifying, None, e1));
        assert(run_auth(AuthState::Verifying, None, e1) == run_auth(AuthState::Confirming, None, e2));
        assert(run_auth(AuthState::Confirming, None, e2) == run_auth(AuthState::Prompting, None, tail));
        lemma_retries_return_to_prompt(creds.drop_first(), rest);
    } else {
        assert(retried(creds) + rest =~= rest);
    }
}

/// Once the login is given up, no later event brings a session.
pub proof fn lemma_abort_is_final(why: LoginError, es: Seq<AuthEvent>)
    ensures
        run_auth(AuthState::Aborted(why), None, es) == (AuthState::Aborted(why), None::<
            LoginResult,
        >),
    decreases es.len(),
{
    if es.len() > 0 {
        lemma_abort_is_final(why, es.drop_first());
    }
}

/// However many rejected attempts the operator retried, a login whose last
/// credentials are accepted ends authenticated, holding exactly the session
/// of the successful reply.
pub proof fn lemma_login_succeeds_after_retries(
    creds: Seq<(String, String)>,
    username: String,
    password: String,
    session: LoginResult,
)
    ensures
        run_auth(
            AuthState::Prompting,
            None,
            retried(creds) + seq![
                AuthEvent::Credentials(username, password),
                AuthEvent::Reply(Ok(session)),
            ],
        ) == (AuthState::Authenticated, Some(session)),
{
    let last = seq![AuthEvent::Credentials(username, password), AuthEvent::Reply(Ok(session))];
    lemma_retries_return_to_prompt(creds, last);
    assert(last.drop_first().drop_first() =~= Seq::<AuthEvent>::empty());
    assert(run_auth(AuthState::Prompting, None, last) == run_auth(
        AuthState::Verifying,
        None,
        last.drop_first(),
    ));
    assert(run_auth(AuthState::Verifying, None, last.drop_first()) == run_auth(
        AuthState::Authenticated,
        Some(session),
        last.drop_first().drop_first(),
    ));
}

/// Where every attempt is rejected and the operator declines to retry, the
/// login is given up and holds no session, whatever comes after.
pub proof fn lemma_declined_retry_aborts(
    creds: Seq<(String, String)>,
    username: String,
    password: String,
    later: Seq<AuthEvent>,
)
    ensures
        run_auth(
            AuthState::Prompting,
            None,
            retried(creds) + seq![
                AuthEvent::Credentials(username, password),
                AuthEvent::Reply(Err(Reason::InvalidCredentials)),
                AuthEvent::Retry(false),
            ] + later,
        ) == (AuthState::Aborted(LoginError::Declined), None::<LoginResult>),
{
    let last = seq![
        AuthEvent::Credentials(username, password),
        AuthEvent::Reply(Err(Reason::InvalidCredentials)),
        AuthEvent::Retry(false),
    ] + later;
    assert(retried(creds) + seq![
        AuthEvent::Credentials(username, password),
        AuthEvent::Reply(Err(Reason::InvalidCredentials)),
        AuthEvent::Retry(false),
    ] + later =~= retried(creds) + last);
    lemma_retries_return_to_prompt(creds, last);
    assert(last.drop_first().drop_first().drop_first() =~= later);
    assert(run_auth(AuthState::Prompting, None, last) == run_auth(
        AuthState::Verifying,
        None,
        last.drop_first(),
    ));
    assert(run_auth(AuthState::Verifying, None, last.drop_first()) == run_auth(
        AuthState::Confirming,
        None,
        last.drop_first().drop_first(),
    ));
    assert(run_auth(AuthState::Confirming, None, last.drop_first().drop_first()) == run_auth(
        AuthState::Aborted(LoginError::Declined),
        None,
        later,
    ));
    lemma_abort_is_final(LoginError::Declined, later);
}

/// A reply that is neither a success nor rejected credentials gives the
/// login up at once, on any attempt: the step asks for no retry, and no
/// session follows whatever comes after.
pub proof fn lemma_unexpected_reply_aborts(
    creds: Seq<(String, String)>,
    username: String,
    password: String,
    later: Seq<AuthEvent>,
    action: AuthAction,
)
    ensures
        run_auth(
            AuthState::Prompting,
            None,
            retried(creds) + seq![
                AuthEvent::Credentials(username, password),
                AuthEvent::Reply(Err(Reason::Other)),
            ] + later,
        ) == (AuthState::Aborted(LoginError::Unexpected), None::<LoginResult>),
        auth_action(AuthState::Verifying, AuthEvent::Reply(Err(Reason::Other)), action) ==> action
            == AuthAction::Fail(LoginError::Unexpected),
{
    let last = seq![
        AuthEvent::Credentials(username, password),
        AuthEvent::Reply(Err(Reason::Other)),
    ] + later;
    assert(retried(creds) + seq![
        AuthEvent::Credentials(username, password),
        AuthEvent::Reply(Err(Reason::Other)),
    ] + later =~= retried(creds) + last);
    lemma_retries_return_to_prompt(creds, last);
    assert(last.drop_first().drop_first() =~= later);
    assert(run_auth(AuthState::Prompting, None, last) == run_auth(
        AuthState::Verifying,
        None,
        last.drop_first(),
    ));
    assert(run_auth(AuthState::Verifying, None, last.drop_first()) == run_auth(
        AuthState::Aborted(LoginError::Unexpected),
        None,
        later,
    ));
    lemma_abort_is_final(LoginError::Unexpected, later);
}

/// A line of whitespace only, or an empty one, asks for nothing: no command
/// is looked up and the loop reads on.
pub proof fn lemma_blank_line_is_skipped<H>(cmds: Seq<Command<H>>, line: Seq<char>, d: Dispatch)
    requires
        forall|i: int| 0 <= i < line.len() ==> white_space(#[trigger] line[i]),
        dispatched(cmds, tokens_of(line), d),
    ensures
        d is Skip,
{
    lemma_blank_line_has_no_tokens(line);
}

/// `quit` as the first token ends the loop, whatever follows it and
/// whatever commands are registered.
pub proof fn lemma_quit_ends_loop<H>(cmds: Seq<Command<H>>, tokens: Seq<Seq<char>>, d: Dispatch)
    requires
        tokens.len() > 0,
        is_quit(tokens[0]),
        dispatched(cmds, tokens, d),
    ensures
        d is Quit,
{
}

} // verus!
