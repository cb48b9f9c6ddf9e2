//! The authentication state machine of a CAS session, and the requests it
//! asks the transport to send for login, logout and service tickets.

use vstd::prelude::*;
use crate::http::{
    get_request, is_success_code, is_success_status, pairs_view, HttpOutcome, HttpRequest,
    HttpRequestView, Method,
};
use crate::error::CasError;
use crate::scrape::{exec_token_in, token_in};

verus! {

/// The CAS login endpoint: its page holds the login form, and it issues
/// service tickets.
pub const CAS_LOGIN_URL: &'static str = "https://cas.univ-lyon1.fr/cas/login";

/// The CAS logout endpoint.
pub const CAS_LOGOUT_URL: &'static str = "https://cas.univ-lyon1.fr/cas/logout";

/// The browser-like user agent the transport sends on every request.
pub const USER_AGENT: &'static str =
    "Mozilla/5.0 (Macintosh; Intel Mac OS X 10_15_7) AppleWebKit/537.36 (KHTML, like Gecko) Chrome/127.0.0.0 Safari/537.3";

/// Suffix that marks a service URL as exempt from the target's safety check.
pub const UNSAFE_SUFFIX: &'static str = "/unsafe=1";

/// Where a session stands.
#[derive(Clone, Copy, Debug, PartialEq, Eq, Structural)]
pub enum SessionState {
    Unauthenticated,
    /// Between the request for the login page and the answer to the form.
    Authenticating,
    Authenticated,
}

/// What to do after the login page came back.
pub enum LoginStep {
    /// Send this form submission, then hand its answer to
    /// [`Lyon1CasClient::login_response_received`].
    Submit(HttpRequest),
    /// The attempt is over, with this result.
    Finished(Result<bool, CasError>),
}

/// A CAS session. It holds the authentication state; the transport that
/// sends its requests keeps the cookie store, which holds the ticket-granting
/// cookie. During an attempt it remembers whether it was authenticated
/// before, so that an attempt that ends before its form is submitted leaves
/// the session as it found it.
pub struct Lyon1CasClient {
    state: SessionState,
    authenticated_before: bool,
}

impl View for Lyon1CasClient {
    type V = SessionState;

    closed spec fn view(&self) -> SessionState {
        self.state
    }
}

/// The request that fetches the login page.
pub open spec fn login_page_request() -> HttpRequestView {
    HttpRequestView { method: Method::Get, url: CAS_LOGIN_URL@, query: seq![], form: seq![] }
}

/// The token read from the answer to the login page request, or why there is none.
pub open spec fn page_token(page: HttpOutcome) -> Result<Seq<char>, CasError> {
    match page {
        HttpOutcome::Response { body, .. } => match token_in(body@) {
            Some(t) => Ok(t),
            None => Err(CasError::MissingToken),
        },
        HttpOutcome::TransportFailure => Err(CasError::Transport),
    }
}

/// The form submission that logs `username` in with `password` and `token`.
pub open spec fn login_submission(
    username: Seq<char>,
    password: Seq<char>,
    token: Seq<char>,
) -> HttpRequestView {
    HttpRequestView {
        method: Method::Post,
        url: CAS_LOGIN_URL@,
        query: seq![],
        form: seq![
            ("username"@, username),
            ("password"@, password),
            ("execution"@, token),
            ("_eventId"@, "submit"@),
        ],
    }
}

/// Whether an answer was a success: `Ok(true)` for a status in `200..=299`,
/// `Ok(false)` for any other status, an error when there was no answer.
pub open spec fn status_verdict(outcome: HttpOutcome) -> Result<bool, CasError> {
    match outcome {
        HttpOutcome::Response { status, .. } => Ok(is_success_code(status)),
        HttpOutcome::TransportFailure => Err(CasError::Transport),
    }
}

/// The state a session is left in by the answer to its login form.
pub open spec fn state_after_login(response: HttpOutcome) -> SessionState {
    if status_verdict(response) == Ok::<bool, CasError>(true) {
        SessionState::Authenticated
    } else {
        SessionState::Unauthenticated
    }
}

/// The service URL that a ticket is asked for.
pub open spec fn service_target(service: Seq<char>, unsafe_req: bool) -> Seq<char> {
    if unsafe_req {
        service + UNSAFE_SUFFIX@
    } else {
        service
    }
}

/// The request that reaches `service`: through the login endpoint with a
/// `service` query parameter when `wrap`, directly otherwise.
pub open spec fn service_plan(service: Seq<char>, unsafe_req: bool, wrap: bool) -> HttpRequestView {
    if wrap {
        HttpRequestView {
            method: Method::Get,
            url: CAS_LOGIN_URL@,
            query: seq![("service"@, service_target(service, unsafe_req))],
            form: seq![],
        }
    } else {
        HttpRequestView {
            method: Method::Get,
            url: service_target(service, unsafe_req),
            query: seq![],
            form: seq![],
        }
    }
}

impl Lyon1CasClient {
    /// Whether the session was authenticated when the current attempt began.
    pub closed spec fn authenticated_before_attempt(&self) -> bool {
        self.authenticated_before
    }

    /// The state outside of any attempt: during an attempt, the state it
    /// began from; otherwise the current state.
    pub open spec fn state_before_attempt(&self) -> SessionState {
        if self@ == SessionState::Authenticating {
            if self.authenticated_before_attempt() {
                SessionState::Authenticated
            } else {
                SessionState::Unauthenticated
            }
        } else {
            self@
        }
    }

    /// Whether [`Self::state_before_attempt`] is `Authenticated`.
    fn was_authenticated(&self) -> (r: bool)
        ensures
            r == (self.state_before_attempt() == SessionState::Authenticated),
    {
        match self.state {
            SessionState::Authenticated => true,
            SessionState::Authenticating => self.authenticated_before,
            SessionState::Unauthenticated => false,
        }
    }

    /// A fresh, unauthenticated session.
    pub fn new() -> (r: Self)
        ensures
            r@ == SessionState::Unauthenticated,
    {
        Lyon1CasClient { state: SessionState::Unauthenticated, authenticated_before: false }
    }

    /// Whether the session is authenticated: the most recent login form
    /// submission succeeded, and no logout came since.
    pub fn authenticated(&self) -> (r: bool)
        ensures
            r == (self@ == SessionState::Authenticated),
    {
        self.state == SessionState::Authenticated
    }

    /// Begins an authentication: returns the request for the login page,
    /// whose answer goes to [`Self::login_page_received`]. A token is fetched
    /// anew for every attempt.
    pub fn start_authentication(&mut self) -> (r: HttpRequest)
        ensures
            r@ == login_page_request(),
            final(self)@ == SessionState::Authenticating,
            final(self).state_before_attempt() == old(self).state_before_attempt(),
    {
        self.authenticated_before = self.was_authenticated();
        self.state = SessionState::Authenticating;
        get_request(String::from_str(CAS_LOGIN_URL))
    }

    /// Reads the execution token out of the answer to the login page request.
    pub fn get_exec_token(page: &HttpOutcome) -> (r: Result<String, CasError>)
        ensures
            match page_token(*page) {
                Ok(t) => r is Ok && r->Ok_0@ == t,
                Err(e) => r == Err::<String, CasError>(e),
            },
    {
        match page {
            HttpOutcome::Response { body, .. } => exec_token_in(body.as_str()),
            HttpOutcome::TransportFailure => Err(CasError::Transport),
        }
    }

    /// Takes the answer to the login page request: with a token, returns the
    /// form submission for `username` and `password`; without one, ends the
    /// attempt with the error, and the session goes back to the state the
    /// attempt began from: no credentials were submitted.
    pub fn login_page_received(&mut self, page: &HttpOutcome, username: &str, password: &str) -> (r:
        LoginStep)
        ensures
            match page_token(*page) {
                Ok(t) => {
                    &&& r is Submit
                    &&& r->Submit_0@ == login_submission(username@, password@, t)
                    &&& final(self)@ == SessionState::Authenticating
                    &&& final(self).state_before_attempt() == old(self).state_before_attempt()
                },
                Err(e) => {
                    &&& r == LoginStep::Finished(Err(e))
                    &&& final(self)@ == old(self).state_before_attempt()
                },
            },
    {
        match Self::get_exec_token(page) {
            Ok(token) => {
                self.authenticated_before = self.was_authenticated();
                self.state = SessionState::Authenticating;
                let mut form: Vec<(String, String)> = Vec::new();
                form.push((String::from_str("username"), String::from_str(username)));
                form.push((String::from_str("password"), String::from_str(password)));
                form.push((String::from_str("execution"), token));
                form.push((String::from_str("_eventId"), String::from_str("submit")));
                let r = HttpRequest {
                    method: Method::Post,
                    url: String::from_str(CAS_LOGIN_URL),
                    query: Vec::new(),
                    form,
                };
                assert(pairs_view(r.query) =~= seq![]);
                assert(pairs_view(r.form) =~= login_submission(username@, password@, token@).form);
                LoginStep::Submit(r)
            },
            Err(e) => {
                if self.was_authenticated() {
                    self.state = SessionState::Authenticated;
                } else {
                    self.state = SessionState::Unauthenticated;
                }
                LoginStep::Finished(Err(e))
            },
        }
    }

    /// Takes the answer to the login form: a success status authenticates
    /// the session and gives `Ok(true)`; any other status leaves it
    /// unauthenticated and gives `Ok(false)`; no answer leaves it
    /// unauthenticated and gives the transport error.
    pub fn login_response_received(&mut self, response: &HttpOutcome) -> (r: Result<bool, CasError>)
        ensures
            r == status_verdict(*response),
            final(self)@ == state_after_login(*response),
    {
        match response {
            HttpOutcome::Response { status, .. } => {
                if is_success_status(*status) {
                    self.state = SessionState::Authenticated;
                    Ok(true)
                } else {
                    self.state = SessionState::Unauthenticated;
                    Ok(false)
                }
            },
            HttpOutcome::TransportFailure => {
                self.state = SessionState::Unauthenticated;
                Err(CasError::Transport)
            },
        }
    }

    /// Ends the session: it is unauthenticated from now on, whatever the
    /// logout request brings. Returns that request, whose answer goes to
    /// [`Self::logout_result`].
    pub fn logout(&mut self) -> (r: HttpRequest)
        ensures
            final(self)@ == SessionState::Unauthenticated,
            r@ == (HttpRequestView {
                method: Method::Get,
                url: CAS_LOGOUT_URL@,
                query: seq![],
                form: seq![],
            }),
    {
        self.state = SessionState::Unauthenticated;
        get_request(String::from_str(CAS_LOGOUT_URL))
    }

    /// Whether the logout request itself succeeded.
    pub fn logout_result(response: &HttpOutcome) -> (r: Result<bool, CasError>)
        ensures
            r == status_verdict(*response),
    {
        match response {
            HttpOutcome::Response { status, .. } => Ok(is_success_status(*status)),
            HttpOutcome::TransportFailure => Err(CasError::Transport),
        }
    }

    /// The request that reaches `service`, suffixed with `/unsafe=1` when
    /// `unsafe_req`: through the CAS login endpoint, which resolves the
    /// service ticket, when `wrap`; directly otherwise. Its answer goes to
    /// [`Self::service_result`].
    pub fn service_request(&self, service: String, unsafe_req: bool, wrap: bool) -> (r: HttpRequest)
        ensures
            r@ == service_plan(service@, unsafe_req, wrap),
    {
        let mut target = service;
        if unsafe_req {
            target.append(UNSAFE_SUFFIX);
        }
        if wrap {
            let mut query: Vec<(String, String)> = Vec::new();
            query.push((String::from_str("service"), target));
            let r = HttpRequest {
                method: Method::Get,
                url: String::from_str(CAS_LOGIN_URL),
                query,
                form: Vec::new(),
            };
            assert(pairs_view(r.query) =~= service_plan(service@, unsafe_req, wrap).query);
            assert(pairs_view(r.form) =~= seq![]);
            r
        } else {
            get_request(target)
        }
    }

    /// The body of the answer to a service request, whatever its status.
    pub fn service_result(response: HttpOutcome) -> (r: Result<String, CasError>)
        ensures
            match response {
                HttpOutcome::Response { body, .. } => r is Ok && r->Ok_0@ == body@,
                HttpOutcome::TransportFailure => r == Err::<String, CasError>(CasError::Transport),
            },
    {
        match response {
            HttpOutcome::Response { body, .. } => Ok(body),
            HttpOutcome::TransportFailure => Err(CasError::Transport),
        }
    }
}

/// An answer to the login form authenticates the session exactly when the
/// submission returns `Ok(true)`; a rejected login (`Ok(false)`) or a
/// transport error leaves it unauthenticated.
pub proof fn login_flag_matches_result(response: HttpOutcome)
    ensures
        (state_after_login(response) == SessionState::Authenticated) <==> (status_verdict(response)
            == Ok::<bool, CasError>(true)),
        status_verdict(response) == Ok::<bool, CasError>(false) ==> state_after_login(response)
            == SessionState::Unauthenticated,
        status_verdict(response) is Err ==> state_after_login(response)
            == SessionState::Unauthenticated,
{
}

/// A wrapped service request goes to the login endpoint with one query
/// parameter, `service`, whose value is the service URL followed by
/// `/unsafe=1` when the request is unsafe, and the bare URL otherwise.
pub proof fn wrapped_service_query(service: Seq<char>, unsafe_req: bool)
    ensures
        service_plan(service, unsafe_req, true).url == CAS_LOGIN_URL@,
        service_plan(service, true, true).query == seq![("service"@, service + "/unsafe=1"@)],
        service_plan(service, false, true).query == seq![("service"@, service)],
{
}

/// An unwrapped service request goes straight to the (possibly suffixed)
/// service URL, with no query parameter added.
pub proof fn direct_service_request(service: Seq<char>, unsafe_req: bool)
    ensures
        service_plan(service, false, false).url == service,
        service_plan(service, unsafe_req, false).url == service_target(service, unsafe_req),
        service_plan(service, unsafe_req, false).query.len() == 0,
{
}

/// Outside an attempt, the state an attempt would begin from is the current
/// state: an attempt that ends before its form is submitted leaves the
/// session, and so `authenticated()`, as it found it.
pub proof fn attempt_starts_from_current_state(s: Lyon1CasClient)
    ensures
        s@ != SessionState::Authenticating ==> s.state_before_attempt() == s@,
{
}

} // verus!
