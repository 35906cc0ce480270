//! Signing in: the requests to send, one after the other, and what each
//! answer leads to. Sending is the caller's part.

use vstd::prelude::*;
use crate::error::Error;
use crate::types::scraped_webpage_info::ScrapedWebPageInfo;

verus! {

/// The address of the home page.
pub const HOME_URL: &'static str = "https://www.deviantart.com/";

/// The address of the login page.
pub const LOGIN_URL: &'static str = "https://www.deviantart.com/users/login";

/// The address that takes the user name.
pub const STEP2_URL: &'static str = "https://www.deviantart.com/_sisu/do/step2";

/// The address that takes the password.
pub const SIGNIN_URL: &'static str = "https://www.deviantart.com/_sisu/do/signin";

/// One field of a form.
#[derive(Clone, Debug, PartialEq, Eq)]
pub struct FormField {
    /// The name of the field.
    pub name: String,
    /// The value of the field.
    pub value: String,
}

/// A request for the caller to send.
#[derive(Clone, Debug, PartialEq, Eq)]
pub struct Request {
    /// Whether the request posts a form; else it gets a page.
    pub post: bool,
    /// The address.
    pub url: String,
    /// The fields of the form, in order.
    pub form: Vec<FormField>,
}

/// The two login flows of the site.
#[derive(Clone, Copy, Debug, PartialEq, Eq)]
pub enum LoginFlow {
    /// One form with user name and password, with the CSRF token of the
    /// page configuration.
    Legacy,
    /// The user name first, then the password, with the tokens of the form
    /// that came last.
    TwoStep,
}

/// How far signing in has come.
#[derive(Clone, Copy, Debug, PartialEq, Eq)]
pub enum SignInState {
    /// Nothing was received yet; the login page was asked for.
    Anonymous,
    /// The login page was received and the user name was sent.
    LoginPageFetched,
    /// The password was sent.
    PasswordStepSubmitted,
    /// The site answered with a page for a user who is logged in.
    Authenticated,
    /// Signing in failed.
    Failed,
}

/// What the caller does next.
#[derive(Clone, Debug, PartialEq, Eq)]
pub enum SignInAction {
    /// Send the request and hand its answer to the next step.
    Send(Request),
    /// Nothing: the user is signed in.
    Done,
    /// Nothing: signing in failed for the given reason.
    Fail(Error),
}

/// A step of signing in: the new state, and what to do.
#[derive(Clone, Debug, PartialEq, Eq)]
pub struct SignInStep {
    /// The state after the step.
    pub state: SignInState,
    /// What the caller does next.
    pub action: SignInAction,
}

/// A request with its texts as sequences.
pub struct RequestView {
    pub post: bool,
    pub url: Seq<char>,
    pub form: Seq<(Seq<char>, Seq<char>)>,
}

/// An action with its texts as sequences.
pub enum ActionView {
    Send(RequestView),
    Done,
    MissingField(Seq<char>),
    SignInFailed,
    Other(Error),
}

/// A step with its texts as sequences.
pub struct StepView {
    pub state: SignInState,
    pub action: ActionView,
}

/// The fields of a form as pairs of texts.
pub open spec fn form_view(form: Seq<FormField>) -> Seq<(Seq<char>, Seq<char>)> {
    Seq::new(form.len(), |i: int| (form[i].name@, form[i].value@))
}

impl View for Request {
    type V = RequestView;

    open spec fn view(&self) -> RequestView {
        RequestView { post: self.post, url: self.url@, form: form_view(self.form@) }
    }
}

impl View for SignInAction {
    type V = ActionView;

    open spec fn view(&self) -> ActionView {
        match *self {
            SignInAction::Send(request) => ActionView::Send(request@),
            SignInAction::Done => ActionView::Done,
            SignInAction::Fail(Error::MissingField { name }) => ActionView::MissingField(name@),
            SignInAction::Fail(Error::SignInFailed) => ActionView::SignInFailed,
            SignInAction::Fail(other) => ActionView::Other(other),
        }
    }
}

impl View for SignInStep {
    type V = StepView;

    open spec fn view(&self) -> StepView {
        StepView { state: self.state, action: self.action@ }
    }
}

/// The form that carries the user name, in the flow of two steps.
pub open spec fn username_form(csrf: Seq<char>, lu: Seq<char>, username: Seq<char>) -> Seq<
    (Seq<char>, Seq<char>),
> {
    seq![
        ("referer"@, LOGIN_URL@),
        ("referer_type"@, ""@),
        ("csrf_token"@, csrf),
        ("challenge"@, "0"@),
        ("lu_token"@, lu),
        ("username"@, username),
        ("remember"@, "on"@),
    ]
}

/// The form that carries the password, in the flow of two steps.
pub open spec fn password_form(
    csrf: Seq<char>,
    lu: Seq<char>,
    lu2: Seq<char>,
    password: Seq<char>,
) -> Seq<(Seq<char>, Seq<char>)> {
    seq![
        ("referer"@, SIGNIN_URL@),
        ("referer_type"@, ""@),
        ("csrf_token"@, csrf),
        ("challenge"@, "0"@),
        ("lu_token"@, lu),
        ("lu_token2"@, lu2),
        ("username"@, ""@),
        ("password"@, password),
        ("remember"@, "on"@),
    ]
}

/// The form that carries user name and password, in the legacy flow.
pub open spec fn legacy_form(csrf: Seq<char>, username: Seq<char>, password: Seq<char>) -> Seq<
    (Seq<char>, Seq<char>),
> {
    seq![
        ("referer"@, HOME_URL@),
        ("csrf_token"@, csrf),
        ("username"@, username),
        ("password"@, password),
        ("challenge"@, "0"@),
        ("remember"@, "on"@),
    ]
}

/// A step that fails for want of the field `name`.
pub open spec fn missing_field(name: Seq<char>) -> StepView {
    StepView { state: SignInState::Failed, action: ActionView::MissingField(name) }
}

/// A step that posts `form` to `url`.
pub open spec fn post_step(state: SignInState, url: Seq<char>, form: Seq<(Seq<char>, Seq<char>)>) ->
    StepView {
    StepView {
        state,
        action: ActionView::Send(RequestView { post: true, url, form }),
    }
}

/// What the page `page`, received in the state `state`, leads to.
///
/// The login page must hold the tokens of its form; they go out with the
/// user name, or, in the legacy flow, the token of the configuration goes
/// out with user name and password. The page that answers the user name
/// must hold the tokens for the password form. The page that answers the
/// password decides: the user is logged in, or signing in has failed. A
/// walk that has ended stays where it is.
pub open spec fn sign_in_step_of(
    flow: LoginFlow,
    state: SignInState,
    username: Seq<char>,
    password: Seq<char>,
    page: ScrapedWebPageInfo,
) -> StepView {
    match state {
        SignInState::Anonymous => match flow {
            LoginFlow::Legacy => post_step(
                SignInState::PasswordStepSubmitted,
                SIGNIN_URL@,
                legacy_form(page.config.csrf_token@, username, password),
            ),
            LoginFlow::TwoStep => match page.csrf_token {
                None => missing_field("csrfToken"@),
                Some(csrf) => match page.lu_token {
                    None => missing_field("luToken"@),
                    Some(lu) => post_step(
                        SignInState::LoginPageFetched,
                        STEP2_URL@,
                        username_form(csrf@, lu@, username),
                    ),
                },
            },
        },
        SignInState::LoginPageFetched => match page.csrf_token {
            None => missing_field("csrfToken"@),
            Some(csrf) => match page.lu_token {
                None => missing_field("luToken"@),
                Some(lu) => match page.lu_token2 {
                    None => missing_field("luToken2"@),
                    Some(lu2) => post_step(
                        SignInState::PasswordStepSubmitted,
                        SIGNIN_URL@,
                        password_form(csrf@, lu@, lu2@, password),
                    ),
                },
            },
        },
        SignInState::PasswordStepSubmitted => if page.public_session.is_logged_in {
            StepView { state: SignInState::Authenticated, action: ActionView::Done }
        } else {
            StepView { state: SignInState::Failed, action: ActionView::SignInFailed }
        },
        SignInState::Authenticated => StepView {
            state: SignInState::Authenticated,
            action: ActionView::Done,
        },
        SignInState::Failed => StepView {
            state: SignInState::Failed,
            action: ActionView::SignInFailed,
        },
    }
}

/// A form field.
fn field(name: &str, value: &str) -> (made: FormField)
    ensures
        made.name@ == name@,
        made.value@ == value@,
{
    FormField { name: name.to_owned(), value: value.to_owned() }
}

/// A step that fails for want of the field `name`.
fn fail_missing(name: &'static str) -> (step: SignInStep)
    ensures
        step@ == missing_field(name@),
{
    SignInStep { state: SignInState::Failed, action: SignInAction::Fail(Error::MissingField { name }) }
}

/// The request that opens signing in: it gets the login page.
pub fn sign_in_start() -> (request: Request)
    ensures
        !request.post,
        request.url@ == LOGIN_URL@,
        request.form@.len() == 0,
{
    Request { post: false, url: LOGIN_URL.to_owned(), form: Vec::new() }
}

/// The request that asks whether the user is logged in: it gets the home
/// page, whose session flag is the answer.
pub fn logged_in_check() -> (request: Request)
    ensures
        !request.post,
        request.url@ == HOME_URL@,
        request.form@.len() == 0,
{
    Request { post: false, url: HOME_URL.to_owned(), form: Vec::new() }
}

/// Takes in the page that answered the last request and says what comes
/// next.
pub fn sign_in_step(
    flow: LoginFlow,
    state: SignInState,
    username: &str,
    password: &str,
    page: &ScrapedWebPageInfo,
) -> (step: SignInStep)
    ensures
        step@ == sign_in_step_of(flow, state, username@, password@, *page),
{
    match state {
        SignInState::Anonymous => match flow {
            LoginFlow::Legacy => {
                let mut form: Vec<FormField> = Vec::new();
                form.push(field("referer", HOME_URL));
                form.push(field("csrf_token", page.config.csrf_token.as_str()));
                form.push(field("username", username));
                form.push(field("password", password));
                form.push(field("challenge", "0"));
                form.push(field("remember", "on"));
                assert(form_view(form@) == legacy_form(
                    page.config.csrf_token@,
                    username@,
                    password@,
                ));
                SignInStep {
                    state: SignInState::PasswordStepSubmitted,
                    action: SignInAction::Send(
                        Request { post: true, url: SIGNIN_URL.to_owned(), form },
                    ),
                }
            },
            LoginFlow::TwoStep => {
                let csrf = match &page.csrf_token {
                    Some(csrf) => csrf,
                    None => {
                        return fail_missing("csrfToken");
                    },
                };
                let lu = match &page.lu_token {
                    Some(lu) => lu,
                    None => {
                        return fail_missing("luToken");
                    },
                };
                let mut form: Vec<FormField> = Vec::new();
                form.push(field("referer", LOGIN_URL));
                form.push(field("referer_type", ""));
                form.push(field("csrf_token", csrf.as_str()));
                form.push(field("challenge", "0"));
                form.push(field("lu_token", lu.as_str()));
                form.push(field("username", username));
                form.push(field("remember", "on"));
                assert(form_view(form@) == username_form(csrf@, lu@, username@));
                SignInStep {
                    state: SignInState::LoginPageFetched,
                    action: SignInAction::Send(
                        Request { post: true, url: STEP2_URL.to_owned(), form },
                    ),
                }
            },
        },
        SignInState::LoginPageFetched => {
            let csrf = match &page.csrf_token {
                Some(csrf) => csrf,
                None => {
                    return fail_missing("csrfToken");
                },
            };
            let lu = match &page.lu_token {
                Some(lu) => lu,
                None => {
                    return fail_missing("luToken");
                },
            };
            let lu2 = match &page.lu_token2 {
                Some(lu2) => lu2,
                None => {
                    return fail_missing("luToken2");
                },
            };
            let mut form: Vec<FormField> = Vec::new();
            form.push(field("referer", SIGNIN_URL));
            form.push(field("referer_type", ""));
            form.push(field("csrf_token", csrf.as_str()));
            form.push(field("challenge", "0"));
            form.push(field("lu_token", lu.as_str()));
            form.push(field("lu_token2", lu2.as_str()));
            form.push(field("username", ""));
            form.push(field("password", password));
            form.push(field("remember", "on"));
            assert(form_view(form@) == password_form(csrf@, lu@, lu2@, password@));
            SignInStep {
                state: SignInState::PasswordStepSubmitted,
                action: SignInAction::Send(
                    Request { post: true, url: SIGNIN_URL.to_owned(), form },
                ),
            }
        },
        SignInState::PasswordStepSubmitted => if page.is_logged_in() {
            SignInStep { state: SignInState::Authenticated, action: SignInAction::Done }
        } else {
            SignInStep {
                state: SignInState::Failed,
                action: SignInAction::Fail(Error::SignInFailed),
            }
        },
        SignInState::Authenticated => SignInStep {
            state: SignInState::Authenticated,
            action: SignInAction::Done,
        },
        SignInState::Failed => SignInStep {
            state: SignInState::Failed,
            action: SignInAction::Fail(Error::SignInFailed),
        },
    }
}

/// A cookie of the store, as far as the sweep reads it.
#[derive(Clone, Debug, PartialEq, Eq)]
pub struct CookieRecord {
    /// The domain of the cookie, if it has one.
    pub domain: Option<String>,
    /// The name of the cookie.
    pub name: String,
    /// The path of the cookie, if it has one.
    pub path: Option<String>,
    /// Whether the cookie has expired.
    pub expired: bool,
}

/// What names a cookie in the store.
#[derive(Clone, Debug, PartialEq, Eq)]
pub struct CookieKey {
    /// The domain, empty for a cookie without one.
    pub domain: String,
    /// The name.
    pub name: String,
    /// The path, empty for a cookie without one.
    pub path: String,
}

/// The text of an optional string, empty where there is none.
pub open spec fn text_or_empty(text: Option<String>) -> Seq<char> {
    match text {
        Some(text) => text@,
        None => seq![],
    }
}

/// The keys of the cookies among `cookies` that have expired, in order.
pub open spec fn expired_keys(cookies: Seq<CookieRecord>) -> Seq<
    (Seq<char>, Seq<char>, Seq<char>),
>
    decreases cookies.len(),
{
    if cookies.len() == 0 {
        seq![]
    } else {
        let last = cookies.last();
        if last.expired {
            expired_keys(cookies.drop_last()).push(
                (text_or_empty(last.domain), last.name@, text_or_empty(last.path)),
            )
        } else {
            expired_keys(cookies.drop_last())
        }
    }
}

/// The keys as triples of texts.
pub open spec fn keys_view(keys: Seq<CookieKey>) -> Seq<(Seq<char>, Seq<char>, Seq<char>)> {
    Seq::new(keys.len(), |i: int| (keys[i].domain@, keys[i].name@, keys[i].path@))
}

/// A copy of the text, or the empty text where there is none.
fn or_empty(text: &Option<String>) -> (out: String)
    ensures
        out@ == text_or_empty(*text),
{
    match text {
        Some(text) => text.clone(),
        None => String::new(),
    }
}

/// The cookies to remove before signing in: the keys of those that have
/// expired. They are collected first, so that the store is not changed
/// while it is read.
pub fn expired_cookie_keys(cookies: &Vec<CookieRecord>) -> (keys: Vec<CookieKey>)
    ensures
        keys_view(keys@) == expired_keys(cookies@),
{
    let mut keys: Vec<CookieKey> = Vec::new();
    let mut i: usize = 0;
    assert(cookies@.take(0).len() == 0);
    assert(keys_view(keys@) == expired_keys(cookies@.take(0)));
    while i < cookies.len()
        invariant
            i <= cookies.len(),
            keys_view(keys@) == expired_keys(cookies@.take(i as int)),
        decreases cookies.len() - i,
    {
        proof {
            let upto = cookies@.take(i + 1);
            assert(upto.drop_last() == cookies@.take(i as int));
            assert(upto.last() == cookies@[i as int]);
        }
        if cookies[i].expired {
            let key = CookieKey {
                domain: or_empty(&cookies[i].domain),
                name: cookies[i].name.clone(),
                path: or_empty(&cookies[i].path),
            };
            let ghost before = keys_view(keys@);
            keys.push(key);
            assert(keys_view(keys@) == before.push((key.domain@, key.name@, key.path@)));
        }
        i += 1;
    }
    assert(cookies@.take(cookies.len() as int) == cookies@);
    keys
}

} // verus!
