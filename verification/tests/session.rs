use deviantart::session::{
    expired_cookie_keys, logged_in_check, sign_in_start, sign_in_step, CookieKey, CookieRecord,
    LoginFlow, Request, SignInAction, SignInState, HOME_URL, LOGIN_URL, SIGNIN_URL, STEP2_URL,
};
use deviantart::types::scraped_webpage_info::{Config, PublicSession, ScrapedWebPageInfo};
use deviantart::Error;

fn page(csrf: Option<&str>, lu: Option<&str>, lu2: Option<&str>, logged_in: bool) -> ScrapedWebPageInfo {
    ScrapedWebPageInfo {
        config: Config { csrf_token: "config-csrf".to_string(), unknown: Vec::new() },
        entities: None,
        duper_browse: None,
        public_session: PublicSession { is_logged_in: logged_in, unknown: Vec::new() },
        streams: None,
        csrf_token: csrf.map(String::from),
        gallection_section: None,
        lu_token: lu.map(String::from),
        lu_token2: lu2.map(String::from),
        unknown: Vec::new(),
    }
}

fn form_of(request: &Request) -> Vec<(&str, &str)> {
    request.form.iter().map(|f| (f.name.as_str(), f.value.as_str())).collect()
}

fn sent(action: SignInAction) -> Request {
    match action {
        SignInAction::Send(request) => request,
        other => panic!("no request: {other:?}"),
    }
}

#[test]
fn signing_in_begins_with_the_login_page() {
    let request = sign_in_start();
    assert!(!request.post);
    assert_eq!(request.url, "https://www.deviantart.com/users/login");
    assert!(request.form.is_empty());
    let request = logged_in_check();
    assert!(!request.post);
    assert_eq!(request.url, "https://www.deviantart.com/");
    assert_eq!(HOME_URL, "https://www.deviantart.com/");
    assert_eq!(LOGIN_URL, "https://www.deviantart.com/users/login");
}

#[test]
fn two_step_flow_sends_username_then_password() {
    let login = page(Some("c1"), Some("l1"), None, false);
    let step = sign_in_step(LoginFlow::TwoStep, SignInState::Anonymous, "user", "secret", &login);
    assert_eq!(step.state, SignInState::LoginPageFetched);
    let request = sent(step.action);
    assert!(request.post);
    assert_eq!(request.url, STEP2_URL);
    assert_eq!(request.url, "https://www.deviantart.com/_sisu/do/step2");
    assert_eq!(
        form_of(&request),
        vec![
            ("referer", "https://www.deviantart.com/users/login"),
            ("referer_type", ""),
            ("csrf_token", "c1"),
            ("challenge", "0"),
            ("lu_token", "l1"),
            ("username", "user"),
            ("remember", "on"),
        ]
    );
    let password_page = page(Some("c2"), Some("l2"), Some("l22"), false);
    let step = sign_in_step(LoginFlow::TwoStep, step.state, "user", "secret", &password_page);
    assert_eq!(step.state, SignInState::PasswordStepSubmitted);
    let request = sent(step.action);
    assert!(request.post);
    assert_eq!(request.url, SIGNIN_URL);
    assert_eq!(request.url, "https://www.deviantart.com/_sisu/do/signin");
    assert_eq!(
        form_of(&request),
        vec![
            ("referer", "https://www.deviantart.com/_sisu/do/signin"),
            ("referer_type", ""),
            ("csrf_token", "c2"),
            ("challenge", "0"),
            ("lu_token", "l2"),
            ("lu_token2", "l22"),
            ("username", ""),
            ("password", "secret"),
            ("remember", "on"),
        ]
    );
    let home = page(None, None, None, true);
    let step = sign_in_step(LoginFlow::TwoStep, step.state, "user", "secret", &home);
    assert_eq!(step.state, SignInState::Authenticated);
    assert_eq!(step.action, SignInAction::Done);
    let step = sign_in_step(LoginFlow::TwoStep, step.state, "user", "secret", &home);
    assert_eq!(step.state, SignInState::Authenticated);
    assert_eq!(step.action, SignInAction::Done);
}

#[test]
fn legacy_flow_sends_one_form() {
    let login = page(None, None, None, false);
    let step = sign_in_step(LoginFlow::Legacy, SignInState::Anonymous, "user", "secret", &login);
    assert_eq!(step.state, SignInState::PasswordStepSubmitted);
    let request = sent(step.action);
    assert!(request.post);
    assert_eq!(request.url, "https://www.deviantart.com/_sisu/do/signin");
    assert_eq!(
        form_of(&request),
        vec![
            ("referer", "https://www.deviantart.com/"),
            ("csrf_token", "config-csrf"),
            ("username", "user"),
            ("password", "secret"),
            ("challenge", "0"),
            ("remember", "on"),
        ]
    );
}

#[test]
fn missing_tokens_are_named() {
    let missing = |name: &'static str| SignInAction::Fail(Error::MissingField { name });
    let step = sign_in_step(LoginFlow::TwoStep, SignInState::Anonymous, "u", "p", &page(None, Some("l"), None, false));
    assert_eq!((step.state, step.action), (SignInState::Failed, missing("csrfToken")));
    let step = sign_in_step(LoginFlow::TwoStep, SignInState::Anonymous, "u", "p", &page(Some("c"), None, None, false));
    assert_eq!((step.state, step.action), (SignInState::Failed, missing("luToken")));
    let state = SignInState::LoginPageFetched;
    let step = sign_in_step(LoginFlow::TwoStep, state, "u", "p", &page(None, None, None, false));
    assert_eq!((step.state, step.action), (SignInState::Failed, missing("csrfToken")));
    let step = sign_in_step(LoginFlow::TwoStep, state, "u", "p", &page(Some("c"), None, Some("l2"), false));
    assert_eq!((step.state, step.action), (SignInState::Failed, missing("luToken")));
    let step = sign_in_step(LoginFlow::TwoStep, state, "u", "p", &page(Some("c"), Some("l"), None, false));
    assert_eq!((step.state, step.action), (SignInState::Failed, missing("luToken2")));
}

#[test]
fn a_page_that_is_not_logged_in_fails_the_sign_in() {
    let answer = page(Some("c"), Some("l"), Some("l2"), false);
    let step = sign_in_step(LoginFlow::TwoStep, SignInState::PasswordStepSubmitted, "u", "p", &answer);
    assert_eq!(step.state, SignInState::Failed);
    assert_eq!(step.action, SignInAction::Fail(Error::SignInFailed));
    let again = sign_in_step(LoginFlow::TwoStep, step.state, "u", "p", &page(None, None, None, true));
    assert_eq!(again.state, SignInState::Failed);
    assert_eq!(again.action, SignInAction::Fail(Error::SignInFailed));
}

fn cookie(domain: Option<&str>, name: &str, path: Option<&str>, expired: bool) -> CookieRecord {
    CookieRecord {
        domain: domain.map(String::from),
        name: name.to_string(),
        path: path.map(String::from),
        expired,
    }
}

#[test]
fn expired_cookies_are_collected_in_order() {
    let cookies = vec![
        cookie(Some("deviantart.com"), "auth", Some("/"), true),
        cookie(Some("deviantart.com"), "userinfo", Some("/"), false),
        cookie(None, "td", None, true),
        cookie(Some("www.deviantart.com"), "auth_secure", None, true),
    ];
    let key = |domain: &str, name: &str, path: &str| CookieKey {
        domain: domain.to_string(),
        name: name.to_string(),
        path: path.to_string(),
    };
    assert_eq!(
        expired_cookie_keys(&cookies),
        vec![
            key("deviantart.com", "auth", "/"),
            key("", "td", ""),
            key("www.deviantart.com", "auth_secure", ""),
        ]
    );
    assert_eq!(expired_cookie_keys(&Vec::new()), Vec::new());
    assert_eq!(expired_cookie_keys(&cookies[1..2].to_vec()), Vec::new());
}
