use jpdb_connect::config::{classify_login, Cache, Config, LoginStatus, RateLimit};
use jpdb_connect::jpdb::{
    abs_url, form_request, get_request, post_request, search_path, Method, DOMAIN,
    FORM_CONTENT_TYPE, URL_PREFIX,
};
use jpdb_connect::text::decimal_string;

#[test]
fn abs_url_puts_scheme_and_host_in_front() {
    assert_eq!(URL_PREFIX, "https://");
    assert_eq!(DOMAIN, "jpdb.io");
    assert_eq!(abs_url("/deck?id=7"), "https://jpdb.io/deck?id=7");
    assert_eq!(abs_url(""), "https://jpdb.io");
}

#[test]
fn search_path_names_the_word() {
    assert_eq!(search_path("見事"), "/search?q=見事&lang=english#a");
    assert_eq!(
        abs_url(&search_path("見事")),
        "https://jpdb.io/search?q=見事&lang=english#a"
    );
}

#[test]
fn get_request_has_no_body() {
    let req = get_request("/vocabulary/1/a/b");
    assert_eq!(req.method, Method::Get);
    assert_eq!(req.url, "https://jpdb.io/vocabulary/1/a/b");
    assert_eq!(req.body, None);
    assert_eq!(req.content_type, None);
}

#[test]
fn post_request_carries_the_body_as_given() {
    let req = post_request("/prioritize", String::from("v=1&s=2"));
    assert_eq!(req.method, Method::Post);
    assert_eq!(req.url, "https://jpdb.io/prioritize");
    assert_eq!(req.body.as_deref(), Some("v=1&s=2"));
    assert_eq!(req.content_type.as_deref(), Some(FORM_CONTENT_TYPE));
    assert_eq!(FORM_CONTENT_TYPE, "application/x-www-form-urlencoded");
}

#[test]
fn form_request_encodes_fields_in_order() {
    let payload = vec![
        (String::from("v"), String::from("1414580")),
        (String::from("r"), String::from("1437918808")),
        (String::from("s"), String::from("1406264136")),
        (String::from("origin"), String::from("/vocabulary/1259620/見事/みごと")),
    ];
    let req = form_request("/deck/42/add", &payload).unwrap();
    assert_eq!(req.method, Method::Post);
    assert_eq!(req.url, "https://jpdb.io/deck/42/add");
    assert_eq!(
        req.body.as_deref(),
        Some(
            "v=1414580&r=1437918808&s=1406264136&origin=%2Fvocabulary%2F1259620%2F%E8%A6%8B%E4%BA%8B%2F%E3%81%BF%E3%81%94%E3%81%A8"
        )
    );
    assert_eq!(req.content_type.as_deref(), Some("application/x-www-form-urlencoded"));
}

#[test]
fn form_request_of_no_fields_is_empty() {
    let req = form_request("/x", &Vec::new()).unwrap();
    assert_eq!(req.body.as_deref(), Some(""));
    let spaced = form_request("/x", &vec![(String::from("a b"), String::from("c&d=e"))]).unwrap();
    assert_eq!(spaced.body.as_deref(), Some("a+b=c%26d%3De"));
}

#[test]
fn decimal_string_writes_numbers() {
    assert_eq!(decimal_string(0), "0");
    assert_eq!(decimal_string(7), "7");
    assert_eq!(decimal_string(10), "10");
    assert_eq!(decimal_string(1234), "1234");
    assert_eq!(decimal_string(u64::MAX), "18446744073709551615");
}

#[test]
fn config_new_has_everything_off() {
    let c = Config::new();
    assert!(c.session_id.is_none());
    assert!(!c.auto_open && c.auto_add.is_none() && !c.auto_forq && !c.auto_unlock);
    assert_eq!(c.rate_limit, RateLimit { count: 5, window_seconds: 3 });
    assert_eq!(c.concurrency_cap, 1);
    assert!(c.does_nothing());
    assert!(!c.any_login_or_detail_options());
    assert!(!c.any_mutating_action());
    assert_eq!(c.login_check_path(), None);
}

#[test]
fn any_login_or_detail_options_looks_at_each_flag() {
    let mut c = Config::new();
    c.auto_open = true;
    assert!(!c.any_login_or_detail_options());
    assert!(!c.does_nothing());
    for i in 0..6 {
        let mut c = Config::new();
        match i {
            0 => c.auto_add = Some(1),
            1 => c.auto_forq = true,
            2 => c.auto_unlock = true,
            3 => c.auto_forget = true,
            4 => c.add_mined_sentences = true,
            _ => c.add_custom_definition = true,
        }
        assert!(c.any_login_or_detail_options(), "flag {i}");
        assert_eq!(c.any_mutating_action(), i < 3, "flag {i}");
        assert!(!c.does_nothing());
    }
}

#[test]
fn login_check_path_depends_on_session_and_deck() {
    let mut c = Config::new();
    c.auto_add = Some(42);
    assert_eq!(c.login_check_path(), None);
    c.session_id = Some(String::from("abc"));
    assert_eq!(c.login_check_path().as_deref(), Some("/deck?id=42"));
    c.auto_add = None;
    assert_eq!(c.login_check_path(), None);
    c.auto_forget = true;
    assert_eq!(c.login_check_path().as_deref(), Some("/"));
}

#[test]
fn classify_login_by_status_and_prompt() {
    assert_eq!(classify_login(200, false), LoginStatus::LoginOk);
    assert_eq!(classify_login(200, true), LoginStatus::InvalidSession);
    assert_eq!(classify_login(300, false), LoginStatus::InvalidSession);
    assert_eq!(classify_login(302, true), LoginStatus::InvalidSession);
    assert_eq!(classify_login(399, false), LoginStatus::InvalidSession);
    assert_eq!(classify_login(404, false), LoginStatus::TargetNotFound);
    assert_eq!(classify_login(404, true), LoginStatus::TargetNotFound);
    assert_eq!(classify_login(400, false), LoginStatus::UnexpectedStatus(400));
    assert_eq!(classify_login(201, false), LoginStatus::UnexpectedStatus(201));
    assert_eq!(classify_login(299, true), LoginStatus::UnexpectedStatus(299));
    assert_eq!(classify_login(500, true), LoginStatus::UnexpectedStatus(500));
    assert_eq!(classify_login(0, false), LoginStatus::UnexpectedStatus(0));
}

#[test]
fn login_status_messages() {
    assert_eq!(LoginStatus::LoginOk.message(), "Login successful.");
    assert_eq!(
        LoginStatus::InvalidSession.message(),
        "Your sessionid is invalid. Update it to the one you currently use in your browser and try again."
    );
    assert_eq!(
        LoginStatus::TargetNotFound.message(),
        "Your sessionid is invalid or the deck you are trying to add to does not exist."
    );
    assert_eq!(LoginStatus::UnexpectedStatus(503).message(), "Unhandled status code 503.");
}

#[test]
fn cache_keeps_the_last_address() {
    let mut cache = Cache::new();
    assert_eq!(cache.get(), None);
    cache.set(String::from("https://jpdb.io/a"));
    cache.set(String::from("https://jpdb.io/b"));
    assert_eq!(cache.get().as_deref(), Some("https://jpdb.io/b"));
}
