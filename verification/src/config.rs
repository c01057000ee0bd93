//! Settings that the workflow reads, the cell that remembers the last page
//! shown, and the verdict on a session check.

use crate::text::{decimal, decimal_string, opt_text};
use vstd::prelude::*;
use vstd::string::StringExecFns;

verus! {

/// At most `count` requests are let through per window of `window_seconds`.
#[derive(Debug, Clone, Copy, PartialEq, Eq, Structural)]
pub struct RateLimit {
    pub count: u64,
    pub window_seconds: u64,
}

/// Read-only settings for one run of the program.
#[derive(Debug, Clone)]
pub struct Config {
    /// Session cookie of a logged-in browser, if the user gave one.
    pub session_id: Option<String>,
    /// Show the card's page in the browser after a lookup.
    pub auto_open: bool,
    /// Deck to which looked-up cards are added.
    pub auto_add: Option<u64>,
    /// Move looked-up cards to the front of the review queue.
    pub auto_forq: bool,
    /// Unlock looked-up cards.
    pub auto_unlock: bool,
    pub auto_forget: bool,
    pub add_mined_sentences: bool,
    pub add_custom_definition: bool,
    /// Port of the local front end.
    pub port: Option<u16>,
    /// Address of the local front end.
    pub ip: Option<String>,
    /// Budget of requests to the site per window of time.
    pub rate_limit: RateLimit,
    /// Number of requests that may be under way at once.
    pub concurrency_cap: u64,
}

/// Mathematical value of a `Config`.
pub struct ConfigView {
    pub session_id: Option<Seq<char>>,
    pub auto_open: bool,
    pub auto_add: Option<u64>,
    pub auto_forq: bool,
    pub auto_unlock: bool,
    pub auto_forget: bool,
    pub add_mined_sentences: bool,
    pub add_custom_definition: bool,
    pub port: Option<u16>,
    pub ip: Option<Seq<char>>,
    pub rate_limit: RateLimit,
    pub concurrency_cap: u64,
}

impl View for Config {
    type V = ConfigView;

    open spec fn view(&self) -> ConfigView {
        ConfigView {
            session_id: opt_text(self.session_id),
            auto_open: self.auto_open,
            auto_add: self.auto_add,
            auto_forq: self.auto_forq,
            auto_unlock: self.auto_unlock,
            auto_forget: self.auto_forget,
            add_mined_sentences: self.add_mined_sentences,
            add_custom_definition: self.add_custom_definition,
            port: self.port,
            ip: opt_text(self.ip),
            rate_limit: self.rate_limit,
            concurrency_cap: self.concurrency_cap,
        }
    }
}

impl ConfigView {
    /// Some option is on that needs a logged-in user and the card's detail
    /// page.
    pub open spec fn any_login_or_detail_options(self) -> bool {
        self.auto_add is Some || self.auto_forq || self.auto_unlock || self.auto_forget
            || self.add_mined_sentences || self.add_custom_definition
    }

    /// Some option is on that changes the card's state on the site.
    pub open spec fn any_mutating_action(self) -> bool {
        self.auto_add is Some || self.auto_forq || self.auto_unlock
    }

    /// With these settings a lookup has no effect at all.
    pub open spec fn does_nothing(self) -> bool {
        !self.auto_open && !self.any_login_or_detail_options()
    }

    /// Path of the page that shows whether the session is valid, if the
    /// settings call for that check: the deck that cards are added to, or the
    /// front page.
    pub open spec fn login_check_path(self) -> Option<Seq<char>> {
        if self.session_id is Some && self.any_login_or_detail_options() {
            match self.auto_add {
                Some(deck_id) => Some("/deck?id="@ + decimal(deck_id as nat)),
                None => Some("/"@),
            }
        } else {
            None
        }
    }
}

impl Config {
    /// Settings with every option off and the site's usual request budget:
    /// five requests per three seconds, one at a time.
    pub fn new() -> (c: Config)
        ensures
            c@ == (ConfigView {
                session_id: None,
                auto_open: false,
                auto_add: None,
                auto_forq: false,
                auto_unlock: false,
                auto_forget: false,
                add_mined_sentences: false,
                add_custom_definition: false,
                port: None,
                ip: None,
                rate_limit: RateLimit { count: 5, window_seconds: 3 },
                concurrency_cap: 1,
            }),
    {
        Config {
            session_id: None,
            auto_open: false,
            auto_add: None,
            auto_forq: false,
            auto_unlock: false,
            auto_forget: false,
            add_mined_sentences: false,
            add_custom_definition: false,
            port: None,
            ip: None,
            rate_limit: RateLimit { count: 5, window_seconds: 3 },
            concurrency_cap: 1,
        }
    }

    /// True if any option is on that needs the user to be logged in and the
    /// card's detail page.
    pub fn any_login_or_detail_options(&self) -> (r: bool)
        ensures
            r == self@.any_login_or_detail_options(),
    {
        self.auto_add.is_some() || self.auto_forq || self.auto_unlock || self.auto_forget
            || self.add_mined_sentences || self.add_custom_definition
    }

    /// True if any option is on that changes the card's state on the site.
    pub fn any_mutating_action(&self) -> (r: bool)
        ensures
            r == self@.any_mutating_action(),
    {
        self.auto_add.is_some() || self.auto_forq || self.auto_unlock
    }

    /// True if a lookup has no effect with these settings.
    pub fn does_nothing(&self) -> (r: bool)
        ensures
            r == self@.does_nothing(),
    {
        !self.auto_open && !self.any_login_or_detail_options()
    }

    /// Path of the page to fetch at start-up to see whether the session is
    /// valid; `None` when no session was given or no option needs one.
    pub fn login_check_path(&self) -> (r: Option<String>)
        ensures
            opt_text(r) == self@.login_check_path(),
    {
        if self.session_id.is_some() && self.any_login_or_detail_options() {
            match self.auto_add {
                Some(deck_id) => {
                    let mut path = String::from_str("/deck?id=");
                    path.append(decimal_string(deck_id).as_str());
                    Some(path)
                },
                None => Some(String::from_str("/")),
            }
        } else {
            None
        }
    }
}

/// Remembers the page that the last completed lookup resolved to, for a later
/// request to show it in the browser.
#[derive(Debug)]
pub struct Cache {
    pub last_open: Option<String>,
}

impl Cache {
    /// A cell that holds nothing yet.
    pub fn new() -> (c: Cache)
        ensures
            c.last_open is None,
    {
        Cache { last_open: None }
    }

    /// Stores `url` in place of what was there.
    pub fn set(&mut self, url: String)
        ensures
            final(self).last_open == Some(url),
    {
        self.last_open = Some(url);
    }

    /// The address stored last, if any.
    pub fn get(&self) -> (r: Option<String>)
        ensures
            opt_text(r) == opt_text(self.last_open),
    {
        match &self.last_open {
            Some(url) => Some(url.clone()),
            None => None,
        }
    }
}

/// Verdict of the start-up check of the session.
#[derive(Debug, Clone, Copy, PartialEq, Eq, Structural)]
pub enum LoginStatus {
    /// The page came back as for a logged-in user.
    LoginOk,
    /// The site asked to sign in, or sent the visitor elsewhere.
    InvalidSession,
    /// The page does not exist: the session is invalid or the deck is not
    /// there.
    TargetNotFound,
    /// Any other answer, with its status code.
    UnexpectedStatus(u16),
}

/// The verdict for an answer with the given status code, on a page that does
/// or does not carry the sign-in prompt.
pub open spec fn login_status(status: u16, login_prompt: bool) -> LoginStatus {
    if status == 200 {
        if login_prompt {
            LoginStatus::InvalidSession
        } else {
            LoginStatus::LoginOk
        }
    } else if 300 <= status <= 399 {
        LoginStatus::InvalidSession
    } else if status == 404 {
        LoginStatus::TargetNotFound
    } else {
        LoginStatus::UnexpectedStatus(status)
    }
}

/// Judges the answer to the session check from its status code and from
/// whether its body carries the sign-in prompt.
pub fn classify_login(status: u16, login_prompt: bool) -> (r: LoginStatus)
    ensures
        r == login_status(status, login_prompt),
{
    if status == 200 {
        if login_prompt {
            LoginStatus::InvalidSession
        } else {
            LoginStatus::LoginOk
        }
    } else if 300 <= status && status <= 399 {
        LoginStatus::InvalidSession
    } else if status == 404 {
        LoginStatus::TargetNotFound
    } else {
        LoginStatus::UnexpectedStatus(status)
    }
}

impl LoginStatus {
    /// What to tell the user about this verdict.
    pub open spec fn message_text(self) -> Seq<char> {
        match self {
            LoginStatus::LoginOk => "Login successful."@,
            LoginStatus::InvalidSession => "Your sessionid is invalid. Update it to the one you currently use in your browser and try again."@,
            LoginStatus::TargetNotFound => "Your sessionid is invalid or the deck you are trying to add to does not exist."@,
            LoginStatus::UnexpectedStatus(code) => "Unhandled status code "@ + decimal(code as nat)
                + "."@,
        }
    }

    /// What to tell the user about this verdict.
    pub fn message(&self) -> (s: String)
        ensures
            s@ == self.message_text(),
    {
        match self {
            LoginStatus::LoginOk => String::from_str("Login successful."),
            LoginStatus::InvalidSession => String::from_str(
                "Your sessionid is invalid. Update it to the one you currently use in your browser and try again.",
            ),
            LoginStatus::TargetNotFound => String::from_str(
                "Your sessionid is invalid or the deck you are trying to add to does not exist.",
            ),
            LoginStatus::UnexpectedStatus(code) => {
                let mut s = String::from_str("Unhandled status code ");
                s.append(decimal_string(*code as u64).as_str());
                s.append(".");
                s
            },
        }
    }
}

} // verus!
