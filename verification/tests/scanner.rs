use chumsky::prelude::{just, take_until, Simple};
use chumsky::text::digits;
use chumsky::Parser;
use jpdb_connect::parsing::{find_detail_url, find_vocab_id, has_login_prompt, NotFound};

#[test]
fn parse_detail_url_test() {
    let example = r#"href or whatever idc "/vocabulary/1259620/見事/みごと?lang=english#a""#;
    let parsed = find_detail_url(example, "見事", "みごと").unwrap();
    assert_eq!("/vocabulary/1259620/見事/みごと", parsed)
}

#[test]
fn parse_vocab_id_test() {
    let example = r#" asdfafsdas "/select_deck?v=1414580&amp;s=1406264136&amp;r=1437918808""#;
    let parsed = find_vocab_id(example).unwrap();
    assert_eq!("1437918808", parsed.r);
}

#[test]
fn detail_url_missing_is_not_found() {
    assert_eq!(find_detail_url("nothing here", "見事", "みごと"), Err(NotFound));
    assert_eq!(find_detail_url("", "見事", "みごと"), Err(NotFound));
}

#[test]
fn detail_url_ignores_surrounding_noise() {
    let bare = r#""/vocabulary/7/a/b"#;
    assert_eq!(find_detail_url(bare, "a", "b").unwrap(), "/vocabulary/7/a/b");
    let noisy = "<a href=\"/x\">\u{1F600}</a><a href=\"/vocabulary/7/a/b#top\">a</a>\"\"//";
    assert_eq!(find_detail_url(noisy, "a", "b").unwrap(), "/vocabulary/7/a/b");
}

#[test]
fn detail_url_takes_all_digits_of_the_id() {
    let body = r#"x "/vocabulary/0012345678901234567890/w/r" y"#;
    assert_eq!(
        find_detail_url(body, "w", "r").unwrap(),
        "/vocabulary/0012345678901234567890/w/r"
    );
}

#[test]
fn detail_url_first_match_wins() {
    let body = r#""/vocabulary/1/w/r" "/vocabulary/2/w/r""#;
    assert_eq!(find_detail_url(body, "w", "r").unwrap(), "/vocabulary/1/w/r");
    let other_first = r#""/vocabulary/1/other/r" "/vocabulary/2/w/r""#;
    assert_eq!(find_detail_url(other_first, "w", "r").unwrap(), "/vocabulary/2/w/r");
}

#[test]
fn detail_url_needs_quote_digits_and_exact_names() {
    assert_eq!(find_detail_url("/vocabulary/1/w/r", "w", "r"), Err(NotFound));
    assert_eq!(find_detail_url(r#""/vocabulary//w/r"#, "w", "r"), Err(NotFound));
    assert_eq!(find_detail_url(r#""/vocabulary/12a/w/r"#, "w", "r"), Err(NotFound));
    assert_eq!(find_detail_url(r#""/vocabulary/12/W/r"#, "w", "r"), Err(NotFound));
    assert_eq!(find_detail_url(r#""/vocabulary/12/w/"#, "w", "r"), Err(NotFound));
    assert_eq!(find_detail_url(r#"w r "/vocabulary/12/x/y" /w/r"#, "w", "r"), Err(NotFound));
    assert_eq!(find_detail_url(r#""/vocabulary/１２/w/r"#, "w", "r"), Err(NotFound));
}

#[test]
fn detail_url_with_empty_word_and_reading() {
    assert_eq!(find_detail_url(r#""/vocabulary/5//"#, "", "").unwrap(), "/vocabulary/5//");
}

#[test]
fn vocab_id_reads_all_three_numbers() {
    let example = r#" asdfafsdas "/select_deck?v=1414580&amp;s=1406264136&amp;r=1437918808""#;
    let id = find_vocab_id(example).unwrap();
    assert_eq!(id.v, "1414580");
    assert_eq!(id.s, "1406264136");
    assert_eq!(id.r, "1437918808");
}

#[test]
fn vocab_id_same_for_both_separators() {
    let entity = find_vocab_id("a/select_deck?v=1&amp;s=22&amp;r=333\"").unwrap();
    let plain = find_vocab_id("a/select_deck?v=1&s=22&r=333\"").unwrap();
    let mixed = find_vocab_id("a/select_deck?v=1&s=22&amp;r=333\"").unwrap();
    for id in [&entity, &plain, &mixed] {
        assert_eq!(id.v, "1");
        assert_eq!(id.s, "22");
        assert_eq!(id.r, "333");
    }
}

#[test]
fn vocab_id_missing_parts_is_not_found() {
    assert!(matches!(find_vocab_id(""), Err(NotFound)));
    assert!(matches!(find_vocab_id("/select_deck?v=1&amp;s=2"), Err(NotFound)));
    assert!(matches!(find_vocab_id("/select_deck?v=1&amp;r=3"), Err(NotFound)));
    assert!(matches!(find_vocab_id("/select_deck?s=2&amp;r=3"), Err(NotFound)));
    assert!(matches!(find_vocab_id("/select_deck?v=&amp;s=2&amp;r=3"), Err(NotFound)));
    assert!(matches!(find_vocab_id("/select_deck?v=1;s=2&amp;r=3"), Err(NotFound)));
    assert!(matches!(find_vocab_id("/select_deck?v=1&amp;amp;s=2&r=3"), Err(NotFound)));
    assert!(matches!(find_vocab_id("/select_deck?v=1&amp;s=2&amp;r="), Err(NotFound)));
}

#[test]
fn vocab_id_first_match_wins_and_last_run_is_greedy() {
    let body = "/select_deck?v=1&s=2&r=x /select_deck?v=4&s=5&r=678 /select_deck?v=7&s=8&r=9";
    let id = find_vocab_id(body).unwrap();
    assert_eq!((id.v.as_str(), id.s.as_str(), id.r.as_str()), ("4", "5", "678"));
}

#[test]
fn login_prompt_is_found_anywhere() {
    assert!(has_login_prompt("https://jpdb.io/login_with_google"));
    assert!(has_login_prompt("<a href=\"https://jpdb.io/login_with_google?x\">"));
    assert!(!has_login_prompt("https://jpdb.io/login_with_googl"));
    assert!(!has_login_prompt(""));
}

fn combinator_detail_url(body: &str, vocab: &str, reading: &str) -> Option<String> {
    take_until::<_>(
        just::<char, _, Simple<char>>('"')
            .ignore_then(just("/vocabulary/"))
            .then(digits(10))
            .then(just(format!("/{vocab}/{reading}")))
            .map(|((a, b), c): ((&str, String), String)| format!("{a}{b}{c}")),
    )
    .map(|(_a, b)| b)
    .parse(body)
    .ok()
}

fn combinator_vocab_id(body: &str) -> Option<(String, String, String)> {
    take_until::<_>(
        just::<char, _, Simple<char>>("/select_deck?v=")
            .ignore_then(digits(10))
            .then_ignore(just("&amp;").or(just("&")))
            .then_ignore(just("s="))
            .then(digits(10))
            .then_ignore(just("&amp;").or(just("&")))
            .then_ignore(just("r="))
            .then(digits(10))
            .map(|((v, s), r): ((String, String), String)| (v, s, r)),
    )
    .map(|(_a, b)| b)
    .parse(body)
    .ok()
}

#[test]
fn scanner_agrees_with_parser_combinators() {
    let details = [
        r#"href or whatever idc "/vocabulary/1259620/見事/みごと?lang=english#a""#,
        r#""/vocabulary/1/見事/みごと"#,
        r#""/vocabulary//見事/みごと"#,
        r#""/vocabulary/12"/vocabulary/34/見事/みごと"#,
        r#"""/vocabulary/5/見事/みご "/vocabulary/6/見事/みごと"#,
        r#"/vocabulary/7/見事/みごと"#,
        "",
        "\"",
    ];
    for body in details {
        assert_eq!(
            find_detail_url(body, "見事", "みごと").ok(),
            combinator_detail_url(body, "見事", "みごと"),
            "{body}"
        );
    }
    let ids = [
        r#" asdfafsdas "/select_deck?v=1414580&amp;s=1406264136&amp;r=1437918808""#,
        "/select_deck?v=1&s=2&r=3",
        "/select_deck?v=1&amp;s=2&r=345x",
        "/select_deck?v=1&amps=2&r=3",
        "/select_deck?v=1&&s=2&r=3",
        "/select_deck?v=1&s=2&r=/select_deck?v=4&s=5&r=6",
        "/select_deck?v=/select_deck?v=4&amp;s=5&amp;r=6",
        "",
    ];
    for body in ids {
        let ours = find_vocab_id(body).ok().map(|id| (id.v, id.s, id.r));
        assert_eq!(ours, combinator_vocab_id(body), "{body}");
    }
}
