//! Landmark scanner: finds a card's detail path and its numeric identifiers in
//! raw page text by matching fixed anchor strings, without building a document
//! model.
//!
//! Every scan walks the body from the front and reports the first position at
//! which the whole landmark matches. Digits are ASCII `0`-`9` and a run of them
//! is always taken to its full length.

use crate::text::{
    all_digits, chars_of, contains, count_digits, digit_run, extend_chars, has_at, is_digit,
    lemma_digit_run, lemma_digit_run_is, matches_at,
};
use vstd::prelude::*;
use vstd::string::StringExecFns;
use vstd::string::StrSliceExecFns;

verus! {

/// The scanner did not find its landmark anywhere in the body.
#[derive(Debug, Clone, Copy, PartialEq, Eq, Structural)]
pub struct NotFound;

/// The three numeric identifiers that the site needs to change a card's state.
#[derive(Debug)]
pub struct VocabId {
    pub v: String,
    pub s: String,
    pub r: String,
}

/// Mathematical value of a `VocabId`.
pub struct VocabIdView {
    pub v: Seq<char>,
    pub s: Seq<char>,
    pub r: Seq<char>,
}

impl View for VocabId {
    type V = VocabIdView;

    open spec fn view(&self) -> VocabIdView {
        VocabIdView { v: self.v@, s: self.s@, r: self.r@ }
    }
}

/// Address of the site's sign-in redirect; a page that carries it was served
/// to a visitor who is not logged in.
pub open spec fn login_prompt() -> Seq<char> {
    "https://jpdb.io/login_with_google"@
}

/// Anchor that opens a detail path.
pub open spec fn vocabulary_prefix() -> Seq<char> {
    "/vocabulary/"@
}

/// Anchor that opens the identifier triple.
pub open spec fn select_deck_prefix() -> Seq<char> {
    "/select_deck?v="@
}

/// What follows the card's public id in a detail path: `/word/reading`.
pub open spec fn detail_tail(word: Seq<char>, reading: Seq<char>) -> Seq<char> {
    seq!['/'] + word + seq!['/'] + reading
}

/// The detail path whose landmark starts at index `at` of `body`, if the
/// landmark matches there: a double quote, `/vocabulary/`, one or more digits,
/// then `/word/reading`. The path leaves out the quote.
pub open spec fn detail_path_at(
    body: Seq<char>,
    at: int,
    word: Seq<char>,
    reading: Seq<char>,
) -> Option<Seq<char>> {
    let p0 = at + 1;
    let p1 = p0 + vocabulary_prefix().len();
    let p2 = p1 + digit_run(body, p1);
    let tail = detail_tail(word, reading);
    if has_at(body, at, seq!['"']) && has_at(body, p0, vocabulary_prefix()) && p2 > p1 && has_at(
        body,
        p2,
        tail,
    ) {
        Some(vocabulary_prefix() + body.subrange(p1, p2) + tail)
    } else {
        None
    }
}

/// The detail landmark matches at `at` and at no earlier index.
pub open spec fn is_first_detail_match(
    body: Seq<char>,
    at: int,
    word: Seq<char>,
    reading: Seq<char>,
) -> bool {
    &&& detail_path_at(body, at, word, reading) is Some
    &&& forall|j: int| 0 <= j < at ==> detail_path_at(body, j, word, reading) is None
}

/// The detail path of the first landmark match in `body`, or `None` when the
/// landmark matches nowhere.
pub open spec fn detail_url(body: Seq<char>, word: Seq<char>, reading: Seq<char>) -> Option<
    Seq<char>,
> {
    if exists|at: int| is_first_detail_match(body, at, word, reading) {
        detail_path_at(
            body,
            choose|at: int| is_first_detail_match(body, at, word, reading),
            word,
            reading,
        )
    } else {
        None
    }
}

/// Index just past a separator that starts at `at`: `&amp;` if it is there,
/// else a bare `&`.
pub open spec fn after_separator(body: Seq<char>, at: int) -> Option<int> {
    if has_at(body, at, "&amp;"@) {
        Some(at + "&amp;"@.len())
    } else if has_at(body, at, "&"@) {
        Some(at + "&"@.len())
    } else {
        None
    }
}

/// Bounds of the digits of a field that starts at `at`: a separator, the
/// field's `key`, then one or more digits.
pub open spec fn keyed_digits_at(body: Seq<char>, at: int, key: Seq<char>) -> Option<(int, int)> {
    match after_separator(body, at) {
        Some(k) => {
            let d0 = k + key.len();
            let d1 = d0 + digit_run(body, d0);
            if has_at(body, k, key) && d1 > d0 {
                Some((d0, d1))
            } else {
                None
            }
        },
        None => None,
    }
}

/// The identifier triple whose landmark starts at index `at` of `body`, if the
/// landmark matches there: `/select_deck?v=`, digits, a separator, `s=`,
/// digits, a separator, `r=`, digits.
pub open spec fn vocab_id_at(body: Seq<char>, at: int) -> Option<VocabIdView> {
    let v0 = at + select_deck_prefix().len();
    let v1 = v0 + digit_run(body, v0);
    if has_at(body, at, select_deck_prefix()) && v1 > v0 {
        match keyed_digits_at(body, v1, "s="@) {
            Some((s0, s1)) => match keyed_digits_at(body, s1, "r="@) {
                Some((r0, r1)) => Some(
                    VocabIdView {
                        v: body.subrange(v0, v1),
                        s: body.subrange(s0, s1),
                        r: body.subrange(r0, r1),
                    },
                ),
                None => None,
            },
            None => None,
        }
    } else {
        None
    }
}

/// The identifier landmark matches at `at` and at no earlier index.
pub open spec fn is_first_vocab_id_match(body: Seq<char>, at: int) -> bool {
    &&& vocab_id_at(body, at) is Some
    &&& forall|j: int| 0 <= j < at ==> vocab_id_at(body, j) is None
}

/// The identifier triple of the first landmark match in `body`, or `None`
/// when the landmark matches nowhere.
pub open spec fn vocab_id(body: Seq<char>) -> Option<VocabIdView> {
    if exists|at: int| is_first_vocab_id_match(body, at) {
        vocab_id_at(body, choose|at: int| is_first_vocab_id_match(body, at))
    } else {
        None
    }
}

/// A first match fixes the scan's result.
pub proof fn lemma_first_detail_match(
    body: Seq<char>,
    at: int,
    word: Seq<char>,
    reading: Seq<char>,
)
    requires
        is_first_detail_match(body, at, word, reading),
    ensures
        detail_url(body, word, reading) == detail_path_at(body, at, word, reading),
{
    let c = choose|a: int| is_first_detail_match(body, a, word, reading);
    assert(is_first_detail_match(body, c, word, reading));
    if c < at {
        assert(detail_path_at(body, c, word, reading) is None);
    } else if at < c {
        assert(detail_path_at(body, at, word, reading) is None);
    }
}

/// A first match fixes the scan's result.
pub proof fn lemma_first_vocab_id_match(body: Seq<char>, at: int)
    requires
        is_first_vocab_id_match(body, at),
    ensures
        vocab_id(body) == vocab_id_at(body, at),
{
    let c = choose|a: int| is_first_vocab_id_match(body, a);
    assert(is_first_vocab_id_match(body, c));
    if c < at {
        assert(vocab_id_at(body, c) is None);
    } else if at < c {
        assert(vocab_id_at(body, at) is None);
    }
}

/// Tells whether the body carries the site's sign-in redirect address.
pub fn has_login_prompt(body: &str) -> (r: bool)
    ensures
        r == contains(body@, login_prompt()),
{
    let b = chars_of(body);
    let pat = chars_of("https://jpdb.io/login_with_google");
    let mut i: usize = 0;
    while i < b.len()
        invariant
            i <= b.len(),
            b@ == body@,
            pat@ == login_prompt(),
            forall|j: int| 0 <= j < i ==> !has_at(b@, j, pat@),
        decreases b.len() - i,
    {
        if matches_at(&b, i, &pat) {
            return true;
        }
        i += 1;
    }
    matches_at(&b, i, &pat)
}

/// Bounds of the digits of the detail landmark that starts at `at` and ends
/// in `tail`, if it matches there.
spec fn detail_digits_at(body: Seq<char>, at: int, tail: Seq<char>) -> Option<(int, int)> {
    let p1 = at + 1 + vocabulary_prefix().len();
    let p2 = p1 + digit_run(body, p1);
    if has_at(body, at, seq!['"']) && has_at(body, at + 1, vocabulary_prefix()) && p2 > p1
        && has_at(body, p2, tail) {
        Some((p1, p2))
    } else {
        None
    }
}

/// Bounds of the digits of the detail landmark that starts at `at`, if it
/// matches there.
fn detail_end_at(
    b: &Vec<char>,
    at: usize,
    quote: &Vec<char>,
    prefix: &Vec<char>,
    tail: &Vec<char>,
) -> (r: Option<(usize, usize)>)
    requires
        quote@ == seq!['"'],
        prefix@ == vocabulary_prefix(),
    ensures
        r matches Some((p1, p2)) ==> detail_digits_at(b@, at as int, tail@) == Some(
            (p1 as int, p2 as int),
        ) && p2 + tail.len() <= b.len(),
        r is None ==> detail_digits_at(b@, at as int, tail@) is None,
{
    if !matches_at(b, at, quote) {
        return None;
    }
    let p0 = at + 1;
    if !matches_at(b, p0, prefix) {
        return None;
    }
    let p1 = p0 + prefix.len();
    let n = count_digits(b, p1);
    if n == 0 {
        return None;
    }
    let p2 = p1 + n;
    if !matches_at(b, p2, tail) {
        return None;
    }
    Some((p1, p2))
}

/// Finds the detail path of the card `vocab` with the given `reading` in the
/// body of a search result page.
///
/// The path is `/vocabulary/<id>/<vocab>/<reading>`, taken from the first place
/// where it stands in the body right behind a double quote; `<id>` is a run of
/// one or more digits. The comparison is exact, character by character.
pub fn find_detail_url(body: &str, vocab: &str, reading: &str) -> (result: Result<String, NotFound>)
    ensures
        result is Ok <==> detail_url(body@, vocab@, reading@) is Some,
        result matches Ok(path) ==> detail_url(body@, vocab@, reading@) == Some(path@),
        result is Err <==> forall|at: int| detail_path_at(body@, at, vocab@, reading@) is None,
{
    let b = chars_of(body);
    let mut quote: Vec<char> = Vec::new();
    quote.push('"');
    assert(quote@ =~= seq!['"']);
    let prefix = chars_of("/vocabulary/");
    let mut tail: Vec<char> = Vec::new();
    tail.push('/');
    extend_chars(&mut tail, &chars_of(vocab));
    tail.push('/');
    extend_chars(&mut tail, &chars_of(reading));
    assert(tail@ =~= detail_tail(vocab@, reading@));

    let mut i: usize = 0;
    while i < b.len()
        invariant
            i <= b.len(),
            b@ == body@,
            quote@ == seq!['"'],
            prefix@ == vocabulary_prefix(),
            tail@ == detail_tail(vocab@, reading@),
            forall|j: int| 0 <= j < i ==> detail_path_at(b@, j, vocab@, reading@) is None,
        decreases b.len() - i,
    {
        match detail_end_at(&b, i, &quote, &prefix, &tail) {
            Some((p1, p2)) => {
                let end = p2 + tail.len();
                let path = body.substring_char(i + 1, end);
                proof {
                    assert(is_first_detail_match(b@, i as int, vocab@, reading@));
                    lemma_first_detail_match(b@, i as int, vocab@, reading@);
                    assert(b@.subrange(i + 1, end as int) =~= vocabulary_prefix() + b@.subrange(
                        p1 as int,
                        p2 as int,
                    ) + tail@);
                }
                return Ok(String::from_str(path));
            },
            None => {},
        }
        i += 1;
    }
    proof {
        assert forall|at: int| detail_path_at(b@, at, vocab@, reading@) is None by {
            if at >= b.len() {
                assert(!has_at(b@, at, seq!['"']));
            }
        }
    }
    Err(NotFound)
}

/// The fixed strings of the identifier landmark, as characters.
struct IdAnchors {
    select_deck: Vec<char>,
    amp_entity: Vec<char>,
    amp: Vec<char>,
    s_key: Vec<char>,
    r_key: Vec<char>,
}

impl IdAnchors {
    spec fn wf(&self) -> bool {
        &&& self.select_deck@ == select_deck_prefix()
        &&& self.amp_entity@ == "&amp;"@
        &&& self.amp@ == "&"@
        &&& self.s_key@ == "s="@
        &&& self.r_key@ == "r="@
    }

    fn new() -> (a: IdAnchors)
        ensures
            a.wf(),
    {
        IdAnchors {
            select_deck: chars_of("/select_deck?v="),
            amp_entity: chars_of("&amp;"),
            amp: chars_of("&"),
            s_key: chars_of("s="),
            r_key: chars_of("r="),
        }
    }
}

/// Index just past the separator that starts at `at`, if one does.
fn separator_end(b: &Vec<char>, at: usize, anchors: &IdAnchors) -> (r: Option<usize>)
    requires
        anchors.wf(),
    ensures
        r matches Some(k) ==> after_separator(b@, at as int) == Some(k as int) && k <= b.len(),
        r is None ==> after_separator(b@, at as int) is None,
{
    if matches_at(b, at, &anchors.amp_entity) {
        Some(at + anchors.amp_entity.len())
    } else if matches_at(b, at, &anchors.amp) {
        Some(at + anchors.amp.len())
    } else {
        None
    }
}

/// Bounds of the digits of the field with the given key that starts with a
/// separator at `at`, if there is one.
fn keyed_digits(
    b: &Vec<char>,
    at: usize,
    key: &Vec<char>,
    anchors: &IdAnchors,
) -> (r: Option<(usize, usize)>)
    requires
        anchors.wf(),
    ensures
        r matches Some((d0, d1)) ==> keyed_digits_at(b@, at as int, key@) == Some(
            (d0 as int, d1 as int),
        ) && d0 <= d1 <= b.len(),
        r is None ==> keyed_digits_at(b@, at as int, key@) is None,
{
    match separator_end(b, at, anchors) {
        Some(k) => {
            if !matches_at(b, k, key) {
                return None;
            }
            let d0 = k + key.len();
            let n = count_digits(b, d0);
            if n == 0 {
                return None;
            }
            Some((d0, d0 + n))
        },
        None => None,
    }
}

/// Bounds of the three digit runs of the identifier landmark that starts at
/// `at`, if it matches there.
fn vocab_id_bounds_at(
    b: &Vec<char>,
    at: usize,
    anchors: &IdAnchors,
) -> (r: Option<((usize, usize), (usize, usize), (usize, usize))>)
    requires
        anchors.wf(),
    ensures
        r matches Some((v, s, r)) ==> {
            &&& v.0 <= v.1 <= b.len()
            &&& s.0 <= s.1 <= b.len()
            &&& r.0 <= r.1 <= b.len()
            &&& vocab_id_at(b@, at as int) == Some(
                VocabIdView {
                    v: b@.subrange(v.0 as int, v.1 as int),
                    s: b@.subrange(s.0 as int, s.1 as int),
                    r: b@.subrange(r.0 as int, r.1 as int),
                },
            )
        },
        r is None ==> vocab_id_at(b@, at as int) is None,
{
    if !matches_at(b, at, &anchors.select_deck) {
        return None;
    }
    let v0 = at + anchors.select_deck.len();
    let n = count_digits(b, v0);
    if n == 0 {
        return None;
    }
    let v1 = v0 + n;
    match keyed_digits(b, v1, &anchors.s_key, anchors) {
        Some((s0, s1)) => match keyed_digits(b, s1, &anchors.r_key, anchors) {
            Some((r0, r1)) => Some(((v0, v1), (s0, s1), (r0, r1))),
            None => None,
        },
        None => None,
    }
}

/// Finds the identifier triple of a card in the body of its detail page.
///
/// The triple is read from the first place where `/select_deck?v=<v>`,
/// `s=<s>` and `r=<r>` follow one another, joined by `&amp;` or by a bare `&`;
/// each of `<v>`, `<s>`, `<r>` is a run of one or more digits.
pub fn find_vocab_id(body: &str) -> (result: Result<VocabId, NotFound>)
    ensures
        result is Ok <==> vocab_id(body@) is Some,
        result matches Ok(id) ==> vocab_id(body@) == Some(id@),
        result is Err <==> forall|at: int| vocab_id_at(body@, at) is None,
{
    let b = chars_of(body);
    let anchors = IdAnchors::new();
    let mut i: usize = 0;
    while i < b.len()
        invariant
            i <= b.len(),
            b@ == body@,
            anchors.wf(),
            forall|j: int| 0 <= j < i ==> vocab_id_at(b@, j) is None,
        decreases b.len() - i,
    {
        match vocab_id_bounds_at(&b, i, &anchors) {
            Some((v, s, r)) => {
                proof {
                    assert(is_first_vocab_id_match(b@, i as int));
                    lemma_first_vocab_id_match(b@, i as int);
                }
                let id = VocabId {
                    v: String::from_str(body.substring_char(v.0, v.1)),
                    s: String::from_str(body.substring_char(s.0, s.1)),
                    r: String::from_str(body.substring_char(r.0, r.1)),
                };
                return Ok(id);
            },
            None => {},
        }
        i += 1;
    }
    proof {
        assert forall|at: int| vocab_id_at(b@, at) is None by {
            if at >= b.len() {
                assert(!has_at(b@, at, select_deck_prefix())) by {
                    reveal_strlit("/select_deck?v=");
                }
            }
        }
    }
    Err(NotFound)
}

/// Where the detail landmark matches at some index, it has a first match at
/// or before that index.
pub proof fn lemma_first_detail_match_exists(
    body: Seq<char>,
    at: int,
    word: Seq<char>,
    reading: Seq<char>,
) -> (first: int)
    requires
        detail_path_at(body, at, word, reading) is Some,
    ensures
        0 <= first <= at,
        is_first_detail_match(body, first, word, reading),
        detail_url(body, word, reading) == detail_path_at(body, first, word, reading),
    decreases at,
{
    if forall|j: int| 0 <= j < at ==> detail_path_at(body, j, word, reading) is None {
        lemma_first_detail_match(body, at, word, reading);
        at
    } else {
        let j = choose|j: int| 0 <= j < at && detail_path_at(body, j, word, reading) is Some;
        lemma_first_detail_match_exists(body, j, word, reading)
    }
}

/// The scan finds the detail path in any surroundings: a body made of
/// arbitrary text, a double quote, `/vocabulary/`, the digits `id`,
/// `/word/reading`, and arbitrary text again holds the landmark right behind
/// the leading text, so the scan reports a path. Unless the landmark already
/// matches somewhere in the leading text, the path reported is
/// `/vocabulary/<id>/<word>/<reading>`.
pub proof fn lemma_detail_url_ignores_noise(
    prefix: Seq<char>,
    id: Seq<char>,
    word: Seq<char>,
    reading: Seq<char>,
    suffix: Seq<char>,
)
    requires
        id.len() > 0,
        all_digits(id),
    ensures
        ({
            let path = vocabulary_prefix() + id + detail_tail(word, reading);
            let body = prefix + seq!['"'] + path + suffix;
            &&& detail_path_at(body, prefix.len() as int, word, reading) == Some(path)
            &&& detail_url(body, word, reading) is Some
            &&& (forall|j: int|
                0 <= j < prefix.len() ==> detail_path_at(body, j, word, reading) is None)
                ==> detail_url(body, word, reading) == Some(path)
        }),
{
    let tail = detail_tail(word, reading);
    let path = vocabulary_prefix() + id + tail;
    let body = prefix + seq!['"'] + path + suffix;
    let at = prefix.len() as int;
    let p0 = at + 1;
    let p1 = p0 + vocabulary_prefix().len();
    let p2 = p1 + id.len();
    assert(body.subrange(at, at + 1) =~= seq!['"']);
    assert(body.subrange(p0, p1) =~= vocabulary_prefix());
    assert(body.subrange(p1, p2) =~= id);
    assert(body.subrange(p2, p2 + tail.len()) =~= tail);
    assert forall|i: int| p1 <= i < p2 implies is_digit(#[trigger] body[i]) by {
        assert(body[i] == id[i - p1]);
    }
    assert(body[p2] == tail[0]);
    assert(tail[0] == '/');
    lemma_digit_run_is(body, p1, id.len());
    assert(detail_path_at(body, at, word, reading) == Some(path));
    let first = lemma_first_detail_match_exists(body, at, word, reading);
    if forall|j: int| 0 <= j < prefix.len() ==> detail_path_at(body, j, word, reading) is None {
        assert(first == at);
    }
}

/// `/vocabulary/`, then `digits` digits, then `/word/reading` stand in `body`
/// from index `at` on.
pub open spec fn detail_landmark_at(
    body: Seq<char>,
    at: int,
    digits: nat,
    word: Seq<char>,
    reading: Seq<char>,
) -> bool {
    let p1 = at + vocabulary_prefix().len();
    &&& has_at(body, at, vocabulary_prefix())
    &&& digits > 0
    &&& p1 + digits <= body.len()
    &&& forall|i: int| p1 <= i < p1 + digits ==> is_digit(#[trigger] body[i])
    &&& has_at(body, p1 + digits, detail_tail(word, reading))
}

/// A body in which `/vocabulary/`, digits and `/word/reading` nowhere follow
/// one another holds no detail path, wherever else the word and the reading
/// may stand in it.
pub proof fn lemma_detail_url_needs_landmark(body: Seq<char>, word: Seq<char>, reading: Seq<char>)
    requires
        forall|at: int, digits: nat| !detail_landmark_at(body, at, digits, word, reading),
    ensures
        detail_url(body, word, reading) is None,
{
    if detail_url(body, word, reading) is Some {
        let c = choose|at: int| is_first_detail_match(body, at, word, reading);
        let p1 = c + 1 + vocabulary_prefix().len();
        lemma_digit_run(body, p1);
        assert(detail_landmark_at(body, c + 1, digit_run(body, p1), word, reading));
    }
}

/// Where the identifier landmark matches at some index, it has a first match
/// at or before that index.
pub proof fn lemma_first_vocab_id_match_exists(body: Seq<char>, at: int) -> (first: int)
    requires
        vocab_id_at(body, at) is Some,
    ensures
        0 <= first <= at,
        is_first_vocab_id_match(body, first),
        vocab_id(body) == vocab_id_at(body, first),
    decreases at,
{
    if forall|j: int| 0 <= j < at ==> vocab_id_at(body, j) is None {
        lemma_first_vocab_id_match(body, at);
        at
    } else {
        let j = choose|j: int| 0 <= j < at && vocab_id_at(body, j) is Some;
        lemma_first_vocab_id_match_exists(body, j)
    }
}

/// A body that lacks one of `v=`, `s=` and `r=` holds no identifier triple.
#[verifier::rlimit(50)]
pub proof fn lemma_vocab_id_needs_keys(body: Seq<char>)
    requires
        !contains(body, "v="@) || !contains(body, "s="@) || !contains(body, "r="@),
    ensures
        vocab_id(body) is None,
{
    if vocab_id(body) is Some {
        let c = choose|at: int| is_first_vocab_id_match(body, at);
        reveal_strlit("/select_deck?v=");
        reveal_strlit("v=");
        let v0 = c + select_deck_prefix().len();
        let v1 = v0 + digit_run(body, v0);
        assert(body.subrange(v0 - 2, v0) =~= "v="@) by {
            assert(body.subrange(c, v0) == select_deck_prefix());
            assert(body.subrange(v0 - 2, v0)[0] == body.subrange(c, v0)[13]);
            assert(body.subrange(v0 - 2, v0)[1] == body.subrange(c, v0)[14]);
        }
        assert(has_at(body, v0 - 2, "v="@));
        let (s0, s1) = keyed_digits_at(body, v1, "s="@)->0;
        assert(has_at(body, s0 - "s="@.len(), "s="@));
        let (r0, r1) = keyed_digits_at(body, s1, "r="@)->0;
        assert(has_at(body, r0 - "r="@.len(), "r="@));
    }
}

/// One of the two separators that may stand between the fields.
pub open spec fn is_separator(sep: Seq<char>) -> bool {
    sep == "&amp;"@ || sep == "&"@
}

/// The identifier landmark for the digits `v`, `s` and `r`, written with the
/// given separators.
pub open spec fn select_deck_text(
    v: Seq<char>,
    first_sep: Seq<char>,
    s: Seq<char>,
    second_sep: Seq<char>,
    r: Seq<char>,
) -> Seq<char> {
    select_deck_prefix() + v + first_sep + "s="@ + s + second_sep + "r="@ + r
}

/// A run of digits that is followed by more text runs on into that text.
proof fn lemma_digit_run_through(body: Seq<char>, at: int, n: nat)
    requires
        0 <= at,
        at + n <= body.len(),
        forall|i: int| at <= i < at + n ==> is_digit(#[trigger] body[i]),
    ensures
        digit_run(body, at) == n + digit_run(body, at + n),
    decreases n,
{
    if n > 0 {
        lemma_digit_run_through(body, at + 1, (n - 1) as nat);
    }
}

/// The digits that open the tail of a text are the digits at that place of
/// the text.
proof fn lemma_digit_run_tail(body: Seq<char>, at: int, tail: Seq<char>, i: int)
    requires
        0 <= at,
        0 <= i <= tail.len(),
        at + tail.len() == body.len(),
        body.subrange(at, body.len() as int) == tail,
    ensures
        digit_run(body, at + i) == digit_run(tail, i),
    decreases tail.len() - i,
{
    if i < tail.len() {
        assert(tail[i] == body.subrange(at, body.len() as int)[i]);
        lemma_digit_run_tail(body, at, tail, i + 1);
    }
}

/// The separator `sep` stands in `body` at `at` and `key` follows it: the
/// scan steps over exactly `sep`.
#[verifier::rlimit(50)]
proof fn lemma_separator_here(body: Seq<char>, at: int, sep: Seq<char>, key: Seq<char>)
    requires
        is_separator(sep),
        key == "s="@ || key == "r="@,
        has_at(body, at, sep + key),
    ensures
        after_separator(body, at) == Some(at + sep.len()),
        has_at(body, at + sep.len(), key),
{
    reveal_strlit("&amp;");
    reveal_strlit("&");
    reveal_strlit("s=");
    reveal_strlit("r=");
    let both = sep + key;
    assert(body.subrange(at, at + both.len()) == both);
    assert(body.subrange(at, at + sep.len()) =~= sep) by {
        assert forall|i: int| 0 <= i < sep.len() implies body.subrange(at, at + sep.len())[i]
            == sep[i] by {
            assert(body.subrange(at, at + both.len())[i] == both[i]);
        }
    }
    assert(body.subrange(at + sep.len(), at + sep.len() + key.len()) =~= key) by {
        assert forall|i: int| 0 <= i < key.len() implies body.subrange(
            at + sep.len(),
            at + sep.len() + key.len(),
        )[i] == key[i] by {
            assert(body.subrange(at, at + both.len())[sep.len() + i] == both[sep.len() + i]);
        }
    }
    if sep == "&"@ {
        if has_at(body, at, "&amp;"@) {
            assert(body.subrange(at, at + 5)[1] == 'a');
            assert(body.subrange(at, at + both.len())[1] == both[1]);
            assert(both[1] == key[0]);
        }
    }
}

/// In a body made of arbitrary text, the identifier landmark written with
/// either separator in either place, and arbitrary text again, the landmark
/// matches right behind the leading text and yields the digits written; the
/// last run takes in the digits, if any, with which the trailing text
/// begins.
#[verifier::rlimit(50)]
pub proof fn lemma_vocab_id_at_landmark(
    prefix: Seq<char>,
    v: Seq<char>,
    first_sep: Seq<char>,
    s: Seq<char>,
    second_sep: Seq<char>,
    r: Seq<char>,
    suffix: Seq<char>,
)
    requires
        v.len() > 0,
        s.len() > 0,
        r.len() > 0,
        all_digits(v),
        all_digits(s),
        all_digits(r),
        is_separator(first_sep),
        is_separator(second_sep),
    ensures
        vocab_id_at(
            prefix + select_deck_text(v, first_sep, s, second_sep, r) + suffix,
            prefix.len() as int,
        ) == Some(VocabIdView { v, s, r: r + suffix.take(digit_run(suffix, 0) as int) }),
{
    reveal_strlit("&amp;");
    reveal_strlit("&");
    reveal_strlit("s=");
    reveal_strlit("r=");
    let sd = select_deck_prefix();
    let body = prefix + select_deck_text(v, first_sep, s, second_sep, r) + suffix;
    let a0 = prefix.len() as int;
    let v0 = a0 + sd.len();
    let v1 = v0 + v.len();
    let k1 = v1 + first_sep.len();
    let s0 = k1 + 2;
    let s1 = s0 + s.len();
    let k2 = s1 + second_sep.len();
    let r0 = k2 + 2;
    let r1 = r0 + r.len();
    assert(body.len() == r1 + suffix.len());
    assert(body.subrange(a0, v0) =~= sd);
    assert(body.subrange(v0, v1) =~= v);
    assert(body.subrange(v1, s0) =~= first_sep + "s="@);
    assert(body.subrange(s0, s1) =~= s);
    assert(body.subrange(s1, r0) =~= second_sep + "r="@);
    assert(body.subrange(r0, r1) =~= r);
    assert(body.subrange(r1, body.len() as int) =~= suffix);

    assert forall|i: int| v0 <= i < v1 implies is_digit(#[trigger] body[i]) by {
        assert(body[i] == v[i - v0]);
    }
    assert(body[v1] == first_sep[0]);
    lemma_digit_run_is(body, v0, v.len());
    lemma_separator_here(body, v1, first_sep, "s="@);

    assert forall|i: int| s0 <= i < s1 implies is_digit(#[trigger] body[i]) by {
        assert(body[i] == s[i - s0]);
    }
    assert(body[s1] == second_sep[0]);
    lemma_digit_run_is(body, s0, s.len());
    lemma_separator_here(body, s1, second_sep, "r="@);

    assert forall|i: int| r0 <= i < r1 implies is_digit(#[trigger] body[i]) by {
        assert(body[i] == r[i - r0]);
    }
    lemma_digit_run_through(body, r0, r.len());
    lemma_digit_run_tail(body, r1, suffix, 0);
    lemma_digit_run(suffix, 0);
    let d = digit_run(suffix, 0) as int;
    assert(body.subrange(r0, r1 + d) =~= r + suffix.take(d));
}

/// Two texts are the same up to and including index `upto`, where both hold
/// a slash.
spec fn same_upto_slash(a: Seq<char>, b: Seq<char>, upto: int) -> bool {
    &&& 0 <= upto < a.len()
    &&& upto < b.len()
    &&& a[upto] == '/'
    &&& forall|i: int| 0 <= i <= upto ==> a[i] == b[i]
}

/// No character of `lit` from index `from` on is a slash.
spec fn slash_free_from(lit: Seq<char>, from: int) -> bool {
    forall|k: int| from <= k < lit.len() ==> lit[k] != '/'
}

/// In two texts that are the same up to a slash, a literal that can only
/// stand before that slash stands at a given place in both or in neither.
proof fn lemma_has_at_before_slash(a: Seq<char>, b: Seq<char>, upto: int, at: int, lit: Seq<char>)
    requires
        same_upto_slash(a, b, upto),
        0 <= at <= upto,
        lit.len() > 0,
        slash_free_from(lit, if at + lit.len() > upto {
            upto - at
        } else {
            lit.len() as int
        }),
    ensures
        has_at(a, at, lit) == has_at(b, at, lit),
        has_at(a, at, lit) ==> at + lit.len() <= upto,
{
    if at + lit.len() > upto {
        let k = upto - at;
        if has_at(a, at, lit) {
            assert(a.subrange(at, at + lit.len())[k] == lit[k]);
        }
        if has_at(b, at, lit) {
            assert(b.subrange(at, at + lit.len())[k] == lit[k]);
        }
    } else {
        assert(a.subrange(at, at + lit.len()) =~= b.subrange(at, at + lit.len()));
    }
}

/// In two texts that are the same up to a slash, a run of digits that starts
/// at or before the slash is the same in both and ends at or before it.
proof fn lemma_digit_run_before_slash(a: Seq<char>, b: Seq<char>, upto: int, at: int)
    requires
        same_upto_slash(a, b, upto),
        0 <= at <= upto,
    ensures
        digit_run(a, at) == digit_run(b, at),
        at + digit_run(a, at) <= upto,
    decreases upto - at,
{
    if at < upto && is_digit(a[at]) {
        lemma_digit_run_before_slash(a, b, upto, at + 1);
    }
}

/// In two texts that are the same up to a slash, a field that starts at or
/// before the slash is read alike in both and ends at or before it.
#[verifier::rlimit(50)]
proof fn lemma_keyed_digits_before_slash(
    a: Seq<char>,
    b: Seq<char>,
    upto: int,
    at: int,
    key: Seq<char>,
)
    requires
        same_upto_slash(a, b, upto),
        0 <= at <= upto,
        key == "s="@ || key == "r="@,
    ensures
        keyed_digits_at(a, at, key) == keyed_digits_at(b, at, key),
        keyed_digits_at(a, at, key) matches Some((d0, d1)) ==> at <= d0 <= d1 <= upto,
{
    reveal_strlit("&amp;");
    reveal_strlit("&");
    reveal_strlit("s=");
    reveal_strlit("r=");
    assert("&amp;"@ =~= seq!['&', 'a', 'm', 'p', ';']);
    assert("&"@ =~= seq!['&']);
    assert("s="@ =~= seq!['s', '=']);
    assert("r="@ =~= seq!['r', '=']);
    lemma_has_at_before_slash(a, b, upto, at, "&amp;"@);
    lemma_has_at_before_slash(a, b, upto, at, "&"@);
    match after_separator(a, at) {
        Some(k) => {
            lemma_has_at_before_slash(a, b, upto, k, key);
            if has_at(a, k, key) {
                lemma_digit_run_before_slash(a, b, upto, k + key.len());
            }
        },
        None => {},
    }
}

/// In two texts that are the same up to a slash, the identifier landmark
/// that starts before the slash is read alike in both.
#[verifier::rlimit(50)]
proof fn lemma_vocab_id_before_slash(a: Seq<char>, b: Seq<char>, upto: int, at: int)
    requires
        same_upto_slash(a, b, upto),
        0 <= at < upto,
    ensures
        vocab_id_at(a, at) == vocab_id_at(b, at),
{
    reveal_strlit("/select_deck?v=");
    let sd = select_deck_prefix();
    assert(sd =~= seq![
        '/',
        's',
        'e',
        'l',
        'e',
        'c',
        't',
        '_',
        'd',
        'e',
        'c',
        'k',
        '?',
        'v',
        '=',
    ]);
    lemma_has_at_before_slash(a, b, upto, at, sd);
    if has_at(a, at, sd) {
        let v0 = at + sd.len();
        lemma_digit_run_before_slash(a, b, upto, v0);
        let v1 = v0 + digit_run(a, v0);
        lemma_keyed_digits_before_slash(a, b, upto, v1, "s="@);
        match keyed_digits_at(a, v1, "s="@) {
            Some((s0, s1)) => {
                lemma_keyed_digits_before_slash(a, b, upto, s1, "r="@);
                match keyed_digits_at(a, s1, "r="@) {
                    Some((r0, r1)) => {
                        assert(a.subrange(v0, v1) =~= b.subrange(v0, v1));
                        assert(a.subrange(s0, s1) =~= b.subrange(s0, s1));
                        assert(a.subrange(r0, r1) =~= b.subrange(r0, r1));
                    },
                    None => {},
                }
            },
            None => {},
        }
    }
}

/// Two bodies that share their leading text, go on with a slash, and are
/// read alike at that slash give the same triple.
#[verifier::rlimit(50)]
proof fn lemma_vocab_id_same_behind_prefix(
    prefix: Seq<char>,
    ta: Seq<char>,
    tb: Seq<char>,
    suffix: Seq<char>,
)
    requires
        ta.len() > 0,
        tb.len() > 0,
        ta[0] == '/',
        tb[0] == '/',
        vocab_id_at(prefix + ta + suffix, prefix.len() as int) is Some,
        vocab_id_at(prefix + ta + suffix, prefix.len() as int) == vocab_id_at(
            prefix + tb + suffix,
            prefix.len() as int,
        ),
    ensures
        vocab_id(prefix + ta + suffix) is Some,
        vocab_id(prefix + ta + suffix) == vocab_id(prefix + tb + suffix),
{
    let a = prefix + ta + suffix;
    let b = prefix + tb + suffix;
    let upto = prefix.len() as int;
    assert(a[upto] == ta[0]);
    assert(b[upto] == tb[0]);
    assert forall|i: int| 0 <= i <= upto implies a[i] == b[i] by {
        if i < upto {
            assert(a[i] == prefix[i]);
            assert(b[i] == prefix[i]);
        }
    }
    assert(same_upto_slash(a, b, upto));
    assert(same_upto_slash(b, a, upto));
    let first_a = lemma_first_vocab_id_match_exists(a, upto);
    let first_b = lemma_first_vocab_id_match_exists(b, upto);
    if first_a < upto {
        lemma_vocab_id_before_slash(a, b, upto, first_a);
    }
    if first_b < upto {
        lemma_vocab_id_before_slash(a, b, upto, first_b);
    }
    if first_a < first_b {
        assert(vocab_id_at(b, first_a) is None);
    } else if first_b < first_a {
        assert(vocab_id_at(a, first_b) is None);
    }
}

/// The identifier landmark begins with a slash.
proof fn lemma_select_deck_text_starts_with_slash(
    v: Seq<char>,
    first_sep: Seq<char>,
    s: Seq<char>,
    second_sep: Seq<char>,
    r: Seq<char>,
)
    ensures
        select_deck_text(v, first_sep, s, second_sep, r).len() > 0,
        select_deck_text(v, first_sep, s, second_sep, r)[0] == '/',
{
    reveal_strlit("/select_deck?v=");
    assert(select_deck_text(v, first_sep, s, second_sep, r)[0] == select_deck_prefix()[0]);
}

/// The scan takes `&amp;` and a bare `&` for the same thing: two bodies that
/// differ only in which separator is written in which place of one
/// identifier landmark give the same triple.
pub proof fn lemma_vocab_id_same_for_both_separators(
    prefix: Seq<char>,
    v: Seq<char>,
    s: Seq<char>,
    r: Seq<char>,
    suffix: Seq<char>,
    first_sep: Seq<char>,
    second_sep: Seq<char>,
    other_first_sep: Seq<char>,
    other_second_sep: Seq<char>,
)
    requires
        v.len() > 0,
        s.len() > 0,
        r.len() > 0,
        all_digits(v),
        all_digits(s),
        all_digits(r),
        is_separator(first_sep),
        is_separator(second_sep),
        is_separator(other_first_sep),
        is_separator(other_second_sep),
    ensures
        vocab_id(prefix + select_deck_text(v, first_sep, s, second_sep, r) + suffix) is Some,
        vocab_id(prefix + select_deck_text(v, first_sep, s, second_sep, r) + suffix) == vocab_id(
            prefix + select_deck_text(v, other_first_sep, s, other_second_sep, r) + suffix,
        ),
{
    lemma_vocab_id_at_landmark(prefix, v, first_sep, s, second_sep, r, suffix);
    lemma_vocab_id_at_landmark(prefix, v, other_first_sep, s, other_second_sep, r, suffix);
    lemma_select_deck_text_starts_with_slash(v, first_sep, s, second_sep, r);
    lemma_select_deck_text_starts_with_slash(v, other_first_sep, s, other_second_sep, r);
    lemma_vocab_id_same_behind_prefix(
        prefix,
        select_deck_text(v, first_sep, s, second_sep, r),
        select_deck_text(v, other_first_sep, s, other_second_sep, r),
        suffix,
    );
}

} // verus!
