//! The front end's side of the conversation: the actions that a note-taking
//! client sends, the answers it gets, and which action leads to which answer.

use crate::config::Cache;
use crate::text::{decimal, decimal_string, opt_text, same_text};
use crate::workflow::{Outcome, OutcomeView};
use vstd::prelude::*;
use vstd::string::StringExecFns;

verus! {

/// What a client knows of the word it looked up.
#[derive(Debug)]
pub struct Fields {
    pub word: String,
    pub reading: String,
    pub sentence: String,
    pub definition: Option<String>,
}

/// Mathematical value of `Fields`.
pub struct FieldsView {
    pub word: Seq<char>,
    pub reading: Seq<char>,
    pub sentence: Seq<char>,
    pub definition: Option<Seq<char>>,
}

impl View for Fields {
    type V = FieldsView;

    open spec fn view(&self) -> FieldsView {
        FieldsView {
            word: self.word@,
            reading: self.reading@,
            sentence: self.sentence@,
            definition: opt_text(self.definition),
        }
    }
}

impl Fields {
    /// A copy of the fields.
    pub fn duplicate(&self) -> (copy: Fields)
        ensures
            copy@ == self@,
    {
        Fields {
            word: self.word.clone(),
            reading: self.reading.clone(),
            sentence: self.sentence.clone(),
            definition: match &self.definition {
                Some(text) => Some(text.clone()),
                None => None,
            },
        }
    }
}

#[derive(Debug)]
pub struct Note {
    pub fields: Fields,
}

#[derive(Debug)]
pub struct Params {
    pub note: Option<Note>,
    pub query: Option<String>,
    pub notes: Option<Vec<Note>>,
}

/// One request of a client: the name of an action, the version of the
/// protocol that the client speaks, and the action's arguments.
#[derive(Debug)]
pub struct AnkiConnectAction {
    pub action: String,
    pub version: i64,
    pub params: Option<Params>,
}

impl AnkiConnectAction {
    /// The fields of the note that the action carries, if it carries one.
    pub open spec fn note_fields(self) -> Option<FieldsView> {
        match self.params {
            Some(params) => match params.note {
                Some(note) => Some(note.fields@),
                None => None,
            },
            None => None,
        }
    }

    /// The action carries a list of notes.
    pub open spec fn has_notes(self) -> bool {
        self.params matches Some(params) && params.notes is Some
    }
}

/// The value that an answer carries.
#[derive(Debug)]
pub enum Payload {
    Number(u64),
    Flag(bool),
    Text(String),
    Texts(Vec<String>),
    Flags(Vec<bool>),
}

/// Mathematical value of a `Payload`.
pub enum PayloadView {
    Number(u64),
    Flag(bool),
    Text(Seq<char>),
    Texts(Seq<Seq<char>>),
    Flags(Seq<bool>),
}

impl View for Payload {
    type V = PayloadView;

    open spec fn view(&self) -> PayloadView {
        match self {
            Payload::Number(n) => PayloadView::Number(*n),
            Payload::Flag(b) => PayloadView::Flag(*b),
            Payload::Text(text) => PayloadView::Text(text@),
            Payload::Texts(texts) => PayloadView::Texts(texts.deep_view()),
            Payload::Flags(flags) => PayloadView::Flags(flags@),
        }
    }
}

/// The answer to an action: a result or an error.
#[derive(Debug)]
pub struct Response {
    pub result: Option<Payload>,
    pub error: Option<String>,
}

/// Mathematical value of a `Response`.
pub struct ResponseView {
    pub result: Option<PayloadView>,
    pub error: Option<Seq<char>>,
}

impl View for Response {
    type V = ResponseView;

    open spec fn view(&self) -> ResponseView {
        ResponseView {
            result: match self.result {
                Some(payload) => Some(payload@),
                None => None,
            },
            error: opt_text(self.error),
        }
    }
}

/// An answer that reports the error `text`.
pub open spec fn error_response(text: Seq<char>) -> ResponseView {
    ResponseView { result: None, error: Some(text) }
}

/// An answer that carries `payload`.
pub open spec fn result_response(payload: PayloadView) -> ResponseView {
    ResponseView { result: Some(payload), error: None }
}

/// The answer could not be written as JSON.
#[derive(Debug, Clone, Copy, PartialEq, Eq, Structural)]
pub struct SerializeFailed;

/// `serde_json::Error`, handed on unopened.
#[verifier::external_type_specification]
#[verifier::external_body]
pub struct ExJsonError(serde_json::Error);

/// The JSON text that `serde_json` writes for a string, quotes and escapes
/// included, or `None` where it reports an error.
pub uninterp spec fn json_string(text: Seq<char>) -> Option<Seq<char>>;

/// Calls `serde_json::to_string` on a string slice.
///
/// The contract says only that the outcome, JSON text or error, is fixed by
/// the characters of the string; `json_string` is the name of that outcome.
#[verifier::external_body]
fn to_json_string(text: &str) -> (r: Result<String, serde_json::Error>)
    ensures
        r matches Ok(json) ==> json_string(text@) == Some(json@),
        r is Err ==> json_string(text@) is None,
{
    serde_json::to_string(text)
}

/// JSON text of a truth value.
pub open spec fn json_flag(b: bool) -> Seq<char> {
    if b {
        "true"@
    } else {
        "false"@
    }
}

/// The JSON texts of the first `n` of `texts`, or `None` if one of them has
/// none.
pub open spec fn json_strings(texts: Seq<Seq<char>>, n: nat) -> Option<Seq<Seq<char>>>
    decreases n,
{
    if n == 0 {
        Some(Seq::empty())
    } else {
        match (json_strings(texts, (n - 1) as nat), json_string(texts[n - 1])) {
            (Some(front), Some(last)) => Some(front.push(last)),
            _ => None,
        }
    }
}

/// The first `n` of `items` with a comma between each two.
pub open spec fn comma_joined(items: Seq<Seq<char>>, n: nat) -> Seq<char>
    decreases n,
{
    if n == 0 {
        Seq::empty()
    } else if n == 1 {
        items[0]
    } else {
        comma_joined(items, (n - 1) as nat) + ","@ + items[n - 1]
    }
}

/// JSON text of an array whose elements have the JSON texts `items`.
pub open spec fn json_array(items: Seq<Seq<char>>) -> Seq<char> {
    "["@ + comma_joined(items, items.len()) + "]"@
}

/// JSON text of a payload, or `None` where a string in it has none.
pub open spec fn payload_json(payload: PayloadView) -> Option<Seq<char>> {
    match payload {
        PayloadView::Number(n) => Some(decimal(n as nat)),
        PayloadView::Flag(b) => Some(json_flag(b)),
        PayloadView::Text(text) => json_string(text),
        PayloadView::Texts(texts) => match json_strings(texts, texts.len()) {
            Some(items) => Some(json_array(items)),
            None => None,
        },
        PayloadView::Flags(flags) => Some(
            json_array(Seq::new(flags.len(), |i: int| json_flag(flags[i]))),
        ),
    }
}

/// JSON text of an answer: an object with the members `result` and `error`
/// in that order, `null` standing for what the answer does not have.
pub open spec fn response_json(response: ResponseView) -> Option<Seq<char>> {
    let result = match response.result {
        Some(payload) => payload_json(payload),
        None => Some("null"@),
    };
    let error = match response.error {
        Some(text) => json_string(text),
        None => Some("null"@),
    };
    match (result, error) {
        (Some(result), Some(error)) => Some(
            "{\"result\":"@ + result + ",\"error\":"@ + error + "}"@,
        ),
        _ => None,
    }
}

/// What a client of the protocol's second version is sent for an answer: the
/// bare JSON text of the result; for an error an object that quotes the
/// error's text as it is, without escapes; and a fixed text for an answer
/// that has neither.
pub open spec fn downgraded_json(response: ResponseView) -> Option<Seq<char>> {
    match response.result {
        Some(payload) => payload_json(payload),
        None => match response.error {
            Some(text) => Some("{\"result\": null, \"error\": \""@ + text + "\"}"@),
            None => Some("No response."@),
        },
    }
}

/// Writes a truth value as JSON.
fn flag_json(b: bool) -> (s: &'static str)
    ensures
        s@ == json_flag(b),
{
    if b {
        "true"
    } else {
        "false"
    }
}

impl Payload {
    /// Writes the payload as JSON.
    pub fn to_json(&self) -> (r: Result<String, SerializeFailed>)
        ensures
            match payload_json(self@) {
                Some(json) => r matches Ok(text) && text@ == json,
                None => r is Err,
            },
    {
        match self {
            Payload::Number(n) => Ok(decimal_string(*n)),
            Payload::Flag(b) => Ok(String::from_str(flag_json(*b))),
            Payload::Text(text) => match to_json_string(text.as_str()) {
                Ok(json) => Ok(json),
                Err(_) => Err(SerializeFailed),
            },
            Payload::Texts(texts) => {
                let mut out = String::from_str("[");
                let ghost mut items: Seq<Seq<char>> = Seq::empty();
                let mut i: usize = 0;
                while i < texts.len()
                    invariant
                        i <= texts.len(),
                        self@ == PayloadView::Texts(texts.deep_view()),
                        json_strings(texts.deep_view(), i as nat) == Some(items),
                        items.len() == i,
                        out@ == "["@ + comma_joined(items, i as nat),
                    decreases texts.len() - i,
                {
                    assert(texts.deep_view()[i as int] == texts[i as int]@);
                    match to_json_string(texts[i].as_str()) {
                        Ok(json) => {
                            if i > 0 {
                                out.append(",");
                            }
                            out.append(json.as_str());
                            proof {
                                let longer = items.push(json@);
                                lemma_comma_joined_prefix(items, longer, i as nat);
                                items = longer;
                                assert(out@ =~= "["@ + comma_joined(items, (i + 1) as nat));
                            }
                        },
                        Err(_) => {
                            proof {
                                assert(json_strings(texts.deep_view(), (i + 1) as nat) is None);
                                lemma_json_strings_fail(
                                    texts.deep_view(),
                                    (i + 1) as nat,
                                    texts.len() as nat,
                                );
                            }
                            return Err(SerializeFailed);
                        },
                    }
                    i += 1;
                }
                out.append("]");
                Ok(out)
            },
            Payload::Flags(flags) => {
                let mut out = String::from_str("[");
                let ghost items: Seq<Seq<char>> = Seq::new(
                    flags@.len(),
                    |i: int| json_flag(flags@[i]),
                );
                let mut i: usize = 0;
                while i < flags.len()
                    invariant
                        i <= flags.len(),
                        items == Seq::new(flags@.len(), |i: int| json_flag(flags@[i])),
                        out@ == "["@ + comma_joined(items, i as nat),
                    decreases flags.len() - i,
                {
                    if i > 0 {
                        out.append(",");
                    }
                    out.append(flag_json(flags[i]));
                    assert(out@ =~= "["@ + comma_joined(items, (i + 1) as nat));
                    i += 1;
                }
                out.append("]");
                Ok(out)
            },
        }
    }
}

/// Joining the first `n` items does not look at the items behind them.
proof fn lemma_comma_joined_prefix(a: Seq<Seq<char>>, b: Seq<Seq<char>>, n: nat)
    requires
        n <= a.len(),
        n <= b.len(),
        forall|i: int| 0 <= i < n ==> a[i] == b[i],
    ensures
        comma_joined(a, n) == comma_joined(b, n),
    decreases n,
{
    if n > 1 {
        lemma_comma_joined_prefix(a, b, (n - 1) as nat);
    }
}

/// Where the first `n` texts have no JSON texts, no longer stretch has.
proof fn lemma_json_strings_fail(texts: Seq<Seq<char>>, n: nat, m: nat)
    requires
        n <= m,
        json_strings(texts, n) is None,
    ensures
        json_strings(texts, m) is None,
    decreases m,
{
    if n < m {
        lemma_json_strings_fail(texts, n, (m - 1) as nat);
    }
}

impl Response {
    /// An answer that reports the error `s`.
    pub fn error(s: String) -> (r: Response)
        ensures
            r@ == error_response(s@),
    {
        Response { result: None, error: Some(s) }
    }

    /// An answer that carries the result `s`.
    pub fn result(s: Payload) -> (r: Response)
        ensures
            r@ == result_response(s@),
    {
        Response { result: Some(s), error: None }
    }

    /// Writes the answer as JSON.
    pub fn to_json(&self) -> (r: Result<String, SerializeFailed>)
        ensures
            match response_json(self@) {
                Some(json) => r matches Ok(text) && text@ == json,
                None => r is Err,
            },
    {
        let result = match &self.result {
            Some(payload) => match payload.to_json() {
                Ok(json) => json,
                Err(e) => {
                    return Err(e);
                },
            },
            None => String::from_str("null"),
        };
        let error = match &self.error {
            Some(text) => match to_json_string(text.as_str()) {
                Ok(json) => json,
                Err(_) => {
                    return Err(SerializeFailed);
                },
            },
            None => String::from_str("null"),
        };
        let mut out = String::from_str("{\"result\":");
        out.append(result.as_str());
        out.append(",\"error\":");
        out.append(error.as_str());
        out.append("}");
        Ok(out)
    }

    /// Writes the answer for a client that speaks the protocol's second
    /// version.
    pub fn version_downgrade(&self) -> (r: Result<String, SerializeFailed>)
        ensures
            match downgraded_json(self@) {
                Some(json) => r matches Ok(text) && text@ == json,
                None => r is Err,
            },
    {
        match &self.result {
            Some(payload) => payload.to_json(),
            None => match &self.error {
                Some(text) => {
                    let mut out = String::from_str("{\"result\": null, \"error\": \"");
                    out.append(text.as_str());
                    out.append("\"}");
                    Ok(out)
                },
                None => Ok(String::from_str("No response.")),
            },
        }
    }
}

/// What the front end does about an action.
#[derive(Debug)]
pub enum Dispatch {
    /// Send this answer.
    Reply(Response),
    /// Run the note workflow on these fields, then answer by its outcome.
    AddNote(Fields),
    /// Show this address in the browser, then answer by how that went.
    Browse(String),
    /// The action lacks the arguments that it cannot do without.
    Malformed,
}

/// Mathematical value of a `Dispatch`.
pub enum DispatchView {
    Reply(ResponseView),
    AddNote(FieldsView),
    Browse(Seq<char>),
    Malformed,
}

impl View for Dispatch {
    type V = DispatchView;

    open spec fn view(&self) -> DispatchView {
        match self {
            Dispatch::Reply(response) => DispatchView::Reply(response@),
            Dispatch::AddNote(fields) => DispatchView::AddNote(fields@),
            Dispatch::Browse(url) => DispatchView::Browse(url@),
            Dispatch::Malformed => DispatchView::Malformed,
        }
    }
}

/// An answer that carries a list of texts.
pub open spec fn texts_response(texts: Seq<Seq<char>>) -> DispatchView {
    DispatchView::Reply(result_response(PayloadView::Texts(texts)))
}

/// What is done about the action called `name`, given the note's fields if
/// the action carries a note, whether it carries a list of notes, and the
/// address that the last completed lookup left behind.
pub open spec fn dispatch(
    name: Seq<char>,
    note: Option<FieldsView>,
    has_notes: bool,
    last_open: Option<Seq<char>>,
) -> DispatchView {
    if name == "version"@ {
        DispatchView::Reply(result_response(PayloadView::Number(6)))
    } else if name == "deckNames"@ {
        texts_response(seq!["jpdb"@])
    } else if name == "modelNames"@ {
        texts_response(seq!["jpdb"@, "Select to refresh"@])
    } else if name == "modelFieldNames"@ {
        texts_response(seq!["word"@, "reading"@, "sentence"@, "definition"@])
    } else if name == "addNote"@ {
        match note {
            Some(fields) => DispatchView::AddNote(fields),
            None => DispatchView::Malformed,
        }
    } else if name == "guiBrowse"@ {
        match last_open {
            Some(url) => DispatchView::Browse(url),
            None => DispatchView::Reply(error_response("Can't open nothing"@)),
        }
    } else if name == "canAddNotes"@ {
        if has_notes {
            DispatchView::Reply(error_response("duplicate detection"@))
        } else {
            DispatchView::Malformed
        }
    } else if name == "storeMediaFile"@ {
        DispatchView::Reply(result_response(PayloadView::Text("_hello.txt"@)))
    } else {
        DispatchView::Reply(error_response("unsupported action"@))
    }
}

/// An answer that carries the given texts.
fn reply_texts(texts: Vec<String>) -> (d: Dispatch)
    ensures
        d@ == texts_response(texts.deep_view()),
{
    Dispatch::Reply(Response::result(Payload::Texts(texts)))
}

/// Decides what to do about an action of a client.
///
/// Most actions have a fixed answer. `addNote` asks for a run of the note
/// workflow, `guiBrowse` for a page to be shown; the answers to these two
/// come from `add_note_response` and `browse_response` once that is done.
pub fn handle_action(action: &AnkiConnectAction, cache: &Cache) -> (d: Dispatch)
    ensures
        d@ == dispatch(
            action.action@,
            action.note_fields(),
            action.has_notes(),
            opt_text(cache.last_open),
        ),
{
    let name = action.action.as_str();
    if same_text(name, "version") {
        Dispatch::Reply(Response::result(Payload::Number(6)))
    } else if same_text(name, "deckNames") {
        let mut texts: Vec<String> = Vec::new();
        texts.push(String::from_str("jpdb"));
        assert(texts.deep_view() =~= seq!["jpdb"@]);
        reply_texts(texts)
    } else if same_text(name, "modelNames") {
        let mut texts: Vec<String> = Vec::new();
        texts.push(String::from_str("jpdb"));
        texts.push(String::from_str("Select to refresh"));
        assert(texts.deep_view() =~= seq!["jpdb"@, "Select to refresh"@]);
        reply_texts(texts)
    } else if same_text(name, "modelFieldNames") {
        let mut texts: Vec<String> = Vec::new();
        texts.push(String::from_str("word"));
        texts.push(String::from_str("reading"));
        texts.push(String::from_str("sentence"));
        texts.push(String::from_str("definition"));
        assert(texts.deep_view() =~= seq!["word"@, "reading"@, "sentence"@, "definition"@]);
        reply_texts(texts)
    } else if same_text(name, "addNote") {
        match &action.params {
            Some(params) => match &params.note {
                Some(note) => Dispatch::AddNote(note.fields.duplicate()),
                None => Dispatch::Malformed,
            },
            None => Dispatch::Malformed,
        }
    } else if same_text(name, "guiBrowse") {
        match &cache.last_open {
            Some(url) => Dispatch::Browse(url.clone()),
            None => Dispatch::Reply(Response::error(String::from_str("Can't open nothing"))),
        }
    } else if same_text(name, "canAddNotes") {
        let has_notes = match &action.params {
            Some(params) => params.notes.is_some(),
            None => false,
        };
        if has_notes {
            Dispatch::Reply(Response::error(String::from_str("duplicate detection")))
        } else {
            Dispatch::Malformed
        }
    } else if same_text(name, "storeMediaFile") {
        Dispatch::Reply(Response::result(Payload::Text(String::from_str("_hello.txt"))))
    } else {
        Dispatch::Reply(Response::error(String::from_str("unsupported action")))
    }
}

/// The answer to `addNote` for a run that ended in `outcome`: a made-up note
/// number for success, the error's one line otherwise.
pub open spec fn add_note_answer(outcome: OutcomeView) -> ResponseView {
    match outcome.result {
        Ok(_) => result_response(PayloadView::Number(1234)),
        Err(e) => error_response(e.message_text()),
    }
}

/// Answers `addNote` once the workflow has run, and remembers the address
/// that the run resolved, if it got that far.
pub fn add_note_response(outcome: Outcome, cache: &mut Cache) -> (r: Response)
    ensures
        r@ == add_note_answer(outcome@),
        opt_text(final(cache).last_open) == match outcome@.last_opened {
            Some(url) => Some(url),
            None => opt_text(old(cache).last_open),
        },
{
    let Outcome { result, last_opened } = outcome;
    match last_opened {
        Some(url) => {
            cache.set(url);
        },
        None => {},
    }
    match result {
        Ok(_) => Response::result(Payload::Number(1234)),
        Err(e) => Response::error(e.message()),
    }
}

/// The answer to `guiBrowse` once the browser was asked to show the page:
/// `true` if that went well, else the error that came back.
pub open spec fn browse_answer(opened: Result<(), Seq<char>>) -> ResponseView {
    match opened {
        Ok(_) => result_response(PayloadView::Flag(true)),
        Err(text) => error_response(text),
    }
}

/// Answers `guiBrowse` once the browser was asked to show the page.
pub fn browse_response(opened: Result<(), String>) -> (r: Response)
    ensures
        r@ == browse_answer(
            match opened {
                Ok(_) => Ok(()),
                Err(text) => Err(text@),
            },
        ),
{
    match opened {
        Ok(_) => Response::result(Payload::Flag(true)),
        Err(text) => Response::error(text),
    }
}

} // verus!
