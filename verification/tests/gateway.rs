use jpdb_connect::anki_connect::{
    add_note_response, browse_response, handle_action, AnkiConnectAction, Dispatch, Fields, Note,
    Params, Payload, Response,
};
use jpdb_connect::config::Cache;
use jpdb_connect::workflow::{MutatingAction, Outcome, WorkflowError};

fn action(name: &str, params: Option<Params>) -> AnkiConnectAction {
    AnkiConnectAction { action: String::from(name), version: 6, params }
}

fn sample_note() -> Note {
    Note {
        fields: Fields {
            word: String::from("見事"),
            reading: String::from("みごと"),
            sentence: String::from("s"),
            definition: Some(String::from("d")),
        },
    }
}

fn answer(name: &str) -> Response {
    match handle_action(&action(name, None), &Cache::new()) {
        Dispatch::Reply(response) => response,
        other => panic!("{other:?}"),
    }
}

#[test]
fn fixed_answers() {
    assert_eq!(answer("version").to_json().unwrap(), r#"{"result":6,"error":null}"#);
    assert_eq!(answer("deckNames").to_json().unwrap(), r#"{"result":["jpdb"],"error":null}"#);
    assert_eq!(
        answer("modelNames").to_json().unwrap(),
        r#"{"result":["jpdb","Select to refresh"],"error":null}"#
    );
    assert_eq!(
        answer("modelFieldNames").to_json().unwrap(),
        r#"{"result":["word","reading","sentence","definition"],"error":null}"#
    );
    assert_eq!(
        answer("storeMediaFile").to_json().unwrap(),
        r#"{"result":"_hello.txt","error":null}"#
    );
    assert_eq!(
        answer("findNotes").to_json().unwrap(),
        r#"{"result":null,"error":"unsupported action"}"#
    );
    assert_eq!(answer("").to_json().unwrap(), r#"{"result":null,"error":"unsupported action"}"#);
    assert_eq!(
        answer("Version").to_json().unwrap(),
        r#"{"result":null,"error":"unsupported action"}"#
    );
}

#[test]
fn add_note_asks_for_the_workflow() {
    let params = Params { note: Some(sample_note()), query: None, notes: None };
    match handle_action(&action("addNote", Some(params)), &Cache::new()) {
        Dispatch::AddNote(fields) => {
            assert_eq!(fields.word, "見事");
            assert_eq!(fields.reading, "みごと");
            assert_eq!(fields.sentence, "s");
            assert_eq!(fields.definition.as_deref(), Some("d"));
        }
        other => panic!("{other:?}"),
    }
    assert!(matches!(handle_action(&action("addNote", None), &Cache::new()), Dispatch::Malformed));
    let empty = Params { note: None, query: Some(String::from("q")), notes: None };
    assert!(matches!(
        handle_action(&action("addNote", Some(empty)), &Cache::new()),
        Dispatch::Malformed
    ));
}

#[test]
fn gui_browse_needs_a_remembered_address() {
    let mut cache = Cache::new();
    match handle_action(&action("guiBrowse", None), &cache) {
        Dispatch::Reply(response) => assert_eq!(
            response.to_json().unwrap(),
            r#"{"result":null,"error":"Can't open nothing"}"#
        ),
        other => panic!("{other:?}"),
    }
    cache.set(String::from("https://jpdb.io/vocabulary/1/a/b"));
    assert!(matches!(
        handle_action(&action("guiBrowse", None), &cache),
        Dispatch::Browse(ref url) if url == "https://jpdb.io/vocabulary/1/a/b"
    ));
}

#[test]
fn can_add_notes_reports_duplicate_detection() {
    let params = Params { note: None, query: None, notes: Some(vec![sample_note(), sample_note()]) };
    match handle_action(&action("canAddNotes", Some(params)), &Cache::new()) {
        Dispatch::Reply(response) => assert_eq!(
            response.version_downgrade().unwrap(),
            r#"{"result": null, "error": "duplicate detection"}"#
        ),
        other => panic!("{other:?}"),
    }
    assert!(matches!(
        handle_action(&action("canAddNotes", None), &Cache::new()),
        Dispatch::Malformed
    ));
}

#[test]
fn add_note_response_by_outcome() {
    let mut cache = Cache::new();
    let ok = Outcome { result: Ok(()), last_opened: Some(String::from("https://jpdb.io/a")) };
    assert_eq!(add_note_response(ok, &mut cache).to_json().unwrap(), r#"{"result":1234,"error":null}"#);
    assert_eq!(cache.get().as_deref(), Some("https://jpdb.io/a"));

    let failed_action = Outcome {
        result: Err(WorkflowError::UnexpectedStatus(MutatingAction::AddToDeck { deck_id: 7 }, 404)),
        last_opened: Some(String::from("https://jpdb.io/b")),
    };
    assert_eq!(
        add_note_response(failed_action, &mut cache).to_json().unwrap(),
        r#"{"result":null,"error":"Add to deck failed, status: 404"}"#
    );
    assert_eq!(cache.get().as_deref(), Some("https://jpdb.io/b"));

    let failed = Outcome { result: Err(WorkflowError::CardNotFound), last_opened: None };
    assert_eq!(
        add_note_response(failed, &mut cache).to_json().unwrap(),
        r#"{"result":null,"error":"can't find card"}"#
    );
    assert_eq!(cache.get().as_deref(), Some("https://jpdb.io/b"));
}

#[test]
fn browse_response_by_result() {
    assert_eq!(browse_response(Ok(())).to_json().unwrap(), r#"{"result":true,"error":null}"#);
    assert_eq!(
        browse_response(Err(String::from("no browser"))).to_json().unwrap(),
        r#"{"result":null,"error":"no browser"}"#
    );
}

#[test]
fn json_of_payloads() {
    assert_eq!(Payload::Number(0).to_json().unwrap(), "0");
    assert_eq!(Payload::Number(u64::MAX).to_json().unwrap(), "18446744073709551615");
    assert_eq!(Payload::Flag(false).to_json().unwrap(), "false");
    assert_eq!(Payload::Text(String::new()).to_json().unwrap(), "\"\"");
    assert_eq!(
        Payload::Text(String::from("a\"b\\c\nd\u{1}見")).to_json().unwrap(),
        "\"a\\\"b\\\\c\\nd\\u0001見\""
    );
    assert_eq!(Payload::Texts(Vec::new()).to_json().unwrap(), "[]");
    assert_eq!(
        Payload::Texts(vec![String::from("a,b"), String::from("\"")]).to_json().unwrap(),
        r#"["a,b","\""]"#
    );
    assert_eq!(Payload::Flags(Vec::new()).to_json().unwrap(), "[]");
    assert_eq!(Payload::Flags(vec![true]).to_json().unwrap(), "[true]");
    assert_eq!(Payload::Flags(vec![true, false, true]).to_json().unwrap(), "[true,false,true]");
}

#[test]
fn version_downgrade_forms() {
    assert_eq!(Response::result(Payload::Number(6)).version_downgrade().unwrap(), "6");
    assert_eq!(
        Response::result(Payload::Texts(vec![String::from("jpdb")])).version_downgrade().unwrap(),
        r#"["jpdb"]"#
    );
    assert_eq!(
        Response::error(String::from("say \"no\"")).version_downgrade().unwrap(),
        r#"{"result": null, "error": "say "no""}"#
    );
    assert_eq!(
        Response::error(String::from("say \"no\"")).to_json().unwrap(),
        r#"{"result":null,"error":"say \"no\""}"#
    );
    let neither = Response { result: None, error: None };
    assert_eq!(neither.version_downgrade().unwrap(), "No response.");
    assert_eq!(neither.to_json().unwrap(), r#"{"result":null,"error":null}"#);
    let both = Response { result: Some(Payload::Flag(true)), error: Some(String::from("e")) };
    assert_eq!(both.version_downgrade().unwrap(), "true");
    assert_eq!(both.to_json().unwrap(), r#"{"result":true,"error":"e"}"#);
}
