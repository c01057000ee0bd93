//! The note workflow: search for the word, resolve its detail page, and apply
//! the actions that the settings ask for.
//!
//! The workflow performs no request itself. `AddNote::start` and
//! `AddNote::step` say which request is to be sent next; the caller sends it
//! and hands the reply to `step`, until the workflow is done.

use crate::anki_connect::{Fields, FieldsView};
use crate::config::{Config, ConfigView};
use crate::jpdb::{
    abs_url, abs_url_text, form_request, form_urlencoded, get_request, get_request_view,
    post_request_view, search_path, search_path_text, EncodingFailed, HttpRequest,
};
use crate::parsing::{detail_url, find_detail_url, find_vocab_id, vocab_id, VocabId, VocabIdView};
use crate::text::{decimal, decimal_string, opt_text};
use vstd::prelude::*;
use vstd::string::StringExecFns;

verus! {

/// A change of the card's state on the site.
#[derive(Debug, Clone, Copy, PartialEq, Eq, Structural)]
pub enum MutatingAction {
    AddToDeck { deck_id: u64 },
    ForceUnlock,
    Forq,
}

/// One request of the workflow and its reply.
#[derive(Debug, Clone, Copy, PartialEq, Eq, Structural)]
pub enum Exchange {
    Search,
    DetailPage,
    Action(MutatingAction),
}

/// Why a run of the workflow failed.
#[derive(Debug)]
pub enum WorkflowError {
    /// An action that needs a logged-in user was asked for, but no session
    /// was given.
    Configuration,
    /// The transport could not complete the exchange; the text is the
    /// transport's own.
    Transport(Exchange, String),
    /// The search result does not link to the card's detail page.
    CardNotFound,
    /// The detail page does not show the card's identifiers.
    IdentityNotFound,
    /// The site answered the action with a status that does not mean
    /// success.
    UnexpectedStatus(MutatingAction, u16),
}

/// Mathematical value of a `WorkflowError`.
pub enum WorkflowErrorView {
    Configuration,
    Transport(Exchange, Seq<char>),
    CardNotFound,
    IdentityNotFound,
    UnexpectedStatus(MutatingAction, u16),
}

impl View for WorkflowError {
    type V = WorkflowErrorView;

    open spec fn view(&self) -> WorkflowErrorView {
        match self {
            WorkflowError::Configuration => WorkflowErrorView::Configuration,
            WorkflowError::Transport(x, text) => WorkflowErrorView::Transport(*x, text@),
            WorkflowError::CardNotFound => WorkflowErrorView::CardNotFound,
            WorkflowError::IdentityNotFound => WorkflowErrorView::IdentityNotFound,
            WorkflowError::UnexpectedStatus(a, status) => WorkflowErrorView::UnexpectedStatus(
                *a,
                *status,
            ),
        }
    }
}

/// Mathematical value of an optional error.
pub open spec fn opt_error(e: Option<WorkflowError>) -> Option<WorkflowErrorView> {
    match e {
        Some(e) => Some(e@),
        None => None,
    }
}

/// The part of the settings that steers a run.
#[derive(Debug, Clone, Copy)]
pub struct Plan {
    pub auto_open: bool,
    pub auto_add: Option<u64>,
    pub auto_unlock: bool,
    pub auto_forq: bool,
}

impl Plan {
    /// Some action that changes the card's state is asked for.
    pub open spec fn any_mutating_action(self) -> bool {
        self.auto_add is Some || self.auto_unlock || self.auto_forq
    }

    /// The action to attempt after `done`, or first of all where `done` is
    /// `None`. The order is fixed: add to deck, force unlock, prioritize.
    pub open spec fn action_after(self, done: Option<MutatingAction>) -> Option<MutatingAction> {
        let from_unlock = if self.auto_unlock {
            Some(MutatingAction::ForceUnlock)
        } else if self.auto_forq {
            Some(MutatingAction::Forq)
        } else {
            None
        };
        match done {
            None => match self.auto_add {
                Some(deck_id) => Some(MutatingAction::AddToDeck { deck_id }),
                None => from_unlock,
            },
            Some(MutatingAction::AddToDeck { .. }) => from_unlock,
            Some(MutatingAction::ForceUnlock) => if self.auto_forq {
                Some(MutatingAction::Forq)
            } else {
                None
            },
            Some(MutatingAction::Forq) => None,
        }
    }
}

/// The settings' part that steers a run.
pub open spec fn plan_of(config: ConfigView) -> Plan {
    Plan {
        auto_open: config.auto_open,
        auto_add: config.auto_add,
        auto_unlock: config.auto_unlock,
        auto_forq: config.auto_forq,
    }
}

/// A request that the workflow asks its caller to send, by its path on the
/// site.
#[derive(Debug)]
pub enum Call {
    Get { path: String },
    /// A POST whose body is `form`, encoded as a form in the order given.
    Post { path: String, form: Vec<(String, String)> },
}

/// Mathematical value of a `Call`.
pub enum CallView {
    Get { path: Seq<char> },
    Post { path: Seq<char>, form: Seq<(Seq<char>, Seq<char>)> },
}

impl View for Call {
    type V = CallView;

    open spec fn view(&self) -> CallView {
        match self {
            Call::Get { path } => CallView::Get { path: path@ },
            Call::Post { path, form } => CallView::Post { path: path@, form: form.deep_view() },
        }
    }
}

/// What came back for a request.
#[derive(Debug)]
pub enum Reply {
    /// The site answered.
    Response { status: u16, body: String },
    /// The transport failed; the text says how.
    Failed(String),
}

/// Mathematical value of a `Reply`.
pub enum ReplyView {
    Response { status: u16, body: Seq<char> },
    Failed(Seq<char>),
}

impl View for Reply {
    type V = ReplyView;

    open spec fn view(&self) -> ReplyView {
        match self {
            Reply::Response { status, body } => ReplyView::Response { status: *status, body: body@ },
            Reply::Failed(text) => ReplyView::Failed(text@),
        }
    }
}

/// How a run ended.
#[derive(Debug)]
pub struct Outcome {
    pub result: Result<(), WorkflowError>,
    /// Address to remember as the page shown last: set when the run got as
    /// far as its actions, whatever became of them.
    pub last_opened: Option<String>,
}

/// Mathematical value of an `Outcome`.
pub struct OutcomeView {
    pub result: Result<(), WorkflowErrorView>,
    pub last_opened: Option<Seq<char>>,
}

impl View for Outcome {
    type V = OutcomeView;

    open spec fn view(&self) -> OutcomeView {
        OutcomeView {
            result: match self.result {
                Ok(_) => Ok(()),
                Err(e) => Err(e@),
            },
            last_opened: opt_text(self.last_opened),
        }
    }
}

/// Where a run stands: which reply it waits for, and what it has found so
/// far.
#[derive(Debug)]
pub enum Stage {
    SearchIssued,
    DetailIssued { detail_path: String },
    ActionIssued {
        action: MutatingAction,
        detail_path: String,
        identity: VocabId,
        /// The first failure among the actions attempted before this one.
        failure: Option<WorkflowError>,
    },
}

/// Mathematical value of a `Stage`.
pub enum StageView {
    SearchIssued,
    DetailIssued { detail_path: Seq<char> },
    ActionIssued {
        action: MutatingAction,
        detail_path: Seq<char>,
        identity: VocabIdView,
        failure: Option<WorkflowErrorView>,
    },
}

impl View for Stage {
    type V = StageView;

    open spec fn view(&self) -> StageView {
        match self {
            Stage::SearchIssued => StageView::SearchIssued,
            Stage::DetailIssued { detail_path } => StageView::DetailIssued {
                detail_path: detail_path@,
            },
            Stage::ActionIssued { action, detail_path, identity, failure } => StageView::ActionIssued {
                action: *action,
                detail_path: detail_path@,
                identity: identity@,
                failure: opt_error(*failure),
            },
        }
    }
}

/// A run of the workflow that waits for a reply.
#[derive(Debug)]
pub struct AddNote {
    pub plan: Plan,
    pub word: String,
    pub reading: String,
    pub stage: Stage,
}

/// Mathematical value of an `AddNote`.
pub struct AddNoteView {
    pub plan: Plan,
    pub word: Seq<char>,
    pub reading: Seq<char>,
    pub stage: StageView,
}

impl View for AddNote {
    type V = AddNoteView;

    open spec fn view(&self) -> AddNoteView {
        AddNoteView { plan: self.plan, word: self.word@, reading: self.reading@, stage: self.stage@ }
    }
}

/// What the caller does next: send a request and come back with the reply,
/// or take the outcome.
#[derive(Debug)]
pub enum Next {
    Send { workflow: AddNote, call: Call },
    Done(Outcome),
}

/// Mathematical value of a `Next`.
pub enum NextView {
    Send { workflow: AddNoteView, call: CallView },
    Done(OutcomeView),
}

impl View for Next {
    type V = NextView;

    open spec fn view(&self) -> NextView {
        match self {
            Next::Send { workflow, call } => NextView::Send { workflow: workflow@, call: call@ },
            Next::Done(outcome) => NextView::Done(outcome@),
        }
    }
}

/// One decision of the workflow.
#[derive(Debug)]
pub struct Step {
    /// Address to show in the browser before going on. Showing it may fail
    /// without consequence for the run.
    pub open: Option<String>,
    pub next: Next,
}

/// Mathematical value of a `Step`.
pub struct StepView {
    pub open: Option<Seq<char>>,
    pub next: NextView,
}

impl View for Step {
    type V = StepView;

    open spec fn view(&self) -> StepView {
        StepView { open: opt_text(self.open), next: self.next@ }
    }
}

/// The status means success.
pub open spec fn is_success(status: u16) -> bool {
    200 <= status <= 299
}

/// The status sends the client elsewhere.
pub open spec fn is_redirection(status: u16) -> bool {
    300 <= status <= 399
}

/// The site took the action: adding to a deck needs a success status, the
/// other two also count a redirection, by which the site reports success for
/// them.
pub open spec fn accepted(action: MutatingAction, status: u16) -> bool {
    match action {
        MutatingAction::AddToDeck { .. } => is_success(status),
        MutatingAction::ForceUnlock => is_success(status) || is_redirection(status),
        MutatingAction::Forq => is_success(status) || is_redirection(status),
    }
}

/// Path to which the action is posted.
pub open spec fn action_path(action: MutatingAction) -> Seq<char> {
    match action {
        MutatingAction::AddToDeck { deck_id } => "/deck/"@ + decimal(deck_id as nat) + "/add"@,
        MutatingAction::ForceUnlock => "/force-unlock"@,
        MutatingAction::Forq => "/prioritize"@,
    }
}

/// Form fields of the action, in the order in which they are sent. The
/// `origin` is the card's detail path.
pub open spec fn action_form(action: MutatingAction, identity: VocabIdView, origin: Seq<char>) -> Seq<
    (Seq<char>, Seq<char>),
> {
    match action {
        MutatingAction::AddToDeck { .. } => seq![
            ("v"@, identity.v),
            ("r"@, identity.r),
            ("s"@, identity.s),
            ("origin"@, origin),
        ],
        _ => seq![("v"@, identity.v), ("s"@, identity.s), ("origin"@, origin)],
    }
}

/// The request that performs the action.
pub open spec fn action_call(action: MutatingAction, identity: VocabIdView, origin: Seq<char>) -> CallView {
    CallView::Post { path: action_path(action), form: action_form(action, identity, origin) }
}

/// The failure that the reply to an action amounts to, if any.
pub open spec fn action_failure(action: MutatingAction, reply: ReplyView) -> Option<WorkflowErrorView> {
    match reply {
        ReplyView::Failed(text) => Some(WorkflowErrorView::Transport(Exchange::Action(action), text)),
        ReplyView::Response { status, .. } => if accepted(action, status) {
            None
        } else {
            Some(WorkflowErrorView::UnexpectedStatus(action, status))
        },
    }
}

/// A step that ends the run.
pub open spec fn done(
    open: Option<Seq<char>>,
    result: Result<(), WorkflowErrorView>,
    last_opened: Option<Seq<char>>,
) -> StepView {
    StepView { open, next: NextView::Done(OutcomeView { result, last_opened }) }
}

/// With the identity in hand and the actions up to `finished` attempted:
/// attempt the next action that is asked for, or end the run. The run ends in
/// the first failure met, or in success if there was none, and remembers the
/// detail page either way.
pub open spec fn continue_actions(
    plan: Plan,
    word: Seq<char>,
    reading: Seq<char>,
    finished: Option<MutatingAction>,
    detail_path: Seq<char>,
    identity: VocabIdView,
    failure: Option<WorkflowErrorView>,
) -> StepView {
    match plan.action_after(finished) {
        Some(action) => StepView {
            open: None,
            next: NextView::Send {
                workflow: AddNoteView {
                    plan,
                    word,
                    reading,
                    stage: StageView::ActionIssued { action, detail_path, identity, failure },
                },
                call: action_call(action, identity, detail_path),
            },
        },
        None => done(
            None,
            match failure {
                Some(e) => Err(e),
                None => Ok(()),
            },
            Some(abs_url_text(detail_path)),
        ),
    }
}

/// The first step of a run: refuse settings that ask for an action on the
/// site without a session, else search for the word.
pub open spec fn first_step(config: ConfigView, fields: FieldsView) -> StepView {
    if config.any_mutating_action() && config.session_id is None {
        done(None, Err(WorkflowErrorView::Configuration), None)
    } else {
        StepView {
            open: None,
            next: NextView::Send {
                workflow: AddNoteView {
                    plan: plan_of(config),
                    word: fields.word,
                    reading: fields.reading,
                    stage: StageView::SearchIssued,
                },
                call: CallView::Get { path: search_path_text(fields.word) },
            },
        }
    }
}

/// The step that follows the reply to the search.
pub open spec fn after_search(plan: Plan, word: Seq<char>, reading: Seq<char>, reply: ReplyView) -> StepView {
    match reply {
        ReplyView::Failed(text) => done(
            None,
            Err(WorkflowErrorView::Transport(Exchange::Search, text)),
            None,
        ),
        ReplyView::Response { body, .. } => {
            let detail = detail_url(body, word, reading);
            let target = match detail {
                Some(path) => abs_url_text(path),
                None => abs_url_text(search_path_text(word)),
            };
            let open = if plan.auto_open {
                Some(target)
            } else {
                None
            };
            if !plan.any_mutating_action() {
                done(open, Ok(()), Some(target))
            } else {
                match detail {
                    None => done(open, Err(WorkflowErrorView::CardNotFound), None),
                    Some(path) => StepView {
                        open,
                        next: NextView::Send {
                            workflow: AddNoteView {
                                plan,
                                word,
                                reading,
                                stage: StageView::DetailIssued { detail_path: path },
                            },
                            call: CallView::Get { path },
                        },
                    },
                }
            }
        },
    }
}

/// The step that follows the reply to the request for the detail page.
pub open spec fn after_detail(
    plan: Plan,
    word: Seq<char>,
    reading: Seq<char>,
    detail_path: Seq<char>,
    reply: ReplyView,
) -> StepView {
    match reply {
        ReplyView::Failed(text) => done(
            None,
            Err(WorkflowErrorView::Transport(Exchange::DetailPage, text)),
            None,
        ),
        ReplyView::Response { body, .. } => match vocab_id(body) {
            None => done(None, Err(WorkflowErrorView::IdentityNotFound), None),
            Some(identity) => continue_actions(plan, word, reading, None, detail_path, identity, None),
        },
    }
}

/// The step that follows a reply, by the stage at which the run stands.
pub open spec fn next_step(w: AddNoteView, reply: ReplyView) -> StepView {
    match w.stage {
        StageView::SearchIssued => after_search(w.plan, w.word, w.reading, reply),
        StageView::DetailIssued { detail_path } => after_detail(
            w.plan,
            w.word,
            w.reading,
            detail_path,
            reply,
        ),
        StageView::ActionIssued { action, detail_path, identity, failure } => continue_actions(
            w.plan,
            w.word,
            w.reading,
            Some(action),
            detail_path,
            identity,
            match failure {
                Some(e) => Some(e),
                None => action_failure(action, reply),
            },
        ),
    }
}

impl Plan {
    /// Takes from the settings what steers a run.
    pub fn of(config: &Config) -> (plan: Plan)
        ensures
            plan == plan_of(config@),
    {
        Plan {
            auto_open: config.auto_open,
            auto_add: config.auto_add,
            auto_unlock: config.auto_unlock,
            auto_forq: config.auto_forq,
        }
    }

    /// The action to attempt after `done`, or first of all where `done` is
    /// `None`.
    pub fn next_action(&self, done: Option<MutatingAction>) -> (r: Option<MutatingAction>)
        ensures
            r == self.action_after(done),
    {
        let from_unlock = if self.auto_unlock {
            Some(MutatingAction::ForceUnlock)
        } else if self.auto_forq {
            Some(MutatingAction::Forq)
        } else {
            None
        };
        match done {
            None => match self.auto_add {
                Some(deck_id) => Some(MutatingAction::AddToDeck { deck_id }),
                None => from_unlock,
            },
            Some(MutatingAction::AddToDeck { .. }) => from_unlock,
            Some(MutatingAction::ForceUnlock) => if self.auto_forq {
                Some(MutatingAction::Forq)
            } else {
                None
            },
            Some(MutatingAction::Forq) => None,
        }
    }
}

impl MutatingAction {
    /// Tells whether the site took the action, by the status of its answer.
    pub fn accepts(&self, status: u16) -> (r: bool)
        ensures
            r == accepted(*self, status),
    {
        let success = 200 <= status && status <= 299;
        let redirection = 300 <= status && status <= 399;
        match self {
            MutatingAction::AddToDeck { .. } => success,
            MutatingAction::ForceUnlock => success || redirection,
            MutatingAction::Forq => success || redirection,
        }
    }

    /// Path to which the action is posted.
    pub fn path(&self) -> (path: String)
        ensures
            path@ == action_path(*self),
    {
        match self {
            MutatingAction::AddToDeck { deck_id } => {
                let mut path = String::from_str("/deck/");
                path.append(decimal_string(*deck_id).as_str());
                path.append("/add");
                path
            },
            MutatingAction::ForceUnlock => String::from_str("/force-unlock"),
            MutatingAction::Forq => String::from_str("/prioritize"),
        }
    }

    /// The request that performs the action on the card with the given
    /// identity; `origin` is the card's detail path.
    pub fn call(&self, identity: &VocabId, origin: &str) -> (call: Call)
        ensures
            call@ == action_call(*self, identity@, origin@),
    {
        let mut form: Vec<(String, String)> = Vec::new();
        form.push((String::from_str("v"), identity.v.clone()));
        match self {
            MutatingAction::AddToDeck { .. } => {
                form.push((String::from_str("r"), identity.r.clone()));
            },
            _ => {},
        }
        form.push((String::from_str("s"), identity.s.clone()));
        form.push((String::from_str("origin"), String::from_str(origin)));
        assert(form.deep_view() =~= action_form(*self, identity@, origin@));
        Call::Post { path: self.path(), form }
    }

    /// The failure that the reply to the action amounts to, if any.
    pub fn failure(&self, reply: Reply) -> (r: Option<WorkflowError>)
        ensures
            opt_error(r) == action_failure(*self, reply@),
    {
        match reply {
            Reply::Failed(text) => Some(WorkflowError::Transport(Exchange::Action(*self), text)),
            Reply::Response { status, body: _ } => if self.accepts(status) {
                None
            } else {
                Some(WorkflowError::UnexpectedStatus(*self, status))
            },
        }
    }
}

/// A step that ends the run.
fn finish(
    open: Option<String>,
    result: Result<(), WorkflowError>,
    last_opened: Option<String>,
) -> (s: Step)
    ensures
        s@ == done(
            opt_text(open),
            match result {
                Ok(_) => Ok(()),
                Err(e) => Err(e@),
            },
            opt_text(last_opened),
        ),
{
    Step { open, next: Next::Done(Outcome { result, last_opened }) }
}

/// Attempts the next action that is asked for, or ends the run.
fn proceed(
    plan: Plan,
    word: String,
    reading: String,
    finished: Option<MutatingAction>,
    detail_path: String,
    identity: VocabId,
    failure: Option<WorkflowError>,
) -> (s: Step)
    ensures
        s@ == continue_actions(
            plan,
            word@,
            reading@,
            finished,
            detail_path@,
            identity@,
            opt_error(failure),
        ),
{
    match plan.next_action(finished) {
        Some(action) => {
            let call = action.call(&identity, detail_path.as_str());
            Step {
                open: None,
                next: Next::Send {
                    workflow: AddNote {
                        plan,
                        word,
                        reading,
                        stage: Stage::ActionIssued { action, detail_path, identity, failure },
                    },
                    call,
                },
            }
        },
        None => {
            let result = match failure {
                Some(e) => Err(e),
                None => Ok(()),
            };
            finish(None, result, Some(abs_url(detail_path.as_str())))
        },
    }
}

impl AddNote {
    /// Begins a run for the word in `fields` under the settings `config`.
    ///
    /// Settings that ask for an action on the site without a session end the
    /// run at once, before any request. Otherwise the first request is the
    /// search for the word.
    pub fn start(config: &Config, fields: &Fields) -> (s: Step)
        ensures
            s@ == first_step(config@, fields@),
    {
        if config.any_mutating_action() && config.session_id.is_none() {
            finish(None, Err(WorkflowError::Configuration), None)
        } else {
            Step {
                open: None,
                next: Next::Send {
                    workflow: AddNote {
                        plan: Plan::of(config),
                        word: fields.word.clone(),
                        reading: fields.reading.clone(),
                        stage: Stage::SearchIssued,
                    },
                    call: Call::Get { path: search_path(fields.word.as_str()) },
                },
            }
        }
    }

    /// Takes the reply to the request that the last step asked for, and
    /// decides what comes next.
    pub fn step(self, reply: Reply) -> (s: Step)
        ensures
            s@ == next_step(self@, reply@),
    {
        let AddNote { plan, word, reading, stage } = self;
        match stage {
            Stage::SearchIssued => search_replied(plan, word, reading, reply),
            Stage::DetailIssued { detail_path } => detail_replied(
                plan,
                word,
                reading,
                detail_path,
                reply,
            ),
            Stage::ActionIssued { action, detail_path, identity, failure } => {
                let failure = match failure {
                    Some(e) => Some(e),
                    None => action.failure(reply),
                };
                proceed(plan, word, reading, Some(action), detail_path, identity, failure)
            },
        }
    }
}

/// Resolves the detail page from the reply to the search.
fn search_replied(plan: Plan, word: String, reading: String, reply: Reply) -> (s: Step)
    ensures
        s@ == after_search(plan, word@, reading@, reply@),
{
    match reply {
        Reply::Failed(text) => finish(
            None,
            Err(WorkflowError::Transport(Exchange::Search, text)),
            None,
        ),
        Reply::Response { status: _, body } => {
            let detail = find_detail_url(body.as_str(), word.as_str(), reading.as_str());
            let target = match &detail {
                Ok(path) => abs_url(path.as_str()),
                Err(_) => abs_url(search_path(word.as_str()).as_str()),
            };
            let open = if plan.auto_open {
                Some(target.clone())
            } else {
                None
            };
            let any_action = plan.auto_add.is_some() || plan.auto_unlock || plan.auto_forq;
            if !any_action {
                finish(open, Ok(()), Some(target))
            } else {
                match detail {
                    Err(_) => finish(open, Err(WorkflowError::CardNotFound), None),
                    Ok(path) => Step {
                        open,
                        next: Next::Send {
                            workflow: AddNote {
                                plan,
                                word,
                                reading,
                                stage: Stage::DetailIssued { detail_path: path.clone() },
                            },
                            call: Call::Get { path },
                        },
                    },
                }
            }
        },
    }
}

/// Reads the card's identity from the reply to the request for the detail
/// page and turns to the actions.
fn detail_replied(
    plan: Plan,
    word: String,
    reading: String,
    detail_path: String,
    reply: Reply,
) -> (s: Step)
    ensures
        s@ == after_detail(plan, word@, reading@, detail_path@, reply@),
{
    match reply {
        Reply::Failed(text) => finish(
            None,
            Err(WorkflowError::Transport(Exchange::DetailPage, text)),
            None,
        ),
        Reply::Response { status: _, body } => match find_vocab_id(body.as_str()) {
            Err(_) => finish(None, Err(WorkflowError::IdentityNotFound), None),
            Ok(identity) => proceed(plan, word, reading, None, detail_path, identity, None),
        },
    }
}

impl Call {
    /// Describes the request for the transport: the address in full, and for
    /// a POST the form-encoded body.
    pub fn to_request(&self) -> (r: Result<HttpRequest, EncodingFailed>)
        ensures
            match self@ {
                CallView::Get { path } => r matches Ok(req) && req@ == get_request_view(path),
                CallView::Post { path, form } => match form_urlencoded(form) {
                    Some(body) => r matches Ok(req) && req@ == post_request_view(path, body),
                    None => r is Err,
                },
            },
    {
        match self {
            Call::Get { path } => Ok(get_request(path.as_str())),
            Call::Post { path, form } => form_request(path.as_str(), form),
        }
    }
}

impl Exchange {
    /// Short name of the exchange, for messages.
    pub open spec fn label_text(self) -> Seq<char> {
        match self {
            Exchange::Search => "search request"@,
            Exchange::DetailPage => "get detail page"@,
            Exchange::Action(MutatingAction::AddToDeck { .. }) => "add to deck"@,
            Exchange::Action(MutatingAction::ForceUnlock) => "force-unlock request"@,
            Exchange::Action(MutatingAction::Forq) => "forq request"@,
        }
    }

    /// Short name of the exchange, for messages.
    pub fn label(&self) -> (s: &'static str)
        ensures
            s@ == self.label_text(),
    {
        match self {
            Exchange::Search => "search request",
            Exchange::DetailPage => "get detail page",
            Exchange::Action(MutatingAction::AddToDeck { .. }) => "add to deck",
            Exchange::Action(MutatingAction::ForceUnlock) => "force-unlock request",
            Exchange::Action(MutatingAction::Forq) => "forq request",
        }
    }
}

impl WorkflowErrorView {
    /// The one line that tells the user what went wrong.
    pub open spec fn message_text(self) -> Seq<char> {
        match self {
            WorkflowErrorView::Configuration => "a session id is needed for the configured actions"@,
            WorkflowErrorView::Transport(exchange, text) => exchange.label_text() + ": "@ + text,
            WorkflowErrorView::CardNotFound => "can't find card"@,
            WorkflowErrorView::IdentityNotFound => "can't find vocab id"@,
            WorkflowErrorView::UnexpectedStatus(action, status) => (match action {
                MutatingAction::AddToDeck { .. } => "Add to deck failed, status: "@,
                MutatingAction::ForceUnlock => "force unlock failed, status: "@,
                MutatingAction::Forq => "FORQ failed, status: "@,
            }) + decimal(status as nat),
        }
    }
}

impl WorkflowError {
    /// The one line that tells the user what went wrong.
    pub fn message(&self) -> (s: String)
        ensures
            s@ == self@.message_text(),
    {
        match self {
            WorkflowError::Configuration => String::from_str(
                "a session id is needed for the configured actions",
            ),
            WorkflowError::Transport(exchange, text) => {
                let mut s = String::from_str(exchange.label());
                s.append(": ");
                s.append(text.as_str());
                s
            },
            WorkflowError::CardNotFound => String::from_str("can't find card"),
            WorkflowError::IdentityNotFound => String::from_str("can't find vocab id"),
            WorkflowError::UnexpectedStatus(action, status) => {
                let mut s = String::from_str(
                    match action {
                        MutatingAction::AddToDeck { .. } => "Add to deck failed, status: ",
                        MutatingAction::ForceUnlock => "force unlock failed, status: ",
                        MutatingAction::Forq => "FORQ failed, status: ",
                    },
                );
                s.append(decimal_string(*status as u64).as_str());
                s
            },
        }
    }
}

/// A lookup under settings that ask for no action on the site succeeds even
/// when the search result does not link to the card: the only request is the
/// search, and the page to show and to remember is the search page itself.
pub proof fn lemma_lookup_without_detail_succeeds(
    config: ConfigView,
    fields: FieldsView,
    status: u16,
    body: Seq<char>,
)
    requires
        config.auto_add is None,
        !config.auto_forq,
        !config.auto_unlock,
        config.auto_open,
        detail_url(body, fields.word, fields.reading) is None,
    ensures
        first_step(config, fields).open is None,
        first_step(config, fields).next matches NextView::Send { workflow, call } && {
            let search = abs_url_text(search_path_text(fields.word));
            &&& call == CallView::Get { path: search_path_text(fields.word) }
            &&& next_step(workflow, ReplyView::Response { status, body }) == done(
                Some(search),
                Ok(()),
                Some(search),
            )
        },
{
}

/// When an action on the site is asked for and the card's detail page does
/// not show the identifiers, the run fails for want of the identity, and the
/// two requests it made, the search and the detail page, are both GETs:
/// nothing was posted.
pub proof fn lemma_missing_identity_fails_without_post(
    config: ConfigView,
    fields: FieldsView,
    search_status: u16,
    search_body: Seq<char>,
    detail_status: u16,
    detail_body: Seq<char>,
)
    requires
        config.any_mutating_action(),
        config.session_id is Some,
        detail_url(search_body, fields.word, fields.reading) is Some,
        vocab_id(detail_body) is None,
    ensures
        ({
            &&& first_step(config, fields).next matches NextView::Send { workflow: searching, call: search }
            &&& search is Get
            &&& next_step(
                searching,
                ReplyView::Response { status: search_status, body: search_body },
            ).next matches NextView::Send { workflow: fetching, call: fetch }
            &&& fetch is Get
            &&& next_step(fetching, ReplyView::Response { status: detail_status, body: detail_body })
                == done(None, Err(WorkflowErrorView::IdentityNotFound), None)
        }),
{
}

/// A run that is only to add the card to a deck makes exactly three
/// requests: the search, the detail page, and one POST to the deck's `add`
/// path with the fields `v`, `r`, `s` and `origin` in that order, where
/// `origin` is the detail path. It then ends, in success if and only if the
/// POST's status means success, and remembers the detail page either way.
pub proof fn lemma_add_to_deck_posts_once(
    config: ConfigView,
    fields: FieldsView,
    search_status: u16,
    search_body: Seq<char>,
    detail_status: u16,
    detail_body: Seq<char>,
    post_status: u16,
    post_body: Seq<char>,
)
    requires
        config.auto_add is Some,
        !config.auto_forq,
        !config.auto_unlock,
        config.session_id is Some,
        detail_url(search_body, fields.word, fields.reading) is Some,
        vocab_id(detail_body) is Some,
    ensures
        ({
            let deck_id = config.auto_add->0;
            let path = detail_url(search_body, fields.word, fields.reading)->0;
            let id = vocab_id(detail_body)->0;
            &&& first_step(config, fields).next matches NextView::Send { workflow: searching, call: search }
            &&& search == CallView::Get { path: search_path_text(fields.word) }
            &&& next_step(
                searching,
                ReplyView::Response { status: search_status, body: search_body },
            ).next matches NextView::Send { workflow: fetching, call: fetch }
            &&& fetch == CallView::Get { path }
            &&& next_step(
                fetching,
                ReplyView::Response { status: detail_status, body: detail_body },
            ).next matches NextView::Send { workflow: adding, call: post }
            &&& post == CallView::Post {
                path: "/deck/"@ + decimal(deck_id as nat) + "/add"@,
                form: seq![("v"@, id.v), ("r"@, id.r), ("s"@, id.s), ("origin"@, path)],
            }
            &&& next_step(adding, ReplyView::Response { status: post_status, body: post_body })
                == done(
                None,
                if is_success(post_status) {
                    Ok(())
                } else {
                    Err(
                        WorkflowErrorView::UnexpectedStatus(
                            MutatingAction::AddToDeck { deck_id },
                            post_status,
                        ),
                    )
                },
                Some(abs_url_text(path)),
            )
        }),
{
}

/// Nothing is posted without the card's identity: the first step never
/// posts, no step posts in answer to the search, and a step posts in answer
/// to the detail page only if the page shows the identifiers.
pub proof fn lemma_posts_need_identity(
    config: ConfigView,
    fields: FieldsView,
    w: AddNoteView,
    reply: ReplyView,
)
    ensures
        first_step(config, fields).next is Send ==> first_step(config, fields).next->call is Get,
        next_step(w, reply).next is Send && next_step(w, reply).next->call is Post ==> {
            &&& next_step(w, reply).next->workflow.stage is ActionIssued
            &&& !(w.stage is SearchIssued)
            &&& w.stage is DetailIssued ==> reply is Response && vocab_id(reply->body) is Some
        },
{
}

/// The failure of one action does not keep the run from the next: whatever
/// the reply to an action, the action that the settings ask for after it is
/// attempted.
pub proof fn lemma_actions_are_independent(w: AddNoteView, reply: ReplyView)
    requires
        w.stage is ActionIssued,
        w.plan.action_after(Some(w.stage->action)) is Some,
    ensures
        next_step(w, reply).next matches NextView::Send { workflow, call } && call == action_call(
            w.plan.action_after(Some(w.stage->action))->0,
            w.stage->identity,
            w.stage->ActionIssued_detail_path,
        ),
{
}

/// Settings that ask for an action on the site without a session are
/// refused before any request is made.
pub proof fn lemma_actions_need_session(config: ConfigView, fields: FieldsView)
    requires
        config.any_mutating_action(),
        config.session_id is None,
    ensures
        first_step(config, fields) == done(None, Err(WorkflowErrorView::Configuration), None),
{
}

} // verus!
