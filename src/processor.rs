use vstd::prelude::*;
use crate::functions::{filter_labels, matched_labels, strings};
use crate::text::str_eq;
use crate::types::{change_paths, Changes, Config, ObjectAttributes, Options, Webhook};

verus! {

/// The event type that is processed; deliveries of other types are ignored.
pub const MERGE_REQUEST_EVENT: &'static str = "merge_request";

/// Why one labeling run failed.
#[derive(Debug)]
pub enum ProcessError {
    /// A body that could not be decoded: the delivery or the list of changes.
    Decode(String),
    /// A URL whose scheme is not `http` or `https`, or that does not parse.
    InvalidUrl(String),
    /// A request method other than GET or PUT.
    UnsupportedMethod(String),
    /// A failed transport or a non-success status of an outbound call.
    Remote(String),
    /// A label configuration that does not parse: the parser's message and the text.
    Config { message: String, raw: String },
}

/// Why a run stopped early with success and without any outbound call.
#[derive(PartialEq, Eq, Structural, Clone, Copy, Debug)]
pub enum Skip {
    /// The action is absent, or neither `open` nor `reopen`.
    NotOpened,
    /// The event type is not `merge_request`.
    OtherEvent,
    /// No token is configured.
    NoToken,
}

/// Where one labeling run stands.
#[derive(Debug)]
pub enum Stage {
    /// Waiting for the decoded delivery.
    Received,
    /// Waiting for the merge request's changes.
    AwaitingChanges { project: u64, iid: u64 },
    /// Waiting for the label configuration, the changes in hand.
    AwaitingConfig { project: u64, iid: u64, changes: Changes },
    /// Waiting for the outcome of setting the labels.
    AwaitingApply,
    /// Done: no further event is taken.
    Finished,
}

/// What the outside world reports back to a run.
#[derive(Debug)]
pub enum Event {
    /// The delivery's body, decoded.
    Delivered(Result<Webhook, ProcessError>),
    /// The merge request's changes, fetched and decoded.
    ChangesFetched(Result<Changes, ProcessError>),
    /// The label configuration, fetched and parsed.
    ConfigFetched(Result<Config, ProcessError>),
    /// The outcome of setting the labels.
    LabelsApplied(Result<(), ProcessError>),
}

/// What a run asks the outside world to do next.
#[derive(Debug)]
pub enum Action {
    /// GET the changes of merge request `iid` of `project`.
    FetchChanges { project: u64, iid: u64 },
    /// GET the label configuration of `project` from the configured branch.
    FetchConfig { project: u64 },
    /// PUT `labels` on merge request `iid` of `project`.
    ApplyLabels { project: u64, iid: u64, labels: Vec<String> },
    /// Stop with success; nothing was or will be sent.
    Skip(Skip),
    /// Stop with this outcome.
    Finish(Result<(), ProcessError>),
}

/// The action is `open` or `reopen`.
pub open spec fn is_opened(attr: ObjectAttributes) -> bool {
    match attr.action {
        Some(a) => a@ == "open"@ || a@ == "reopen"@,
        None => false,
    }
}

/// Why a delivery is ignored, checked in this order, or `None` when it is processed.
pub open spec fn skip_reason(hook: Webhook, opts: Options) -> Option<Skip> {
    if !is_opened(hook.object_attributes) {
        Some(Skip::NotOpened)
    } else if hook.event_type@ != MERGE_REQUEST_EVENT@ {
        Some(Skip::OtherEvent)
    } else if opts.gitlab_token@.len() == 0 {
        Some(Skip::NoToken)
    } else {
        None
    }
}

/// The event that a stage waits for.
pub open spec fn accepts(stage: Stage, event: Event) -> bool {
    match stage {
        Stage::Received => event is Delivered,
        Stage::AwaitingChanges { .. } => event is ChangesFetched,
        Stage::AwaitingConfig { .. } => event is ConfigFetched,
        Stage::AwaitingApply => event is LabelsApplied,
        Stage::Finished => false,
    }
}

/// One step of a run: from `stage`, on `event`, the run moves to `next` and asks for `action`.
pub open spec fn is_step(stage: Stage, event: Event, opts: Options, next: Stage, action: Action) -> bool {
    match event {
        Event::Delivered(Err(e)) => next is Finished && action == Action::Finish(Err(e)),
        Event::Delivered(Ok(hook)) => match skip_reason(hook, opts) {
            Some(why) => next is Finished && action == Action::Skip(why),
            None => {
                &&& next == (Stage::AwaitingChanges {
                    project: hook.project.id,
                    iid: hook.object_attributes.iid,
                })
                &&& action == (Action::FetchChanges {
                    project: hook.project.id,
                    iid: hook.object_attributes.iid,
                })
            },
        },
        Event::ChangesFetched(Err(e)) => next is Finished && action == Action::Finish(Err(e)),
        Event::ChangesFetched(Ok(changes)) => match stage {
            Stage::AwaitingChanges { project, iid } => {
                &&& next == (Stage::AwaitingConfig { project, iid, changes })
                &&& action == (Action::FetchConfig { project })
            },
            _ => false,
        },
        Event::ConfigFetched(Err(e)) => next is Finished && action == Action::Finish(Err(e)),
        Event::ConfigFetched(Ok(config)) => match stage {
            Stage::AwaitingConfig { project, iid, changes } => {
                &&& next is AwaitingApply
                &&& action matches Action::ApplyLabels { project: p, iid: i, labels }
                &&& p == project
                &&& i == iid
                &&& strings(labels@) == matched_labels(config.labels@, change_paths(changes.changes@))
            },
            _ => false,
        },
        Event::LabelsApplied(res) => next is Finished && action == Action::Finish(res),
    }
}

impl Stage {
    /// Whether this stage waits for `event`.
    pub fn accepts(&self, event: &Event) -> (r: bool)
        ensures
            r == accepts(*self, *event),
    {
        match self {
            Stage::Received => matches!(event, Event::Delivered(_)),
            Stage::AwaitingChanges { .. } => matches!(event, Event::ChangesFetched(_)),
            Stage::AwaitingConfig { .. } => matches!(event, Event::ConfigFetched(_)),
            Stage::AwaitingApply => matches!(event, Event::LabelsApplied(_)),
            Stage::Finished => false,
        }
    }
}

/// Whether the merge request was opened or reopened.
pub fn verify_action(attr: &ObjectAttributes) -> (r: bool)
    ensures
        r == is_opened(*attr),
{
    match &attr.action {
        Some(action) => str_eq(action.as_str(), "open") || str_eq(action.as_str(), "reopen"),
        None => false,
    }
}

/// The webhook processor: it decides each step of a labeling run, while the
/// caller performs the outbound calls and reports their outcomes back.
#[derive(Debug, Clone, Copy)]
pub struct Labeler;

impl Labeler {
    /// Decides the next step of a run from where it stands and what came back.
    pub fn step(&self, stage: Stage, event: Event, opts: &Options) -> (r: (Stage, Action))
        requires
            accepts(stage, event),
        ensures
            is_step(stage, event, *opts, r.0, r.1),
    {
        match event {
            Event::Delivered(Err(e)) => (Stage::Finished, Action::Finish(Err(e))),
            Event::Delivered(Ok(hook)) => {
                if !verify_action(&hook.object_attributes) {
                    (Stage::Finished, Action::Skip(Skip::NotOpened))
                } else if !str_eq(hook.event_type.as_str(), MERGE_REQUEST_EVENT) {
                    (Stage::Finished, Action::Skip(Skip::OtherEvent))
                } else if opts.gitlab_token.as_str().unicode_len() == 0 {
                    (Stage::Finished, Action::Skip(Skip::NoToken))
                } else {
                    let project = hook.project.id;
                    let iid = hook.object_attributes.iid;
                    (Stage::AwaitingChanges { project, iid }, Action::FetchChanges { project, iid })
                }
            },
            Event::ChangesFetched(Err(e)) => (Stage::Finished, Action::Finish(Err(e))),
            Event::ChangesFetched(Ok(changes)) => match stage {
                Stage::AwaitingChanges { project, iid } => (
                    Stage::AwaitingConfig { project, iid, changes },
                    Action::FetchConfig { project },
                ),
                _ => (Stage::Finished, Action::Finish(Ok(()))),
            },
            Event::ConfigFetched(Err(e)) => (Stage::Finished, Action::Finish(Err(e))),
            Event::ConfigFetched(Ok(config)) => match stage {
                Stage::AwaitingConfig { project, iid, changes } => {
                    let labels = filter_labels(config, changes);
                    (Stage::AwaitingApply, Action::ApplyLabels { project, iid, labels })
                },
                _ => (Stage::Finished, Action::Finish(Ok(()))),
            },
            Event::LabelsApplied(res) => (Stage::Finished, Action::Finish(res)),
        }
    }
}

/// A delivery whose action is absent or neither `open` nor `reopen`, whose
/// event type is not `merge_request`, or that arrives while no token is
/// configured, ends its run at once with success: no outbound call is asked
/// for, then or later.
pub proof fn lemma_ignored_delivery_ends_run(hook: Webhook, opts: Options, next: Stage, action: Action)
    requires
        is_step(Stage::Received, Event::Delivered(Ok(hook)), opts, next, action),
        !is_opened(hook.object_attributes) || hook.event_type@ != MERGE_REQUEST_EVENT@
            || opts.gitlab_token@.len() == 0,
    ensures
        action is Skip,
        next is Finished,
        forall|e: Event| !accepts(next, e),
{
}

/// A label configuration that does not parse fails the run with that
/// configuration error, and no labels are set.
pub proof fn lemma_config_error_fails_run(
    stage: Stage,
    message: String,
    raw: String,
    opts: Options,
    next: Stage,
    action: Action,
)
    requires
        is_step(
            stage,
            Event::ConfigFetched(Err(ProcessError::Config { message, raw })),
            opts,
            next,
            action,
        ),
    ensures
        action == Action::Finish(Err(ProcessError::Config { message, raw })),
        !(action is ApplyLabels),
        next is Finished,
        forall|e: Event| !accepts(next, e),
{
}

} // verus!
