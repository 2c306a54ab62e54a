//! The protocol of sending a notification: check the bundle, register the
//! category synthesised from the actions, schedule the request, and (when a
//! response is wanted) wait for the user or the timeout.
//!
//! `SendFlow` makes every decision of that protocol; whoever drives it
//! performs each `SendAction` against the notification center and reports
//! what happened as the next `SendEvent`.

use std::time::Duration;
use vstd::prelude::*;
use vstd::relations::*;
use vstd::seq_lib::*;

use super::action::Action;
use super::response::NotificationResponse;
use super::{Error, Notification};
use crate::text::{
    count_char, join_with_comma, join_with_commas, sorted_texts, text_order, texts_view,
};

verus! {

/// The identifiers of the actions, in the order the actions come.
pub open spec fn action_identifiers(actions: Seq<Action>) -> Seq<Seq<char>> {
    actions.map_values(|a: Action| a.identifier@)
}

/// The identifier of the category synthesised for a set of actions: their
/// identifiers in the order of `str`, joined with `,`.
pub open spec fn category_id(identifiers: Seq<Seq<char>>) -> Seq<char> {
    join_with_comma(identifiers.sort_by(text_order()))
}

/// The identifier of the category synthesised for `actions`.
pub fn category_identifier(actions: &Vec<Action>) -> (r: String)
    ensures
        r@ == category_id(action_identifiers(actions@)),
{
    let mut ids: Vec<&str> = Vec::new();
    let mut i: usize = 0;
    while i < actions.len()
        invariant
            i <= actions@.len(),
            ids@.len() == i,
            texts_view(ids@) == action_identifiers(actions@).take(i as int),
        decreases actions@.len() - i,
    {
        let id = actions[i].identifier.as_str();
        let ghost before = ids@;
        ids.push(id);
        proof {
            let all = action_identifiers(actions@);
            assert forall|j: int| 0 <= j < i + 1 implies texts_view(ids@)[j] == all.take(
                i + 1,
            )[j] by {
                if j < i {
                    assert(texts_view(before)[j] == all.take(i as int)[j]);
                }
            }
            assert(texts_view(ids@) =~= all.take(i + 1));
        }
        i = i + 1;
    }
    proof {
        assert(action_identifiers(actions@).take(actions@.len() as int) =~= action_identifiers(
            actions@,
        ));
    }
    let sorted = sorted_texts(&ids);
    join_with_commas(&sorted)
}

/// The synthesised category does not depend on the order in which the
/// actions were added: the same identifiers in any order give the same
/// category identifier.
pub proof fn law_category_id_ignores_order(a: Seq<Seq<char>>, b: Seq<Seq<char>>)
    requires
        a.to_multiset() == b.to_multiset(),
    ensures
        category_id(a) == category_id(b),
{
    crate::text::lemma_text_order_total();
    a.lemma_sort_by_ensures(text_order());
    b.lemma_sort_by_ensures(text_order());
    lemma_sorted_unique(a.sort_by(text_order()), b.sort_by(text_order()), text_order());
}

/// The synthesised category keeps every identifier: it is the join of a
/// sorted rearrangement of all of them, and for identifiers that hold no
/// `,` it splits back into exactly as many parts as there are identifiers.
pub proof fn law_category_id_keeps_every_identifier(ids: Seq<Seq<char>>)
    requires
        forall|i: int| 0 <= i < ids.len() ==> !(#[trigger] ids[i]).contains(','),
    ensures
        ids.sort_by(text_order()).to_multiset() == ids.to_multiset(),
        sorted_by(ids.sort_by(text_order()), text_order()),
        category_id(ids) == join_with_comma(ids.sort_by(text_order())),
        ids.len() == 0 ==> category_id(ids) == Seq::<char>::empty(),
        ids.len() > 0 ==> count_char(category_id(ids), ',') + 1 == ids.len(),
{
    broadcast use group_to_multiset_ensures;

    crate::text::lemma_text_order_total();
    ids.lemma_sort_by_ensures(text_order());
    let sorted = ids.sort_by(text_order());
    assert(sorted.len() == ids.len()) by {
        assert(sorted.to_multiset().len() == ids.to_multiset().len());
    }
    assert forall|i: int| 0 <= i < sorted.len() implies !(#[trigger] sorted[i]).contains(',') by {
        assert(sorted.contains(sorted[i]));
        assert(ids.contains(sorted[i]));
        let j = choose|j: int| 0 <= j < ids.len() && ids[j] == sorted[i];
        assert(!ids[j].contains(','));
    }
    crate::text::law_join_separates_every_part(sorted);
}

/// Where a send stands.
#[derive(Debug, Clone, Copy, PartialEq, Eq, Structural)]
pub enum SendStage {
    CheckingBundle,
    Scheduling,
    AwaitingResponse,
    Finished,
}

/// What happened since the last action.
pub enum SendEvent {
    /// The main bundle was looked up; `true` if it has an identifier.
    BundleChecked(bool),
    /// The scheduling request completed: `true` if macOS accepted it,
    /// `false` if it rejected it or its completion never came back.
    Scheduled(bool),
    /// The user responded to the notification.
    Responded(NotificationResponse),
    /// The response channel closed without a response.
    ResponseDropped,
    /// The timeout elapsed before a response came.
    TimedOut,
}

/// One step of scheduling a request, in the order they are to be taken.
#[derive(Debug, Clone)]
pub enum ScheduleStep {
    /// Register the category synthesised from the notification's actions
    /// under this identifier, and attach it to the notification's content.
    RegisterCategory(String),
    /// Register the sender that waits for the user's response to the request.
    RegisterResponseSender,
    /// Add the request to the notification center.
    AddRequest,
}

/// What to do next.
pub enum SendAction {
    /// Look up the main bundle's identifier and report `BundleChecked`.
    CheckBundle,
    /// Take `steps` in order, then report `Scheduled` with the answer to
    /// the request that the last step adds.
    Schedule { steps: Vec<ScheduleStep> },
    /// Wait for the user's response, racing `timeout` when one is given.
    AwaitResponse { timeout: Option<Duration> },
    /// The send is over with `result`; when `release_sender` holds, the
    /// response sender registered for the request must be deregistered.
    Finish { result: Result<Option<NotificationResponse>, Error>, release_sender: bool },
    /// The event does not apply at this stage; nothing changes.
    Ignore,
}

/// What an action asks for, with the schedule's steps as a sequence.
pub enum SendDecision {
    CheckBundle,
    Schedule { steps: Seq<ScheduleStep> },
    AwaitResponse { timeout: Option<Duration> },
    Finish { result: Result<Option<NotificationResponse>, Error>, release_sender: bool },
    Ignore,
}

impl View for SendAction {
    type V = SendDecision;

    open spec fn view(&self) -> SendDecision {
        match self {
            SendAction::CheckBundle => SendDecision::CheckBundle,
            SendAction::Schedule { steps } => SendDecision::Schedule { steps: steps@ },
            SendAction::AwaitResponse { timeout } => SendDecision::AwaitResponse {
                timeout: *timeout,
            },
            SendAction::Finish { result, release_sender } => SendDecision::Finish {
                result: *result,
                release_sender: *release_sender,
            },
            SendAction::Ignore => SendDecision::Ignore,
        }
    }
}

/// What a flow holds.
pub struct SendFlowView {
    pub stage: SendStage,
    pub wait_for_response: bool,
    pub timeout: Option<Duration>,
    pub category: Option<String>,
}

/// The decisions of one send of a notification.
pub struct SendFlow {
    stage: SendStage,
    wait_for_response: bool,
    timeout: Option<Duration>,
    category: Option<String>,
}

impl View for SendFlow {
    type V = SendFlowView;

    closed spec fn view(&self) -> SendFlowView {
        SendFlowView {
            stage: self.stage,
            wait_for_response: self.wait_for_response,
            timeout: self.timeout,
            category: self.category,
        }
    }
}

/// The flow's state after `stage` changed to `s`.
pub open spec fn with_stage(v: SendFlowView, s: SendStage) -> SendFlowView {
    SendFlowView { stage: s, ..v }
}

/// The steps that schedule a flow's request: register the synthesised
/// category when there is one, then the response sender when the flow waits
/// for a response, and last add the request.
pub open spec fn schedule_plan(v: SendFlowView) -> Seq<ScheduleStep> {
    let category = match v.category {
        Some(c) => seq![ScheduleStep::RegisterCategory(c)],
        None => Seq::empty(),
    };
    let sender = if v.wait_for_response {
        seq![ScheduleStep::RegisterResponseSender]
    } else {
        Seq::empty()
    };
    category + sender + seq![ScheduleStep::AddRequest]
}

/// The next stage and the action that an event leads to.
pub open spec fn send_step(v: SendFlowView, e: SendEvent) -> (SendStage, SendDecision) {
    match (v.stage, e) {
        (SendStage::CheckingBundle, SendEvent::BundleChecked(present)) => if present {
            (
                SendStage::Scheduling,
                SendDecision::Schedule { steps: schedule_plan(v) },
            )
        } else {
            (
                SendStage::Finished,
                SendDecision::Finish {
                    result: Err(Error::NoBundleIdentifier),
                    release_sender: false,
                },
            )
        },
        (SendStage::Scheduling, SendEvent::Scheduled(accepted)) => if !accepted {
            (
                SendStage::Finished,
                SendDecision::Finish {
                    result: Err(Error::NotificationRejected),
                    release_sender: v.wait_for_response,
                },
            )
        } else if v.wait_for_response {
            (SendStage::AwaitingResponse, SendDecision::AwaitResponse { timeout: v.timeout })
        } else {
            (SendStage::Finished, SendDecision::Finish { result: Ok(None), release_sender: false })
        },
        (SendStage::AwaitingResponse, SendEvent::Responded(response)) => (
            SendStage::Finished,
            SendDecision::Finish { result: Ok(Some(response)), release_sender: false },
        ),
        (SendStage::AwaitingResponse, SendEvent::ResponseDropped) => (
            SendStage::Finished,
            SendDecision::Finish { result: Err(Error::NotificationRejected), release_sender: false },
        ),
        (SendStage::AwaitingResponse, SendEvent::TimedOut) => if v.timeout is Some {
            (
                SendStage::Finished,
                SendDecision::Finish { result: Err(Error::ResponseTimeout), release_sender: true },
            )
        } else {
            (SendStage::AwaitingResponse, SendDecision::Ignore)
        },
        _ => (v.stage, SendDecision::Ignore),
    }
}


/// How far a stage is along the protocol.
pub open spec fn stage_rank(s: SendStage) -> nat {
    match s {
        SendStage::CheckingBundle => 0,
        SendStage::Scheduling => 1,
        SendStage::AwaitingResponse => 2,
        SendStage::Finished => 3,
    }
}

/// The actions that a sequence of events leads to, one per event.
pub open spec fn run_actions(v: SendFlowView, events: Seq<SendEvent>) -> Seq<SendDecision>
    decreases events.len(),
{
    if events.len() == 0 {
        Seq::empty()
    } else {
        let (s, a) = send_step(v, events[0]);
        seq![a] + run_actions(with_stage(v, s), events.drop_first())
    }
}

/// A fire-and-forget send that macOS accepted finishes with `Ok(None)`.
pub proof fn law_accepted_without_waiting_is_none(v: SendFlowView)
    requires
        v.stage == SendStage::Scheduling,
        !v.wait_for_response,
    ensures
        send_step(v, SendEvent::Scheduled(true)) == (
            SendStage::Finished,
            SendDecision::Finish { result: Ok(None), release_sender: false },
        ),
{
}

/// A flow waits for a response only if it was begun to wait for one.
pub open spec fn flow_consistent(v: SendFlowView) -> bool {
    v.stage == SendStage::AwaitingResponse ==> v.wait_for_response
}

/// Every step keeps a flow consistent.
pub proof fn law_step_keeps_consistency(v: SendFlowView, e: SendEvent)
    requires
        flow_consistent(v),
    ensures
        flow_consistent(with_stage(v, send_step(v, e).0)),
{
}

/// A send succeeds with a response exactly when it waits for one: a waiting
/// send finishes `Ok` only with the user's response, a fire-and-forget send
/// only with `None`.
pub proof fn law_ok_carries_response_iff_waiting(v: SendFlowView, e: SendEvent)
    requires
        flow_consistent(v),
    ensures
        send_step(v, e).1 matches SendDecision::Finish { result: Ok(x), .. } ==> (x is Some
            == v.wait_for_response),
{
}

/// A send gives up for want of a response only when a timeout was set, and
/// only while it waits for the response.
pub proof fn law_timeout_needs_deadline(v: SendFlowView, e: SendEvent)
    ensures
        send_step(v, e).1 matches SendDecision::Finish { result: Err(Error::ResponseTimeout), .. }
            ==> v.timeout is Some && v.stage == SendStage::AwaitingResponse,
        v.timeout is None ==> !(send_step(v, e).1 matches SendDecision::Finish {
            result: Err(Error::ResponseTimeout),
            ..
        }),
{
}

/// The response sender registered for the request is released exactly
/// when the send ends after registering it without the response having
/// reached it: when macOS rejects the request, or when the timeout elapses.
pub proof fn law_sender_released_when_unanswered(v: SendFlowView, e: SendEvent)
    requires
        flow_consistent(v),
    ensures
        send_step(v, e).1 matches SendDecision::Finish { result, release_sender } ==> (release_sender
            <==> (v.wait_for_response && ((v.stage == SendStage::Scheduling && result == Err::<
            Option<NotificationResponse>,
            Error,
        >(Error::NotificationRejected)) || result == Err::<Option<NotificationResponse>, Error>(
            Error::ResponseTimeout,
        )))),
{
}

/// The protocol only moves forward, and an event it does not act on leaves
/// it where it was.
pub proof fn law_stages_move_forward(v: SendFlowView, e: SendEvent)
    ensures
        stage_rank(send_step(v, e).0) >= stage_rank(v.stage),
        send_step(v, e).1 is Ignore ==> send_step(v, e).0 == v.stage,
        !(send_step(v, e).1 is Ignore) ==> stage_rank(send_step(v, e).0) > stage_rank(v.stage),
{
}

/// A finished send ignores every further event.
pub proof fn law_finished_is_final(v: SendFlowView, e: SendEvent)
    requires
        v.stage == SendStage::Finished,
    ensures
        send_step(v, e) == (v.stage, SendDecision::Ignore),
{
}

/// Whatever events come, a send finishes at most once.
pub proof fn law_finishes_at_most_once(v: SendFlowView, events: Seq<SendEvent>, i: int, j: int)
    requires
        0 <= i < j < events.len(),
    ensures
        !(run_actions(v, events)[i] is Finish && run_actions(v, events)[j] is Finish),
    decreases events.len(),
{
    let (s, a) = send_step(v, events[0]);
    let rest = events.drop_first();
    let tail = run_actions(with_stage(v, s), rest);
    lemma_run_length(with_stage(v, s), rest);
    assert(run_actions(v, events) == seq![a] + tail);
    assert((seq![a] + tail)[j] == tail[j - 1]);
    if i == 0 {
        assert((seq![a] + tail)[0] == a);
        if a is Finish {
            lemma_finished_run_ignores(with_stage(v, s), rest, j - 1);
        }
    } else {
        assert((seq![a] + tail)[i] == tail[i - 1]);
        law_finishes_at_most_once(with_stage(v, s), rest, i - 1, j - 1);
    }
}

proof fn lemma_run_length(v: SendFlowView, events: Seq<SendEvent>)
    ensures
        run_actions(v, events).len() == events.len(),
    decreases events.len(),
{
    if events.len() > 0 {
        let (s, a) = send_step(v, events[0]);
        lemma_run_length(with_stage(v, s), events.drop_first());
    }
}

proof fn lemma_finished_run_ignores(v: SendFlowView, events: Seq<SendEvent>, k: int)
    requires
        v.stage == SendStage::Finished,
        0 <= k < events.len(),
    ensures
        run_actions(v, events)[k] is Ignore,
    decreases events.len(),
{
    let (s, a) = send_step(v, events[0]);
    let tail = run_actions(with_stage(v, s), events.drop_first());
    lemma_run_length(with_stage(v, s), events.drop_first());
    assert(run_actions(v, events) == seq![a] + tail);
    if k > 0 {
        assert(with_stage(v, s) == v);
        lemma_finished_run_ignores(v, events.drop_first(), k - 1);
        assert((seq![a] + tail)[k] == tail[k - 1]);
    } else {
        assert((seq![a] + tail)[0] == a);
    }
}


/// Scheduling adds the request once, as its last step, and only after the
/// category and the response sender it needs are registered: a response
/// can never arrive before a sender waits for it.
pub proof fn law_registrations_precede_request(v: SendFlowView)
    ensures
        schedule_plan(v).len() > 0,
        schedule_plan(v).last() is AddRequest,
        forall|i: int|
            0 <= i < schedule_plan(v).len() - 1 ==> !(#[trigger] schedule_plan(v)[i] is AddRequest),
        v.wait_for_response == exists|i: int|
            0 <= i < schedule_plan(v).len() - 1
                && #[trigger] schedule_plan(v)[i] is RegisterResponseSender,
        v.category matches Some(c) ==> schedule_plan(v)[0] == ScheduleStep::RegisterCategory(c),
        v.category is None ==> forall|i: int|
            0 <= i < schedule_plan(v).len() ==> !(#[trigger] schedule_plan(v)[i] is RegisterCategory),
{
    let p = schedule_plan(v);
    if v.wait_for_response {
        let k = if v.category is Some {
            1int
        } else {
            0int
        };
        assert(p[k] is RegisterResponseSender);
    }
}

/// A flow begun for a notification waits exactly when the notification
/// has actions, which is exactly when a category is synthesised.
pub open spec fn waits_iff_actions(v: SendFlowView) -> bool {
    v.wait_for_response == (v.category is Some)
}

/// A send begun for a notification finishes `Ok` with the user's response
/// exactly when the notification has action buttons, and with `None` when
/// it has none.
pub proof fn law_response_iff_actions(v: SendFlowView, e: SendEvent)
    requires
        flow_consistent(v),
        waits_iff_actions(v),
    ensures
        send_step(v, e).1 matches SendDecision::Finish { result: Ok(x), .. } ==> (x is Some
            == (v.category is Some)),
        waits_iff_actions(with_stage(v, send_step(v, e).0)),
{
}

/// The response a waiting send hands to its caller is the one the user
/// gave, unchanged: the same action identifier and the same typed text.
pub proof fn law_response_handed_over_unchanged(v: SendFlowView, response: NotificationResponse)
    requires
        v.stage == SendStage::AwaitingResponse,
    ensures
        send_step(v, SendEvent::Responded(response)).0 == SendStage::Finished,
        send_step(v, SendEvent::Responded(response)).1 matches SendDecision::Finish {
            result: Ok(Some(r)),
            release_sender: false,
        } && r.action_identifier == response.action_identifier && r.reply_text
            == response.reply_text,
{
}

/// Without a bundle identifier no send is made: whatever the flow waits
/// for, a missing bundle ends it with `NoBundleIdentifier`; with one, the
/// request is always scheduled, by the steps that its plan lists.
pub proof fn law_bundle_check_decides(v: SendFlowView)
    requires
        v.stage == SendStage::CheckingBundle,
    ensures
        send_step(v, SendEvent::BundleChecked(false)) == (
            SendStage::Finished,
            SendDecision::Finish { result: Err(Error::NoBundleIdentifier), release_sender: false },
        ),
        send_step(v, SendEvent::BundleChecked(true)).0 == SendStage::Scheduling,
        send_step(v, SendEvent::BundleChecked(true)).1 matches SendDecision::Schedule { steps }
            && steps.len() > 0 && steps.last() is AddRequest,
{
    law_registrations_precede_request(v);
}

/// A send succeeds only after macOS accepted its request: a step finishes
/// `Ok(None)` only on `Scheduled(true)` while scheduling, and `Ok(Some(r))`
/// only on the user's response `r` while waiting for it.
pub proof fn law_ok_only_after_acceptance(v: SendFlowView, e: SendEvent)
    ensures
        send_step(v, e).1 matches SendDecision::Finish { result: Ok(x), .. } ==> (
            (v.stage == SendStage::Scheduling && (e matches SendEvent::Scheduled(true)) && x is None)
            || (v.stage == SendStage::AwaitingResponse && (e matches SendEvent::Responded(r) && x
            == Some(r)))),
        send_step(v, e).0 == SendStage::AwaitingResponse ==> (v.stage
            == SendStage::AwaitingResponse || (v.stage == SendStage::Scheduling && (e matches SendEvent::Scheduled(true)))),
{
}

/// Whatever events come, a send that starts by checking the bundle
/// finishes `Ok` only after macOS reported that it accepted the request.
pub proof fn law_run_ok_needs_acceptance(v: SendFlowView, events: Seq<SendEvent>, k: int)
    requires
        v.stage == SendStage::CheckingBundle || v.stage == SendStage::Scheduling,
        0 <= k < events.len(),
        run_actions(v, events)[k] matches SendDecision::Finish { result: Ok(_), .. },
    ensures
        exists|j: int| 0 <= j <= k && #[trigger] events[j] matches SendEvent::Scheduled(true),
    decreases events.len(),
{
    let (s, a) = send_step(v, events[0]);
    let rest = events.drop_first();
    let tail = run_actions(with_stage(v, s), rest);
    lemma_run_length(with_stage(v, s), rest);
    assert(run_actions(v, events) == seq![a] + tail);
    law_ok_only_after_acceptance(v, events[0]);
    if events[0] matches SendEvent::Scheduled(true) {
        assert(events[0] matches SendEvent::Scheduled(true));
    } else if k == 0 {
        assert((seq![a] + tail)[0] == a);
    } else {
        assert((seq![a] + tail)[k] == tail[k - 1]);
        if s == SendStage::Finished {
            lemma_finished_run_ignores(with_stage(v, s), rest, k - 1);
        } else {
            law_run_ok_needs_acceptance(with_stage(v, s), rest, k - 1);
            let j = choose|j: int| 0 <= j <= k - 1 && #[trigger] rest[j] matches SendEvent::Scheduled(
                true,
            );
            assert(events[j + 1] == rest[j]);
        }
    }
}

/// How a scheduled send goes on: a rejected request ends it with
/// `NotificationRejected`; an accepted one either finishes (fire-and-forget)
/// or waits for the response with the notification's own timeout.  While it
/// waits, a closed response channel ends it with `NotificationRejected` and
/// an elapsed timeout with `ResponseTimeout`.
pub proof fn law_outcomes_after_scheduling(v: SendFlowView)
    ensures
        v.stage == SendStage::Scheduling ==> send_step(v, SendEvent::Scheduled(false)).1 matches
            SendDecision::Finish { result: Err(Error::NotificationRejected), .. },
        v.stage == SendStage::Scheduling && v.wait_for_response ==> send_step(
            v,
            SendEvent::Scheduled(true),
        ) == (SendStage::AwaitingResponse, SendDecision::AwaitResponse { timeout: v.timeout }),
        v.stage == SendStage::AwaitingResponse ==> send_step(v, SendEvent::ResponseDropped).1 matches
            SendDecision::Finish { result: Err(Error::NotificationRejected), .. },
        v.stage == SendStage::AwaitingResponse && v.timeout is Some ==> send_step(
            v,
            SendEvent::TimedOut,
        ) == (
            SendStage::Finished,
            SendDecision::Finish { result: Err(Error::ResponseTimeout), release_sender: true },
        ),
{
}

impl SendFlow {
    /// Start sending `content`; the first action is always `CheckBundle`.
    ///
    /// `wait_for_response` selects between a fire-and-forget send, which
    /// finishes once macOS accepts the request, and a send that waits for
    /// the user's response (or the notification's timeout).
    pub fn begin(content: &Notification, wait_for_response: bool) -> (r: SendFlow)
        ensures
            r@.stage == SendStage::CheckingBundle,
            flow_consistent(r@),
            r@.wait_for_response == wait_for_response,
            r@.timeout == content@.timeout,
            r@.category is Some == (content@.actions.len() > 0),
            r@.category matches Some(c) ==> c@ == category_id(
                action_identifiers(content@.actions),
            ),
    {
        let category = if content.has_actions() {
            Some(category_identifier(content.actions()))
        } else {
            None
        };
        SendFlow {
            stage: SendStage::CheckingBundle,
            wait_for_response,
            timeout: content.action_timeout(),
            category,
        }
    }

    /// Start sending `content` the way the notification asks for: wait for
    /// the user's response exactly when it has action buttons.
    pub fn for_notification(content: &Notification) -> (r: SendFlow)
        ensures
            r@.stage == SendStage::CheckingBundle,
            flow_consistent(r@),
            waits_iff_actions(r@),
            r@.wait_for_response == (content@.actions.len() > 0),
            r@.timeout == content@.timeout,
            r@.category is Some == (content@.actions.len() > 0),
            r@.category matches Some(c) ==> c@ == category_id(
                action_identifiers(content@.actions),
            ),
    {
        SendFlow::begin(content, content.has_actions())
    }

    fn plan(&self) -> (r: Vec<ScheduleStep>)
        ensures
            r@ == schedule_plan(self@),
    {
        let mut steps: Vec<ScheduleStep> = Vec::new();
        match &self.category {
            Some(c) => steps.push(ScheduleStep::RegisterCategory(c.clone())),
            None => {},
        }
        if self.wait_for_response {
            steps.push(ScheduleStep::RegisterResponseSender);
        }
        steps.push(ScheduleStep::AddRequest);
        proof {
            assert(steps@ =~= schedule_plan(self@));
        }
        steps
    }

    /// The stage the send is at.
    pub fn stage(&self) -> (r: SendStage)
        ensures
            r == self@.stage,
    {
        self.stage
    }

    /// Take in what happened and decide what to do next.
    pub fn step(&mut self, event: SendEvent) -> (a: SendAction)
        ensures
            (final(self)@.stage, a@) == send_step(old(self)@, event),
            final(self)@ == with_stage(old(self)@, final(self)@.stage),
            flow_consistent(old(self)@) ==> flow_consistent(final(self)@),
    {
        match (self.stage, event) {
            (SendStage::CheckingBundle, SendEvent::BundleChecked(present)) => {
                if present {
                    self.stage = SendStage::Scheduling;
                    SendAction::Schedule { steps: self.plan() }
                } else {
                    self.stage = SendStage::Finished;
                    SendAction::Finish {
                        result: Err(Error::NoBundleIdentifier),
                        release_sender: false,
                    }
                }
            },
            (SendStage::Scheduling, SendEvent::Scheduled(accepted)) => {
                if !accepted {
                    self.stage = SendStage::Finished;
                    SendAction::Finish {
                        result: Err(Error::NotificationRejected),
                        release_sender: self.wait_for_response,
                    }
                } else if self.wait_for_response {
                    self.stage = SendStage::AwaitingResponse;
                    SendAction::AwaitResponse { timeout: self.timeout }
                } else {
                    self.stage = SendStage::Finished;
                    SendAction::Finish { result: Ok(None), release_sender: false }
                }
            },
            (SendStage::AwaitingResponse, SendEvent::Responded(response)) => {
                self.stage = SendStage::Finished;
                SendAction::Finish { result: Ok(Some(response)), release_sender: false }
            },
            (SendStage::AwaitingResponse, SendEvent::ResponseDropped) => {
                self.stage = SendStage::Finished;
                SendAction::Finish {
                    result: Err(Error::NotificationRejected),
                    release_sender: false,
                }
            },
            (SendStage::AwaitingResponse, SendEvent::TimedOut) => {
                if self.timeout.is_some() {
                    self.stage = SendStage::Finished;
                    SendAction::Finish {
                        result: Err(Error::ResponseTimeout),
                        release_sender: true,
                    }
                } else {
                    SendAction::Ignore
                }
            },
            _ => SendAction::Ignore,
        }
    }
}

} // verus!
