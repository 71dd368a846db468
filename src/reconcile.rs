//! The reconciliation loop as a state machine.
//!
//! Each call of [`Reconciler::step`] takes the result of the last action the
//! caller performed (an address list, a probe answer, the outcome of a write,
//! the end of a pause) and returns the next action, and what the cycle came
//! to when it ends one. The caller performs the actions; the machine holds
//! the managed record and decides. The record's content moves only when a
//! write of it was confirmed.
use vstd::prelude::*;

use crate::record::{update_for, update_request, ManagedRecord, RecordUpdate, UpdateView};
use crate::select::{endpoint_for, next_scan_step, scan_decision, CandidateEndpoint, ScanStep};
use crate::string_views;

verus! {

/// Pause after a pass found no reachable candidate.
pub const NO_CANDIDATE_BACKOFF_SECS: u64 = 30;

/// Pause after a write that the provider did not accept.
pub const WRITE_FAILURE_BACKOFF_SECS: u64 = 15;

/// Pause after a cycle that found the record up to date.
pub const POLL_INTERVAL_SECS: u64 = 10;

/// Where the machine stands: what result it waits for.
#[derive(PartialEq, Eq, Structural, Debug, Clone, Copy)]
pub enum Phase {
    /// Waits for the interface's candidate addresses.
    Listing,
    /// Waits for the answer of a reachability probe.
    Probing,
    /// Waits for the outcome of a record write.
    Writing,
    /// Waits for the end of a pause.
    Sleeping,
}

/// What the caller does next.
pub enum Action {
    /// List the candidate addresses of the interface.
    ListAddresses,
    /// Probe whether this endpoint is reachable.
    Probe(CandidateEndpoint),
    /// Send this update of the managed record to the provider.
    Write(RecordUpdate),
    /// Pause for this many seconds.
    Sleep(u64),
}

/// The result of the caller's last action.
pub enum Event {
    /// The candidate addresses, in the order the interface lists them
    /// (empty when the interface or its addresses could not be read).
    Addresses(Vec<String>),
    /// The answer of the probe.
    Probed(bool),
    /// The provider accepted the write.
    WriteSucceeded,
    /// The write failed, for this reason.
    WriteFailed(String),
    /// The pause is over.
    Woke,
}

/// What one cycle came to.
pub enum Outcome {
    /// The active address is the one the record already holds.
    NoChange,
    /// The record now holds this address.
    Updated(String),
    /// No candidate was reachable.
    NoReachableCandidate,
    /// The write failed, for this reason; it is retried next cycle.
    TransientFailure(String),
}

/// An action as plain values.
pub enum ActionView {
    ListAddresses,
    Probe(Seq<char>, u16),
    Write(UpdateView),
    Sleep(u64),
}

/// An event as plain values.
pub enum EventView {
    Addresses(Seq<Seq<char>>),
    Probed(bool),
    WriteSucceeded,
    WriteFailed(Seq<char>),
    Woke,
}

/// An outcome as plain values.
pub enum OutcomeView {
    NoChange,
    Updated(Seq<char>),
    NoReachableCandidate,
    TransientFailure(Seq<char>),
}

impl View for Action {
    type V = ActionView;

    open spec fn view(&self) -> ActionView {
        match self {
            Action::ListAddresses => ActionView::ListAddresses,
            Action::Probe(e) => ActionView::Probe(e.address@, e.port),
            Action::Write(u) => ActionView::Write(u@),
            Action::Sleep(s) => ActionView::Sleep(*s),
        }
    }
}

impl View for Event {
    type V = EventView;

    open spec fn view(&self) -> EventView {
        match self {
            Event::Addresses(v) => EventView::Addresses(string_views(v@)),
            Event::Probed(b) => EventView::Probed(*b),
            Event::WriteSucceeded => EventView::WriteSucceeded,
            Event::WriteFailed(r) => EventView::WriteFailed(r@),
            Event::Woke => EventView::Woke,
        }
    }
}

impl View for Outcome {
    type V = OutcomeView;

    open spec fn view(&self) -> OutcomeView {
        match self {
            Outcome::NoChange => OutcomeView::NoChange,
            Outcome::Updated(c) => OutcomeView::Updated(c@),
            Outcome::NoReachableCandidate => OutcomeView::NoReachableCandidate,
            Outcome::TransientFailure(r) => OutcomeView::TransientFailure(r@),
        }
    }
}

/// The view of an optional outcome.
pub open spec fn outcome_view(o: Option<Outcome>) -> Option<OutcomeView> {
    match o {
        Some(x) => Some(x@),
        None => None,
    }
}

/// The machine's state as plain values.
pub struct ReconcilerView {
    pub record_id: Seq<char>,
    pub domain: Seq<char>,
    /// What the provider is known to hold.
    pub content: Seq<char>,
    pub port: u16,
    pub phase: Phase,
    /// The candidates of the current selection pass.
    pub candidates: Seq<Seq<char>>,
    /// The probe answers of the current pass, one per candidate from the first.
    pub answers: Seq<bool>,
    /// The content of the write in flight.
    pub target: Seq<char>,
}

/// What a step leads to: the next state, the next action, and the outcome of
/// the cycle when the step ends one.
pub struct Transition {
    pub next: ReconcilerView,
    pub action: ActionView,
    pub outcome: Option<OutcomeView>,
}

/// The step that follows the prober's answers `answers` in a pass over
/// `cands`: probe the next candidate, pause when none is reachable or the
/// chosen one is already published, or write the chosen one.
pub open spec fn after_answers(
    s: ReconcilerView,
    cands: Seq<Seq<char>>,
    answers: Seq<bool>,
) -> Transition {
    let base = ReconcilerView { candidates: cands, answers, ..s };
    match scan_decision(cands.len(), answers) {
        ScanStep::Probe(i) => Transition {
            next: ReconcilerView { phase: Phase::Probing, ..base },
            action: ActionView::Probe(cands[i as int], s.port),
            outcome: None,
        },
        ScanStep::Chosen(i) => if cands[i as int] == s.content {
            Transition {
                next: ReconcilerView { phase: Phase::Sleeping, ..base },
                action: ActionView::Sleep(POLL_INTERVAL_SECS),
                outcome: Some(OutcomeView::NoChange),
            }
        } else {
            Transition {
                next: ReconcilerView { phase: Phase::Writing, target: cands[i as int], ..base },
                action: ActionView::Write(update_for(s.domain, cands[i as int])),
                outcome: None,
            }
        },
        ScanStep::Exhausted => Transition {
            next: ReconcilerView { phase: Phase::Sleeping, ..base },
            action: ActionView::Sleep(NO_CANDIDATE_BACKOFF_SECS),
            outcome: Some(OutcomeView::NoReachableCandidate),
        },
    }
}

/// One step of the loop. An event that does not answer the action the
/// machine waits for starts a new cycle and changes nothing else.
pub open spec fn step_spec(s: ReconcilerView, e: EventView) -> Transition {
    match (s.phase, e) {
        (Phase::Listing, EventView::Addresses(cands)) => after_answers(s, cands, Seq::empty()),
        (Phase::Probing, EventView::Probed(b)) => after_answers(s, s.candidates, s.answers.push(b)),
        (Phase::Writing, EventView::WriteSucceeded) => Transition {
            next: ReconcilerView { phase: Phase::Listing, content: s.target, ..s },
            action: ActionView::ListAddresses,
            outcome: Some(OutcomeView::Updated(s.target)),
        },
        (Phase::Writing, EventView::WriteFailed(reason)) => Transition {
            next: ReconcilerView { phase: Phase::Sleeping, ..s },
            action: ActionView::Sleep(WRITE_FAILURE_BACKOFF_SECS),
            outcome: Some(OutcomeView::TransientFailure(reason)),
        },
        _ => Transition {
            next: ReconcilerView { phase: Phase::Listing, ..s },
            action: ActionView::ListAddresses,
            outcome: None,
        },
    }
}

/// The candidates and answers of the selection pass that a step continues,
/// when the step continues one.
pub open spec fn pass_after(s: ReconcilerView, e: EventView) -> Option<(Seq<Seq<char>>, Seq<bool>)> {
    match (s.phase, e) {
        (Phase::Listing, EventView::Addresses(cands)) => Some((cands, Seq::empty())),
        (Phase::Probing, EventView::Probed(b)) => Some((s.candidates, s.answers.push(b))),
        _ => None,
    }
}

/// The address that a step selects, when it ends a pass with a choice.
pub open spec fn chosen_by(s: ReconcilerView, e: EventView) -> Option<Seq<char>> {
    match pass_after(s, e) {
        Some((cands, answers)) => match scan_decision(cands.len(), answers) {
            ScanStep::Chosen(i) => Some(cands[i as int]),
            _ => None,
        },
        None => None,
    }
}

/// When the selected address is the one the record already holds, the step
/// issues no write, reports no change, pauses for the poll interval, and
/// leaves the record's content as it was.
pub proof fn lemma_current_choice_writes_nothing(s: ReconcilerView, e: EventView)
    requires
        chosen_by(s, e) == Some(s.content),
    ensures
        step_spec(s, e).action == ActionView::Sleep(POLL_INTERVAL_SECS),
        step_spec(s, e).outcome == Some(OutcomeView::NoChange),
        step_spec(s, e).next.content == s.content,
{
}

/// A write is issued only for a selected address that differs from the
/// record's content, and it points the record's domain at that address.
pub proof fn lemma_write_only_for_new_choice(s: ReconcilerView, e: EventView)
    ensures
        step_spec(s, e).action matches ActionView::Write(u) ==> {
            &&& chosen_by(s, e) == Some(u.content)
            &&& u.content != s.content
            &&& u == update_for(s.domain, u.content)
        },
{
}

/// The record's content changes only when the provider confirms the write in
/// flight, and then it becomes the content of that write.
pub proof fn lemma_content_moves_only_on_confirmed_write(s: ReconcilerView, e: EventView)
    ensures
        step_spec(s, e).next.content == if s.phase == Phase::Writing && e == EventView::WriteSucceeded {
            s.target
        } else {
            s.content
        },
{
}

/// A failed write leaves the record's content as it was before the cycle.
pub proof fn lemma_failed_write_keeps_content(s: ReconcilerView, reason: Seq<char>)
    ensures
        step_spec(s, EventView::WriteFailed(reason)).next.content == s.content,
        s.phase == Phase::Writing ==> step_spec(s, EventView::WriteFailed(reason)).outcome == Some(
            OutcomeView::TransientFailure(reason),
        ),
{
}

/// After a write of content `c` is issued, its confirmation makes `c` the
/// record's content and reports the update.
pub proof fn lemma_confirmed_write_publishes(s: ReconcilerView, e: EventView)
    ensures
        step_spec(s, e).action matches ActionView::Write(u) ==> {
            let after = step_spec(step_spec(s, e).next, EventView::WriteSucceeded);
            &&& after.next.content == u.content
            &&& after.outcome == Some(OutcomeView::Updated(u.content))
            &&& after.action == ActionView::ListAddresses
        },
{
}

/// The reconciliation state machine for one managed record.
pub struct Reconciler {
    record: ManagedRecord,
    port: u16,
    phase: Phase,
    candidates: Vec<String>,
    answers: Vec<bool>,
    target: String,
}

impl View for Reconciler {
    type V = ReconcilerView;

    closed spec fn view(&self) -> ReconcilerView {
        ReconcilerView {
            record_id: self.record.record_id@,
            domain: self.record.domain_name@,
            content: self.record.current_content@,
            port: self.port,
            phase: self.phase,
            candidates: string_views(self.candidates@),
            answers: self.answers@,
            target: self.target@,
        }
    }
}

/// A state from which a step is well defined: while probing, the pass has
/// a candidate left to probe and has found none reachable yet.
pub open spec fn view_wf(s: ReconcilerView) -> bool {
    s.phase == Phase::Probing ==> scan_decision(s.candidates.len(), s.answers) == ScanStep::Probe(
        s.answers.len() as usize,
    ) && s.candidates.len() <= usize::MAX
}

impl Reconciler {
    pub open spec fn wf(&self) -> bool {
        view_wf(self@)
    }

    /// A machine that manages `record`, probes candidates on `port`, and
    /// waits for the first address list.
    pub fn new(record: ManagedRecord, port: u16) -> (r: Reconciler)
        ensures
            r.wf(),
            r@.record_id == record.record_id@,
            r@.domain == record.domain_name@,
            r@.content == record.current_content@,
            r@.port == port,
            r@.phase == Phase::Listing,
    {
        Reconciler {
            record,
            port,
            phase: Phase::Listing,
            candidates: Vec::new(),
            answers: Vec::new(),
            target: String::new(),
        }
    }

    /// The managed record as the provider is known to hold it.
    pub fn record(&self) -> (r: &ManagedRecord)
        ensures
            r.record_id@ == self@.record_id,
            r.domain_name@ == self@.domain,
            r.current_content@ == self@.content,
    {
        &self.record
    }

    /// The phase the machine is in.
    pub fn phase(&self) -> (r: Phase)
        ensures
            r == self@.phase,
    {
        self.phase
    }

    /// Takes the prober's answers so far for the candidates now held and
    /// decides the next action.
    fn decide(&mut self) -> (r: (Action, Option<Outcome>))
        requires
            old(self).answers.len() <= old(self).candidates.len(),
        ensures
            ({
                let t = after_answers(
                    old(self)@,
                    string_views(old(self).candidates@),
                    old(self).answers@,
                );
                &&& final(self)@ == t.next
                &&& r.0@ == t.action
                &&& outcome_view(r.1) == t.outcome
            }),
            final(self).wf(),
    {
        let ghost cands = string_views(self.candidates@);
        let step = next_scan_step(self.candidates.len(), &self.answers);
        match step {
            ScanStep::Probe(i) => {
                self.phase = Phase::Probing;
                let e = endpoint_for(&self.candidates[i], self.port);
                (Action::Probe(e), None)
            },
            ScanStep::Chosen(i) => {
                if self.candidates[i] == self.record.current_content {
                    self.phase = Phase::Sleeping;
                    (Action::Sleep(POLL_INTERVAL_SECS), Some(Outcome::NoChange))
                } else {
                    self.phase = Phase::Writing;
                    self.target = self.candidates[i].clone();
                    let u = update_request(
                        self.record.domain_name.as_str(),
                        self.candidates[i].as_str(),
                    );
                    (Action::Write(u), None)
                }
            },
            ScanStep::Exhausted => {
                self.phase = Phase::Sleeping;
                (Action::Sleep(NO_CANDIDATE_BACKOFF_SECS), Some(Outcome::NoReachableCandidate))
            },
        }
    }

    /// Takes the result of the last action and returns the next action,
    /// with what the cycle came to when this step ends one.
    pub fn step(&mut self, event: Event) -> (r: (Action, Option<Outcome>))
        requires
            old(self).wf(),
        ensures
            final(self).wf(),
            ({
                let t = step_spec(old(self)@, event@);
                &&& final(self)@ == t.next
                &&& r.0@ == t.action
                &&& outcome_view(r.1) == t.outcome
            }),
    {
        match event {
            Event::Addresses(cands) => {
                if self.phase == Phase::Listing {
                    self.candidates = cands;
                    self.answers = Vec::new();
                    return self.decide();
                }
            },
            Event::Probed(b) => {
                if self.phase == Phase::Probing {
                    self.answers.push(b);
                    return self.decide();
                }
            },
            Event::WriteSucceeded => {
                if self.phase == Phase::Writing {
                    self.record.current_content = self.target.clone();
                    self.phase = Phase::Listing;
                    return (Action::ListAddresses, Some(Outcome::Updated(self.target.clone())));
                }
            },
            Event::WriteFailed(reason) => {
                if self.phase == Phase::Writing {
                    self.phase = Phase::Sleeping;
                    return (
                        Action::Sleep(WRITE_FAILURE_BACKOFF_SECS),
                        Some(Outcome::TransientFailure(reason)),
                    );
                }
            },
            Event::Woke => {},
        }
        self.phase = Phase::Listing;
        (Action::ListAddresses, None)
    }
}

} // verus!
