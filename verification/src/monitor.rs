//! The decisions of the monitoring loop: when a printer state counts as a
//! transition, when detection runs, how failure evidence accumulates and
//! when the print is paused.
//!
//! The loop itself lives with the caller, which polls the printer, fetches
//! and classifies frames, pauses and notifies. After each of these it tells
//! the monitor what happened and does what the monitor decides.

use vstd::prelude::*;
use crate::detector::{significant, significant_detections, Detection, Score};

verus! {

/// Seconds to wait after an iteration that ran to its end.
pub const ITERATION_DELAY_SECONDS: u64 = 1;

/// The printer state in which frames are acquired and classified.
pub open spec fn printing() -> Seq<char> {
    "printing"@
}

/// What the loop does after a look at the printer state.
#[derive(Debug, Clone, Copy, PartialEq, Eq, Structural)]
pub enum StatusDecision {
    /// The state is new: send a status notification, then report with
    /// [`Monitor::status_notified`] whether that worked.
    Announce,
    /// The printer prints: acquire a frame and classify it.
    Detect,
    /// Nothing to do in this iteration: wait, then start the next one.
    Wait { seconds: u64 },
}

/// What the loop does with a classified frame.
#[derive(Debug)]
pub struct FrameDecision {
    /// The detections to escalate, each with a failure notification.
    pub significant: Vec<Detection>,
    /// Whether to ask the printer to pause.
    pub pause: bool,
}

/// Mathematical state of a [`Monitor`].
pub struct MonitorState {
    /// Significant detections counted since the last reset.
    pub failure_count: nat,
    /// The printer state recorded last; empty while none is recorded.
    pub last_state: Seq<char>,
    /// The failure count above which the print is paused.
    pub pause_threshold: nat,
    /// The confidence above which a detection is significant.
    pub alert_threshold: Score,
    /// Seconds to wait before an iteration is tried again.
    pub retry_delay_seconds: nat,
}

impl MonitorState {
    /// The count, the threshold and the delay fit their machine types.
    pub open spec fn wf(self) -> bool {
        &&& self.failure_count <= u32::MAX
        &&& self.pause_threshold <= u32::MAX
        &&& self.retry_delay_seconds <= u64::MAX
    }

    /// Whether an observed printer state is a transition: it differs from
    /// the recorded one. The first observation always is.
    pub open spec fn is_transition(self, observed: Seq<char>) -> bool {
        observed != self.last_state
    }

    /// The decision once the question of a transition is settled: detect
    /// while the printer prints, wait otherwise.
    pub open spec fn proceed(self, observed: Seq<char>) -> StatusDecision {
        if observed == printing() {
            StatusDecision::Detect
        } else {
            StatusDecision::Wait { seconds: self.retry_delay_seconds as u64 }
        }
    }

    /// The decision on an observed printer state; `None` stands for a
    /// printer that could not be reached.
    pub open spec fn status_decision(self, observed: Option<Seq<char>>) -> StatusDecision {
        match observed {
            None => StatusDecision::Wait { seconds: self.retry_delay_seconds as u64 },
            Some(state) => if self.is_transition(state) {
                StatusDecision::Announce
            } else {
                self.proceed(state)
            },
        }
    }

    /// The state after a look at the printer: a transition resets the
    /// failure count, anything else changes nothing.
    pub open spec fn observed(self, observed: Option<Seq<char>>) -> MonitorState {
        match observed {
            Some(state) if self.is_transition(state) => MonitorState { failure_count: 0, ..self },
            _ => self,
        }
    }

    /// Whether a status notification that was not delivered makes the loop
    /// start over without recording the state: only while no state has been
    /// recorded yet.
    pub open spec fn must_renotify(self, delivered: bool) -> bool {
        !delivered && self.last_state.len() == 0
    }

    /// The state after the attempt to send a status notification.
    pub open spec fn notified(self, state: Seq<char>, delivered: bool) -> MonitorState {
        if self.must_renotify(delivered) {
            self
        } else {
            MonitorState { last_state: state, ..self }
        }
    }

    /// The decision after the attempt to send a status notification.
    pub open spec fn notified_decision(self, state: Seq<char>, delivered: bool) -> StatusDecision {
        if self.must_renotify(delivered) {
            StatusDecision::Wait { seconds: self.retry_delay_seconds as u64 }
        } else {
            self.proceed(state)
        }
    }

    /// The failure count after `n` more significant detections; it stops at
    /// `u32::MAX`.
    pub open spec fn count_after(self, n: nat) -> nat {
        if self.failure_count + n <= u32::MAX {
            self.failure_count + n
        } else {
            u32::MAX as nat
        }
    }

    /// The state after a frame with `n` significant detections.
    pub open spec fn accumulated(self, n: nat) -> MonitorState {
        MonitorState { failure_count: self.count_after(n), ..self }
    }

    /// Whether the failure count calls for a pause.
    pub open spec fn pause_due(self) -> bool {
        self.failure_count > self.pause_threshold
    }

    /// The state after a pause attempt: success resets the failure count,
    /// failure leaves it as it is.
    pub open spec fn pause_attempted(self, succeeded: bool) -> MonitorState {
        if succeeded {
            MonitorState { failure_count: 0, ..self }
        } else {
            self
        }
    }
}

/// The state of the monitoring loop between iterations: the evidence of
/// failure gathered so far and the printer state seen last.
pub struct Monitor {
    failure_count: u32,
    last_state: String,
    pause_threshold: u32,
    alert_threshold: Score,
    retry_delay_seconds: u64,
}

impl View for Monitor {
    type V = MonitorState;

    closed spec fn view(&self) -> MonitorState {
        MonitorState {
            failure_count: self.failure_count as nat,
            last_state: self.last_state@,
            pause_threshold: self.pause_threshold as nat,
            alert_threshold: self.alert_threshold,
            retry_delay_seconds: self.retry_delay_seconds as nat,
        }
    }
}

impl Monitor {
    /// A monitor that has counted no failure and recorded no printer state.
    pub fn new(pause_threshold: u32, alert_threshold: Score, retry_delay_seconds: u64) -> (r: Self)
        ensures
            r@ == (MonitorState {
                failure_count: 0,
                last_state: Seq::empty(),
                pause_threshold: pause_threshold as nat,
                alert_threshold,
                retry_delay_seconds: retry_delay_seconds as nat,
            }),
            r@.wf(),
    {
        Monitor {
            failure_count: 0,
            last_state: String::new(),
            pause_threshold,
            alert_threshold,
            retry_delay_seconds,
        }
    }

    /// The number of significant detections since the last reset.
    pub fn failure_count(&self) -> (r: u32)
        ensures
            r == self@.failure_count,
            self@.wf(),
    {
        self.failure_count
    }

    /// The printer state recorded last; empty while none is recorded.
    pub fn last_state(&self) -> (r: &str)
        ensures
            r@ == self@.last_state,
            self@.wf(),
    {
        self.last_state.as_str()
    }

    /// Seconds to wait before an iteration that could not go on is tried
    /// again.
    pub fn retry_delay_seconds(&self) -> (r: u64)
        ensures
            r == self@.retry_delay_seconds,
            self@.wf(),
    {
        self.retry_delay_seconds
    }

    /// Takes in the printer state that an iteration starts with; `None`
    /// stands for a printer that could not be reached. A state that differs
    /// from the recorded one is a transition: the failure count goes back
    /// to 0 and the state is to be announced. Otherwise detection runs if
    /// the printer prints, and the iteration ends with a wait if not.
    pub fn observe(&mut self, state_name: Option<&str>) -> (decision: StatusDecision)
        ensures
            decision == old(self)@.status_decision(
                match state_name {
                    Some(s) => Some(s@),
                    None => None,
                },
            ),
            final(self)@ == old(self)@.observed(
                match state_name {
                    Some(s) => Some(s@),
                    None => None,
                },
            ),
            final(self)@.wf(),
    {
        match state_name {
            None => StatusDecision::Wait { seconds: self.retry_delay_seconds },
            Some(state) => {
                let observed = String::from_str(state);
                if observed != self.last_state {
                    self.failure_count = 0;
                    StatusDecision::Announce
                } else {
                    self.proceed(state)
                }
            },
        }
    }

    /// Takes in the outcome of the status notification for `state_name`.
    /// The state is recorded, whether or not the notification was
    /// delivered, with one exception: while no state has been recorded, a
    /// notification that failed leaves it so, and the iteration ends with a
    /// wait, so that the next one announces the state again.
    pub fn status_notified(&mut self, state_name: &str, delivered: bool) -> (decision:
        StatusDecision)
        ensures
            decision == old(self)@.notified_decision(state_name@, delivered),
            final(self)@ == old(self)@.notified(state_name@, delivered),
            final(self)@.wf(),
    {
        if !delivered && self.last_state.as_str().unicode_len() == 0 {
            StatusDecision::Wait { seconds: self.retry_delay_seconds }
        } else {
            self.last_state = String::from_str(state_name);
            self.proceed(state_name)
        }
    }

    fn proceed(&self, state: &str) -> (decision: StatusDecision)
        ensures
            decision == self@.proceed(state@),
    {
        if String::from_str(state) == String::from_str("printing") {
            StatusDecision::Detect
        } else {
            StatusDecision::Wait { seconds: self.retry_delay_seconds }
        }
    }

    /// The decision after a step of the iteration went wrong: a fetch that
    /// gave up, a frame that could not be read or classified. Nothing is
    /// counted and nothing recorded; the iteration ends with a wait.
    pub fn iteration_failed(&self) -> (decision: StatusDecision)
        ensures
            decision == (StatusDecision::Wait { seconds: self@.retry_delay_seconds as u64 }),
    {
        StatusDecision::Wait { seconds: self.retry_delay_seconds }
    }

    /// Takes in the accepted detections of one frame: counts each
    /// significant one as a failure and asks for a pause if the count is
    /// then above the pause threshold.
    pub fn accumulate(&mut self, detections: &Vec<Detection>) -> (decision: FrameDecision)
        ensures
            decision.significant.deep_view() == significant(
                detections.deep_view(),
                old(self)@.alert_threshold,
            ),
            final(self)@ == old(self)@.accumulated(decision.significant.len() as nat),
            decision.pause == final(self)@.pause_due(),
            final(self)@.wf(),
    {
        let found = significant_detections(detections, self.alert_threshold);
        let n = found.len();
        if n as u64 > (u32::MAX - self.failure_count) as u64 {
            self.failure_count = u32::MAX;
        } else {
            self.failure_count = self.failure_count + n as u32;
        }
        FrameDecision { significant: found, pause: self.failure_count > self.pause_threshold }
    }

    /// Takes in the outcome of a pause attempt. After a successful one the
    /// failure count goes back to 0 and the count that led to the pause is
    /// handed back for the pause notification. After a failed one nothing
    /// changes, so that the next frame asks for a pause again.
    pub fn pause_attempted(&mut self, succeeded: bool) -> (paused_at: Option<u32>)
        ensures
            succeeded ==> paused_at == Some(old(self)@.failure_count as u32),
            !succeeded ==> paused_at is None,
            final(self)@ == old(self)@.pause_attempted(succeeded),
            final(self)@.wf(),
    {
        if succeeded {
            let count = self.failure_count;
            self.failure_count = 0;
            Some(count)
        } else {
            None
        }
    }
}

/// Accumulation law. A significant detection counts once, whatever frame it
/// comes in: `a` detections in one frame and `b` in the next count as
/// `a + b` in one.
pub proof fn lemma_each_detection_counts_once(m: MonitorState, a: nat, b: nat)
    requires
        m.wf(),
    ensures
        m.accumulated(a).accumulated(b) == m.accumulated(a + b),
        m.failure_count + a + b <= u32::MAX ==> m.accumulated(a + b).failure_count
            == m.failure_count + a + b,
{
}

/// Pause law. Once the failure count is above the threshold, a pause is
/// asked for after every frame until one succeeds: a failed pause leaves
/// the count, and whatever the next frame adds, the count stays above the
/// threshold. A successful pause puts the count back to 0.
pub proof fn lemma_failed_pause_is_retried(m: MonitorState, n: nat)
    requires
        m.wf(),
        m.pause_due(),
    ensures
        m.pause_attempted(false) == m,
        m.pause_attempted(false).accumulated(n).pause_due(),
        m.pause_attempted(false).accumulated(n).failure_count >= m.failure_count,
        m.pause_attempted(true).failure_count == 0,
        !m.pause_attempted(true).pause_due(),
{
}

/// Transition law. Observing the recorded state again is no transition: it
/// announces nothing and resets nothing. Observing another state is one: it
/// is announced and the failure count goes back to 0. Once the announced
/// state is recorded, observing it again is no transition.
pub proof fn lemma_transition_iff_state_differs(m: MonitorState, state: Seq<char>)
    ensures
        state == m.last_state ==> m.status_decision(Some(state)) != StatusDecision::Announce
            && m.observed(Some(state)) == m,
        state != m.last_state ==> m.status_decision(Some(state)) == StatusDecision::Announce
            && m.observed(Some(state)).failure_count == 0,
        m.observed(Some(state)).notified(state, true).status_decision(Some(state))
            != StatusDecision::Announce,
        m.last_state.len() > 0 ==> m.observed(Some(state)).notified(state, false).status_decision(
            Some(state),
        ) != StatusDecision::Announce,
{
}

/// Detection runs only while the printer prints: no decision on a printer
/// state other than "printing" is to detect.
pub proof fn lemma_detect_only_while_printing(
    m: MonitorState,
    observed: Option<Seq<char>>,
    delivered: bool,
)
    ensures
        m.status_decision(observed) == StatusDecision::Detect ==> observed == Some(printing()),
        observed matches Some(state) ==> (m.notified_decision(state, delivered)
            == StatusDecision::Detect ==> state == printing()),
{
}

} // verus!
