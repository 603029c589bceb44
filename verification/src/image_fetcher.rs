//! Image acquisition: round-robin rotation over the configured sources and
//! the retry policy with its offline / recovery alerts.

use vstd::prelude::*;
use crate::error::ImageError;
use crate::text::{decimal, join, joined, u64_to_decimal};

verus! {

/// Transient events that acquisition reports to the operator channel.
#[derive(Debug, Clone, Copy, PartialEq, Eq, Structural)]
pub enum AlertType {
    /// The sources failed as often in a row as the retry limit allows.
    SystemOffline,
    /// A fetch succeeded after an offline alert.
    SystemRecovery,
}

/// What to do after a failed acquisition attempt.
#[derive(Debug, Clone, Copy, PartialEq, Eq, Structural)]
pub enum FetchDecision {
    /// Wait for the given number of seconds, then attempt again.
    Retry { delay_seconds: u64 },
    /// The retries are exhausted: dispatch the alert, if any, and fail.
    GiveUp { alert: Option<AlertType> },
}

/// The result of one call of [`ImageFetcher::fetch_with_retry`]: the image or
/// the error, and the alert that the caller has to dispatch.
#[derive(Debug)]
pub struct FetchReport {
    pub result: Result<Vec<u8>, ImageError>,
    pub alert: Option<AlertType>,
}

/// Mathematical state of an [`ImageFetcher`].
pub struct FetcherState {
    /// The sources, in rotation order.
    pub urls: Seq<Seq<char>>,
    /// Index of the source that the next rotating attempt uses.
    pub cursor: nat,
    /// Number of consecutive failures at which a call gives up.
    pub max_retries: nat,
    /// Seconds to wait between two attempts.
    pub retry_delay_seconds: nat,
    /// Consecutive failures since the last success.
    pub retry_count: nat,
    /// Whether an offline alert was raised in the current failure streak.
    pub alert_sent: bool,
}

impl FetcherState {
    /// The cursor is in range (0 where there is no source) and the counters
    /// fit their machine types.
    pub open spec fn wf(self) -> bool {
        &&& self.cursor < self.urls.len() || (self.urls.len() == 0 && self.cursor == 0)
        &&& self.max_retries <= u32::MAX
        &&& self.retry_count <= u32::MAX
        &&& self.retry_delay_seconds <= u64::MAX
    }

    /// The state after the rotation cursor moved on by one source.
    pub open spec fn advanced(self) -> FetcherState {
        FetcherState {
            cursor: if self.urls.len() == 0 {
                0
            } else {
                (self.cursor + 1) % self.urls.len()
            },
            ..self
        }
    }

    /// The state when an attempt starts: a rotating attempt moves the cursor
    /// on, an attempt on an explicitly chosen source leaves it alone.
    pub open spec fn attempt_begun(self, rotate: bool) -> FetcherState {
        if rotate {
            self.advanced()
        } else {
            self
        }
    }

    /// The state after a successful attempt.
    pub open spec fn succeeded(self) -> FetcherState {
        FetcherState { retry_count: 0, alert_sent: false, ..self }
    }

    /// The alert that a successful attempt raises.
    pub open spec fn recovery_alert(self) -> Option<AlertType> {
        if self.alert_sent {
            Some(AlertType::SystemRecovery)
        } else {
            None
        }
    }

    /// The failure count after one more failure; it stops at `u32::MAX`.
    pub open spec fn next_retry_count(self) -> nat {
        if self.retry_count < u32::MAX {
            self.retry_count + 1
        } else {
            self.retry_count
        }
    }

    /// Whether one more failure exhausts the retries.
    pub open spec fn exhausted_after_failure(self) -> bool {
        self.next_retry_count() >= self.max_retries
    }

    /// The alert that one more failure raises.
    pub open spec fn offline_alert(self) -> Option<AlertType> {
        if self.exhausted_after_failure() && !self.alert_sent {
            Some(AlertType::SystemOffline)
        } else {
            None
        }
    }

    /// The state after a failed attempt.
    pub open spec fn failed(self) -> FetcherState {
        FetcherState {
            retry_count: self.next_retry_count(),
            alert_sent: self.alert_sent || self.exhausted_after_failure(),
            ..self
        }
    }

    /// What a failed attempt makes the caller do.
    pub open spec fn failure_decision(self) -> FetchDecision {
        if self.exhausted_after_failure() {
            FetchDecision::GiveUp { alert: self.offline_alert() }
        } else {
            FetchDecision::Retry { delay_seconds: self.retry_delay_seconds as u64 }
        }
    }

    /// The state after an attempt with the given outcome.
    pub open spec fn after_attempt(self, rotate: bool, succeeded: bool) -> FetcherState {
        if succeeded {
            self.attempt_begun(rotate).succeeded()
        } else {
            self.attempt_begun(rotate).failed()
        }
    }

    /// The alert that an attempt with the given outcome raises.
    pub open spec fn attempt_alert(self, succeeded: bool) -> Option<AlertType> {
        if succeeded {
            self.recovery_alert()
        } else {
            self.offline_alert()
        }
    }

    /// The alerts that a run of attempts raises, one outcome per attempt,
    /// in the order in which they are raised.
    pub open spec fn alerts_raised(self, rotate: bool, outcomes: Seq<bool>) -> Seq<AlertType>
        decreases outcomes.len(),
    {
        if outcomes.len() == 0 {
            Seq::empty()
        } else {
            let later = self.after_attempt(rotate, outcomes[0]).alerts_raised(
                rotate,
                outcomes.drop_first(),
            );
            match self.attempt_alert(outcomes[0]) {
                Some(alert) => seq![alert] + later,
                None => later,
            }
        }
    }

    /// The source that the `k`-th rotating attempt from this state uses,
    /// counted from 0.
    pub open spec fn nth_source(self, k: nat) -> nat
        decreases k,
    {
        if k == 0 {
            self.cursor
        } else {
            self.advanced().nth_source((k - 1) as nat)
        }
    }

    /// Whether one of the first `n` rotating attempts from this state, `n`
    /// being the number of sources, goes to source `j`.
    pub open spec fn round_visits(self, j: nat) -> bool {
        exists|k: nat| k < self.urls.len() && #[trigger] self.nth_source(k) == j
    }

    /// The state after `k` failed attempts in a row.
    pub open spec fn after_failures(self, rotate: bool, k: nat) -> FetcherState
        decreases k,
    {
        if k == 0 {
            self
        } else {
            self.after_failures(rotate, (k - 1) as nat).attempt_begun(rotate).failed()
        }
    }

    /// The source that the attempt after `k` failed attempts goes to: the
    /// explicitly chosen one, else the one under the cursor.
    pub open spec fn source_after(self, url_index: Option<usize>, k: nat) -> int {
        match url_index {
            Some(i) => i as int,
            None => self.after_failures(true, k).cursor as int,
        }
    }

    /// Whether each of the first `k` failed attempts from this state leaves
    /// retries, so that the call goes on after it.
    pub open spec fn retries_remain(self, rotate: bool, k: nat) -> bool
        decreases k,
    {
        k == 0 || (self.retries_remain(rotate, (k - 1) as nat) && !self.after_failures(
            rotate,
            (k - 1) as nat,
        ).attempt_begun(rotate).exhausted_after_failure())
    }
}

/// Whether `alerts` are offline and recovery alerts in turn, beginning with
/// an offline alert if `offline_next` and with a recovery alert if not.
pub open spec fn alternates(alerts: Seq<AlertType>, offline_next: bool) -> bool
    decreases alerts.len(),
{
    alerts.len() == 0 || (alerts[0] == (if offline_next {
        AlertType::SystemOffline
    } else {
        AlertType::SystemRecovery
    }) && alternates(alerts.drop_first(), !offline_next))
}

/// The message of the error with which a call gives up.
pub open spec fn exhausted_reason(max_retries: nat) -> Seq<char> {
    "Failed to fetch image after "@ + decimal(max_retries) + " retries"@
}

/// Whether a call that started in `start` and ended in `end` with `report`
/// made `k` failed attempts that left retries and then one last attempt that
/// decided it: a success, or the failure that exhausted the retries.
pub open spec fn fetch_ends_after(
    start: FetcherState,
    rotate: bool,
    k: nat,
    end: FetcherState,
    report: FetchReport,
) -> bool {
    let last = start.after_failures(rotate, k).attempt_begun(rotate);
    &&& start.retries_remain(rotate, k)
    &&& report.result is Ok ==> end == last.succeeded() && report.alert == last.recovery_alert()
    &&& report.result matches Err(e) ==> {
        &&& last.exhausted_after_failure()
        &&& end == last.failed()
        &&& report.alert == last.offline_alert()
        &&& e matches ImageError::DownloadFailed { url, reason }
        &&& url@ == joined(start.urls, ", "@)
        &&& reason@ == exhausted_reason(start.max_retries)
    }
}

/// Whether `attempt` failed on `url`: it handed back an error for it.
pub open spec fn failed_at<A: Fn(&str) -> Result<Vec<u8>, E>, E>(attempt: A, url: Seq<char>) -> bool {
    exists|u: &str, e: E|
        u@ == url && #[trigger] call_ensures(attempt, (u,), Err::<Vec<u8>, E>(e))
}

/// Fetches images from a list of sources in round-robin order, with a bounded
/// number of retries.
pub struct ImageFetcher {
    image_urls: Vec<String>,
    current_url_index: usize,
    max_retries: u32,
    retry_delay_seconds: u64,
    retry_count: u32,
    disconnect_alert_sent: bool,
}

impl View for ImageFetcher {
    type V = FetcherState;

    closed spec fn view(&self) -> FetcherState {
        FetcherState {
            urls: self.image_urls.deep_view(),
            cursor: self.current_url_index as nat,
            max_retries: self.max_retries as nat,
            retry_delay_seconds: self.retry_delay_seconds as nat,
            retry_count: self.retry_count as nat,
            alert_sent: self.disconnect_alert_sent,
        }
    }
}

impl ImageFetcher {
    #[verifier::type_invariant]
    spec fn cursor_in_range(&self) -> bool {
        self.current_url_index < self.image_urls.len() || (self.image_urls.len() == 0
            && self.current_url_index == 0)
    }

    /// A fetcher over `image_urls` that starts at the first source, with no
    /// failure counted and no alert raised.
    pub fn new(image_urls: Vec<String>, max_retries: u32, retry_delay_seconds: u64) -> (r: Self)
        ensures
            r@ == (FetcherState {
                urls: image_urls.deep_view(),
                cursor: 0,
                max_retries: max_retries as nat,
                retry_delay_seconds: retry_delay_seconds as nat,
                retry_count: 0,
                alert_sent: false,
            }),
            r@.wf(),
    {
        ImageFetcher {
            image_urls,
            current_url_index: 0,
            max_retries,
            retry_delay_seconds,
            retry_count: 0,
            disconnect_alert_sent: false,
        }
    }

    /// The number of consecutive failures since the last success.
    pub fn get_retry_count(&self) -> (r: u32)
        ensures
            r == self@.retry_count,
            self@.wf(),
    {
        proof {
            use_type_invariant(self);
        }
        self.retry_count
    }

    /// Whether an offline alert was raised and no fetch has succeeded since.
    pub fn is_disconnect_alert_sent(&self) -> (r: bool)
        ensures
            r == self@.alert_sent,
            self@.wf(),
    {
        proof {
            use_type_invariant(self);
        }
        self.disconnect_alert_sent
    }

    /// Forgets the failure streak and goes back to the first source.
    pub fn reset_state(&mut self)
        ensures
            final(self)@ == (FetcherState {
                cursor: 0,
                retry_count: 0,
                alert_sent: false,
                ..old(self)@
            }),
            final(self)@.wf(),
    {
        proof {
            use_type_invariant(&*self);
        }
        self.retry_count = 0;
        self.disconnect_alert_sent = false;
        self.current_url_index = 0;
    }

    /// The configured sources, in rotation order.
    pub fn get_image_urls(&self) -> (r: &[String])
        ensures
            r.deep_view() == self@.urls,
            self@.wf(),
    {
        proof {
            use_type_invariant(self);
        }
        let r = self.image_urls.as_slice();
        assert(r.deep_view() =~= self.image_urls.deep_view());
        r
    }

    /// The source that the next rotating attempt uses.
    pub fn get_current_image_url(&self) -> (r: &str)
        requires
            self@.urls.len() > 0,
        ensures
            r@ == self@.urls[self@.cursor as int],
            self@.wf(),
    {
        proof {
            use_type_invariant(self);
        }
        self.image_urls[self.current_url_index].as_str()
    }

    /// All sources in one line, separated by a comma and a space.
    pub fn get_image_urls_string(&self) -> (r: String)
        ensures
            r@ == joined(self@.urls, ", "@),
            self@.wf(),
    {
        proof {
            use_type_invariant(self);
        }
        join(&self.image_urls, ", ")
    }

    /// The number of consecutive failures at which a call gives up.
    pub fn get_max_retries(&self) -> (r: u32)
        ensures
            r == self@.max_retries,
            self@.wf(),
    {
        proof {
            use_type_invariant(self);
        }
        self.max_retries
    }

    /// The number of seconds to wait between two attempts.
    pub fn get_retry_delay_seconds(&self) -> (r: u64)
        ensures
            r == self@.retry_delay_seconds,
            self@.wf(),
    {
        proof {
            use_type_invariant(self);
        }
        self.retry_delay_seconds
    }

    /// The number of configured sources.
    pub fn source_count(&self) -> (r: usize)
        ensures
            r == self@.urls.len(),
            self@.wf(),
    {
        proof {
            use_type_invariant(self);
        }
        self.image_urls.len()
    }

    /// The source at `index`, if there is one. The rotation is not touched.
    pub fn source_at(&self, index: usize) -> (r: Option<&str>)
        ensures
            index < self@.urls.len() ==> (r matches Some(url) && url@ == self@.urls[index as int]),
            index >= self@.urls.len() ==> r is None,
    {
        if index < self.image_urls.len() {
            Some(self.image_urls[index].as_str())
        } else {
            None
        }
    }

    /// The rotation: hands out the index of the source under the cursor and
    /// moves the cursor on by one, back to the first source after the last.
    pub fn next_source(&mut self) -> (index: usize)
        requires
            old(self)@.urls.len() > 0,
        ensures
            index == old(self)@.cursor,
            index < old(self)@.urls.len(),
            final(self)@ == old(self)@.advanced(),
            final(self)@.wf(),
    {
        proof {
            use_type_invariant(&*self);
        }
        let index = self.current_url_index;
        proof {
            let len = self.image_urls.len() as int;
            if index + 1 == len {
                vstd::arithmetic::div_mod::lemma_mod_self_0(len);
            } else {
                vstd::arithmetic::div_mod::lemma_small_mod((index + 1) as nat, len as nat);
            }
        }
        if index + 1 == self.image_urls.len() {
            self.current_url_index = 0;
        } else {
            self.current_url_index = index + 1;
        }
        index
    }

    /// Books a successful attempt: the failure streak ends, and a recovery
    /// alert is due if an offline alert had been raised in it.
    pub fn record_success(&mut self) -> (alert: Option<AlertType>)
        ensures
            alert == old(self)@.recovery_alert(),
            final(self)@ == old(self)@.succeeded(),
            final(self)@.wf(),
    {
        proof {
            use_type_invariant(&*self);
        }
        let alert = if self.disconnect_alert_sent {
            Some(AlertType::SystemRecovery)
        } else {
            None
        };
        self.disconnect_alert_sent = false;
        self.retry_count = 0;
        alert
    }

    /// Books a failed attempt and decides how to go on: retry after the
    /// configured delay while the failure count is below the limit, give up
    /// once it has reached it. The first time a streak reaches the limit an
    /// offline alert is due.
    pub fn record_failure(&mut self) -> (decision: FetchDecision)
        ensures
            decision == old(self)@.failure_decision(),
            final(self)@ == old(self)@.failed(),
            final(self)@.wf(),
    {
        proof {
            use_type_invariant(&*self);
        }
        if self.retry_count < u32::MAX {
            self.retry_count = self.retry_count + 1;
        }
        if self.retry_count >= self.max_retries {
            let alert = if self.disconnect_alert_sent {
                None
            } else {
                Some(AlertType::SystemOffline)
            };
            self.disconnect_alert_sent = true;
            FetchDecision::GiveUp { alert }
        } else {
            FetchDecision::Retry { delay_seconds: self.retry_delay_seconds }
        }
    }

    /// Fetches one image. Attempts are made until one succeeds or the count
    /// of consecutive failures reaches the limit; between two attempts the
    /// call waits for the configured delay. Without `url_index` each attempt
    /// takes the next source of the rotation; with it every attempt goes to
    /// that source and the rotation is left alone.
    ///
    /// `attempt` performs one acquisition from the URL it is given and
    /// `wait` sleeps for the number of seconds it is given. The alert that
    /// the call raises, if any, is handed back in the report for the caller
    /// to dispatch; whether dispatching works has no bearing on the result.
    ///
    /// The call succeeds with the bytes of the first attempt that succeeds.
    /// It fails only after attempts that failed: each of the attempts
    /// before the last was an attempt that failed on the source in turn,
    /// and so was the last if the call fails.
    pub fn fetch_with_retry<A, W, E>(
        &mut self,
        attempt: A,
        wait: W,
        url_index: Option<usize>,
    ) -> (report: FetchReport) where A: Fn(&str) -> Result<Vec<u8>, E>, W: Fn(u64)
        requires
            old(self)@.urls.len() > 0,
            url_index matches Some(i) ==> i < old(self)@.urls.len(),
            forall|url: &str| call_requires(attempt, (url,)),
            forall|seconds: u64| call_requires(wait, (seconds,)),
        ensures
            exists|k: nat|
                {
                    &&& #[trigger] fetch_ends_after(
                        old(self)@,
                        url_index is None,
                        k,
                        final(self)@,
                        report,
                    )
                    &&& report.result is Ok ==> exists|url: &str|
                        {
                            &&& url@ == old(self)@.urls[old(self)@.source_after(url_index, k)]
                            &&& #[trigger] call_ensures(
                                attempt,
                                (url,),
                                Ok::<Vec<u8>, E>(report.result->Ok_0),
                            )
                        }
                    &&& forall|j: nat|
                        j < k ==> failed_at(
                            attempt,
                            old(self)@.urls[#[trigger] old(self)@.source_after(url_index, j)],
                        )
                    &&& report.result is Err ==> failed_at(
                        attempt,
                        old(self)@.urls[old(self)@.source_after(url_index, k)],
                    )
                },
            final(self)@.wf(),
    {
        let rotate = url_index.is_none();
        let ghost start = self@;
        let ghost mut k: nat = 0;
        loop
            invariant
                self@ == start.after_failures(rotate, k),
                start.retries_remain(rotate, k),
                forall|j: nat|
                    j < k ==> failed_at(
                        attempt,
                        start.urls[#[trigger] start.source_after(url_index, j)],
                    ),
                start == old(self)@,
                self@.urls == start.urls,
                self@.max_retries == start.max_retries,
                self@.urls.len() > 0,
                rotate == (url_index is None),
                url_index matches Some(i) ==> i < self@.urls.len(),
                forall|url: &str| call_requires(attempt, (url,)),
                forall|seconds: u64| call_requires(wait, (seconds,)),
            decreases
                    (if self@.retry_count < self@.max_retries {
                        self@.max_retries - self@.retry_count
                    } else {
                        0
                    }),
        {
            proof {
                use_type_invariant(&*self);
            }
            let index = match url_index {
                Some(i) => i,
                None => self.next_source(),
            };
            let url = self.image_urls[index].as_str();
            let outcome = attempt(url);
            match outcome {
                Ok(data) => {
                    let alert = self.record_success();
                    let report = FetchReport { result: Ok(data), alert };
                    assert(fetch_ends_after(start, rotate, k, self@, report));
                    assert(url@ == start.urls[start.source_after(url_index, k)]);
                    assert(call_ensures(attempt, (url,), Ok::<Vec<u8>, E>(report.result->Ok_0)));
                    return report;
                },
                Err(e) => {
                    proof {
                        assert(url@ == start.urls[start.source_after(url_index, k)]);
                        assert(call_ensures(attempt, (url,), Err::<Vec<u8>, E>(e)));
                        assert(failed_at(
                            attempt,
                            start.urls[start.source_after(url_index, k)],
                        ));
                    }
                    match self.record_failure() {
                        FetchDecision::GiveUp { alert } => {
                            let count = u64_to_decimal(self.max_retries as u64);
                            let mut reason = String::from_str("Failed to fetch image after ");
                            reason.append(count.as_str());
                            reason.append(" retries");
                            let url = join(&self.image_urls, ", ");
                            let report = FetchReport {
                                result: Err(ImageError::DownloadFailed { url, reason }),
                                alert,
                            };
                            assert(fetch_ends_after(start, rotate, k, self@, report));
                            return report;
                        },
                        FetchDecision::Retry { delay_seconds } => {
                            wait(delay_seconds);
                            proof {
                                k = k + 1;
                            }
                        },
                    }
                },
            }
        }
    }
}

/// The `k`-th rotating attempt goes to the source `k` places after the
/// cursor, counted cyclically.
pub proof fn lemma_nth_source(s: FetcherState, k: nat)
    requires
        s.wf(),
        s.urls.len() >= 1,
    ensures
        s.nth_source(k) == (s.cursor + k) % s.urls.len(),
    decreases k,
{
    let n = s.urls.len() as int;
    if k == 0 {
        vstd::arithmetic::div_mod::lemma_small_mod(s.cursor, n as nat);
    } else {
        let t = s.advanced();
        let c = s.cursor as int;
        vstd::arithmetic::div_mod::lemma_mod_bound(c + 1, n);
        lemma_nth_source(t, (k - 1) as nat);
        vstd::arithmetic::div_mod::lemma_add_mod_noop(c + 1, k - 1, n);
        vstd::arithmetic::div_mod::lemma_mod_twice(c + 1, n);
        vstd::arithmetic::div_mod::lemma_add_mod_noop((c + 1) % n, k - 1, n);
    }
}

/// Round-robin law. Over `n >= 1` sources, `n` rotating attempts in a row
/// go to `n` different sources, so to each source exactly once, and the
/// attempt after them goes to the same source as the first. A new fetcher
/// starts at source 0.
pub proof fn lemma_rotation_visits_each_source_once(s: FetcherState)
    requires
        s.wf(),
        s.urls.len() >= 1,
    ensures
        forall|k: nat| k < s.urls.len() ==> #[trigger] s.nth_source(k) < s.urls.len(),
        forall|k1: nat, k2: nat|
            k1 < k2 < s.urls.len() ==> #[trigger] s.nth_source(k1) != #[trigger] s.nth_source(k2),
        forall|j: nat| j < s.urls.len() ==> #[trigger] s.round_visits(j),
        s.nth_source(0) == s.cursor,
        s.nth_source(s.urls.len()) == s.nth_source(0),
{
    let n = s.urls.len() as int;
    let c = s.cursor as int;
    assert forall|k: nat| k < s.urls.len() implies #[trigger] s.nth_source(k) < s.urls.len() by {
        lemma_nth_source(s, k);
        vstd::arithmetic::div_mod::lemma_mod_bound(c + k, n);
    }
    assert forall|k1: nat, k2: nat| k1 < k2 < s.urls.len() implies #[trigger] s.nth_source(k1)
        != #[trigger] s.nth_source(k2) by {
        lemma_nth_source(s, k1);
        lemma_nth_source(s, k2);
        lemma_offset_mod(c, k1 as int, n);
        lemma_offset_mod(c, k2 as int, n);
    }
    assert forall|j: nat| j < s.urls.len() implies #[trigger] s.round_visits(j) by {
        let k: nat = if j >= s.cursor {
            (j - s.cursor) as nat
        } else {
            (j + n - s.cursor) as nat
        };
        lemma_nth_source(s, k);
        lemma_offset_mod(c, k as int, n);
        assert(k < s.urls.len() && s.nth_source(k) == j);
    }
    lemma_nth_source(s, s.urls.len());
    lemma_nth_source(s, 0);
    lemma_offset_mod(c, 0, n);
    vstd::arithmetic::div_mod::lemma_mod_add_multiples_vanish(c, n);
}

/// For `0 <= c < n` and `0 <= k < n`, `(c + k) % n` is `c + k` reduced by
/// at most one `n`.
proof fn lemma_offset_mod(c: int, k: int, n: int)
    requires
        0 <= c < n,
        0 <= k < n,
    ensures
        (c + k) % n == if c + k < n {
            c + k
        } else {
            c + k - n
        },
{
    if c + k < n {
        vstd::arithmetic::div_mod::lemma_small_mod((c + k) as nat, n as nat);
    } else {
        vstd::arithmetic::div_mod::lemma_small_mod((c + k - n) as nat, n as nat);
        vstd::arithmetic::div_mod::lemma_mod_add_multiples_vanish(c + k - n, n);
    }
}

/// Episode law. Whatever the attempts of any number of calls come to, the
/// alerts raised are offline and recovery alerts in turn: no second
/// offline alert without a recovery between them, and no recovery alert
/// that no offline alert went before. The first is an offline alert unless
/// one is outstanding at the start.
pub proof fn lemma_alerts_alternate(s: FetcherState, rotate: bool, outcomes: Seq<bool>)
    requires
        s.wf(),
    ensures
        alternates(s.alerts_raised(rotate, outcomes), !s.alert_sent),
    decreases outcomes.len(),
{
    if outcomes.len() > 0 {
        let next = s.after_attempt(rotate, outcomes[0]);
        if s.urls.len() > 0 {
            vstd::arithmetic::div_mod::lemma_mod_bound(s.cursor as int + 1, s.urls.len() as int);
        }
        lemma_alerts_alternate(next, rotate, outcomes.drop_first());
        let later = next.alerts_raised(rotate, outcomes.drop_first());
        match s.attempt_alert(outcomes[0]) {
            Some(alert) => {
                assert((seq![alert] + later).drop_first() =~= later);
            },
            None => {},
        }
    }
}

/// While the failure count stays below the limit, failed attempts only
/// count: after `k` of them the count has grown by `k`, no alert was raised,
/// and each of them made the call retry.
pub proof fn lemma_failures_below_limit(s: FetcherState, rotate: bool, k: nat)
    requires
        s.wf(),
        s.retry_count + k < s.max_retries,
    ensures
        s.retries_remain(rotate, k),
        s.after_failures(rotate, k).wf(),
        s.after_failures(rotate, k).retry_count == s.retry_count + k,
        s.after_failures(rotate, k).alert_sent == s.alert_sent,
        s.after_failures(rotate, k).max_retries == s.max_retries,
        s.after_failures(rotate, k).retry_delay_seconds == s.retry_delay_seconds,
        s.after_failures(rotate, k).urls == s.urls,
        forall|j: nat|
            j < k ==> #[trigger] s.after_failures(rotate, j).attempt_begun(
                rotate,
            ).failure_decision() == (FetchDecision::Retry {
                delay_seconds: s.retry_delay_seconds as u64,
            }),
    decreases k,
{
    if k > 0 {
        lemma_failures_below_limit(s, rotate, (k - 1) as nat);
        let before = s.after_failures(rotate, (k - 1) as nat);
        if before.urls.len() > 0 {
            vstd::arithmetic::div_mod::lemma_mod_bound(
                before.cursor as int + 1,
                before.urls.len() as int,
            );
        }
        assert forall|j: nat| j < k implies #[trigger] s.after_failures(rotate, j).attempt_begun(
            rotate,
        ).failure_decision() == (FetchDecision::Retry {
            delay_seconds: s.retry_delay_seconds as u64,
        }) by {
            if j < k - 1 {
            } else {
                assert(j == k - 1);
            }
        }
    }
}

/// Retry law, success in time. From a state with no failure counted and a
/// limit of at least one, a call whose source fails `max_retries - 1` times
/// and then succeeds ends in success with the failure count back at 0 and
/// raises no offline alert: every failure made it retry, and the alert of
/// the report is a recovery alert or none.
pub proof fn lemma_success_before_limit(
    s: FetcherState,
    rotate: bool,
    end: FetcherState,
    report: FetchReport,
)
    requires
        s.wf(),
        s.retry_count == 0,
        s.max_retries >= 1,
        report.result is Ok,
        fetch_ends_after(s, rotate, (s.max_retries - 1) as nat, end, report),
    ensures
        end.retry_count == 0,
        !end.alert_sent,
        report.alert != Some(AlertType::SystemOffline),
        forall|j: nat|
            j < s.max_retries - 1 ==> #[trigger] s.after_failures(rotate, j).attempt_begun(
                rotate,
            ).failure_decision() is Retry,
{
    lemma_failures_below_limit(s, rotate, (s.max_retries - 1) as nat);
}

/// Retry law, exhaustion and recovery. From a state with no failure counted
/// and no alert raised, with a limit of at least one: a call that fails does
/// so at its `max_retries`-th failed attempt and raises the offline alert,
/// once; a call after it that succeeds does so at its first attempt and
/// raises the recovery alert; the state after that is as new, so that the
/// next success raises nothing.
pub proof fn lemma_exhaustion_then_recovery(
    s: FetcherState,
    rotate: bool,
    k: nat,
    mid: FetcherState,
    first: FetchReport,
    rotate_again: bool,
    k_again: nat,
    end: FetcherState,
    second: FetchReport,
)
    requires
        s.wf(),
        s.retry_count == 0,
        !s.alert_sent,
        s.max_retries >= 1,
        first.result is Err,
        fetch_ends_after(s, rotate, k, mid, first),
        second.result is Ok,
        fetch_ends_after(mid, rotate_again, k_again, end, second),
    ensures
        k + 1 == s.max_retries,
        first.alert == Some(AlertType::SystemOffline),
        mid.alert_sent,
        mid.retry_count == s.max_retries,
        k_again == 0,
        second.alert == Some(AlertType::SystemRecovery),
        !end.alert_sent,
        end.retry_count == 0,
        end.recovery_alert() is None,
{
    lemma_retries_stay_below_limit(s, rotate, k);
    let last = s.after_failures(rotate, k).attempt_begun(rotate);
    assert(last.exhausted_after_failure());
    assert(last.retry_count == k);
    if k_again > 0 {
        lemma_retries_stay_below_limit(mid, rotate_again, k_again);
    }
}

/// Failed attempts that each leave retries keep the count below the limit:
/// if the first `k` failures from `s` all made the call retry, the count
/// grew by `k`, stays below the limit, and no alert was raised.
pub proof fn lemma_retries_stay_below_limit(s: FetcherState, rotate: bool, k: nat)
    requires
        s.wf(),
        s.retries_remain(rotate, k),
    ensures
        k > 0 ==> s.retry_count + k < s.max_retries,
        s.after_failures(rotate, k).wf(),
        s.after_failures(rotate, k).retry_count == s.retry_count + k,
        s.after_failures(rotate, k).alert_sent == s.alert_sent,
        s.after_failures(rotate, k).max_retries == s.max_retries,
        s.after_failures(rotate, k).urls == s.urls,
    decreases k,
{
    if k > 0 {
        lemma_retries_stay_below_limit(s, rotate, (k - 1) as nat);
        let before = s.after_failures(rotate, (k - 1) as nat);
        if before.urls.len() > 0 {
            vstd::arithmetic::div_mod::lemma_mod_bound(
                before.cursor as int + 1,
                before.urls.len() as int,
            );
        }
    }
}

} // verus!
