//! The decisions of the capture loop. The loop itself, with its clock and its
//! socket, runs outside: it reports each clock reading and each receive here,
//! and this state says whether to go on and what the run has produced.
use crate::message::{convert_data, decodes, message_of, Message};
use vstd::prelude::*;

verus! {

/// Time to live set on the capturing socket before each receive.
pub const RECEIVE_TTL: i32 = 255;

/// How long one receive may block, in microseconds. A run can outlast its
/// requested duration by up to this much.
pub const RECEIVE_TIMEOUT_MICROS: u64 = 3_000_000;

const MICROS_PER_SEC: u64 = 1_000_000;

/// A clock reading: whole seconds and nanoseconds.
#[derive(Debug, Clone, Copy, PartialEq, Eq, Structural)]
pub struct Instant {
    pub sec: i64,
    pub nsec: i32,
}

impl Instant {
    /// The reading as a count of nanoseconds.
    pub open spec fn nanos(self) -> int {
        self.sec * 1_000_000_000 + self.nsec
    }

    fn as_nanos(&self) -> (r: i128)
        ensures
            r == self.nanos(),
    {
        self.sec as i128 * 1_000_000_000 + self.nsec as i128
    }
}

/// A span split into whole seconds and the microseconds left over, as a
/// socket's receive timeout is given.
#[derive(Debug, Clone, Copy, PartialEq, Eq, Structural)]
pub struct TimeVal {
    pub tv_sec: u64,
    pub tv_usec: u64,
}

/// Splits a span of microseconds into seconds and the remaining microseconds.
pub fn compute_timeout(micros: u64) -> (r: TimeVal)
    ensures
        r.tv_sec == micros / 1_000_000,
        r.tv_usec == micros % 1_000_000,
        r.tv_sec * 1_000_000 + r.tv_usec == micros,
{
    TimeVal { tv_sec: micros / MICROS_PER_SEC, tv_usec: micros % MICROS_PER_SEC }
}

/// The receive timeout to set before each receive.
pub fn receive_timeout() -> (r: TimeVal)
    ensures
        r.tv_sec * 1_000_000 + r.tv_usec == RECEIVE_TIMEOUT_MICROS,
        r.tv_usec < 1_000_000,
{
    compute_timeout(RECEIVE_TIMEOUT_MICROS)
}

/// What one blocking receive came back with.
#[derive(Debug, Clone, Copy, PartialEq, Eq, Structural)]
pub enum ReceiveOutcome {
    /// The timeout elapsed, or the call was interrupted, with nothing read.
    TimedOut,
    /// The socket reported another error.
    Failed,
    /// This many bytes were written at the start of the buffer.
    Received(usize),
}

/// The state of a run: its deadline in nanoseconds, whether it has stopped,
/// and the results so far, in order of arrival.
pub struct CaptureView<B> {
    pub deadline: int,
    pub stopped: bool,
    pub results: Seq<B>,
}

/// A run started at `now` for `duration_micros`.
pub open spec fn started<B>(now: Instant, duration_micros: int) -> CaptureView<B> {
    CaptureView { deadline: now.nanos() + duration_micros * 1000, stopped: false, results: seq![] }
}

/// The state after a clock reading of `now`: a run stops, for good, once the
/// reading reaches the deadline.
pub open spec fn after_check<B>(v: CaptureView<B>, now: Instant) -> CaptureView<B> {
    CaptureView { stopped: v.stopped || now.nanos() >= v.deadline, ..v }
}

/// The state after a decoded packet was turned into `out`.
pub open spec fn after_output<B>(v: CaptureView<B>, out: B) -> CaptureView<B> {
    CaptureView { results: v.results.push(out), ..v }
}

/// A capture run in progress.
pub struct CaptureLoop<B> {
    deadline: i128,
    stopped: bool,
    results: Vec<B>,
}

impl<B> View for CaptureLoop<B> {
    type V = CaptureView<B>;

    closed spec fn view(&self) -> CaptureView<B> {
        CaptureView { deadline: self.deadline as int, stopped: self.stopped, results: self.results@ }
    }
}

impl<B> CaptureLoop<B> {
    /// Starts a run at `now` that lasts `duration_micros`.
    pub fn start(now: Instant, duration_micros: i64) -> (r: Self)
        ensures
            r@ == started::<B>(now, duration_micros as int),
    {
        let r = CaptureLoop {
            deadline: now.as_nanos() + duration_micros as i128 * 1000,
            stopped: false,
            results: Vec::new(),
        };
        assert(r@.results =~= seq![]);
        r
    }

    /// Takes a clock reading; tells whether to receive once more.
    pub fn keep_running(&mut self, now: Instant) -> (r: bool)
        ensures
            final(self)@ == after_check(old(self)@, now),
            r == !final(self)@.stopped,
    {
        if now.as_nanos() >= self.deadline {
            self.stopped = true;
        }
        !self.stopped
    }

    /// Takes what a receive into `buffer` came back with. A packet that
    /// decodes is turned into a result by `transform` and appended; anything
    /// else leaves the results as they were. Tells whether a result was
    /// appended.
    pub fn on_receive<F: Fn(Message) -> B>(
        &mut self,
        outcome: ReceiveOutcome,
        buffer: &[u8],
        transform: &F,
    ) -> (r: bool)
        requires
            outcome matches ReceiveOutcome::Received(n) ==> n <= buffer@.len(),
            forall|m: Message| transform.requires((m,)),
        ensures
            r <==> (outcome matches ReceiveOutcome::Received(n) && decodes(
                buffer@.subrange(0, n as int),
            )),
            !r ==> final(self)@ == old(self)@,
            r ==> exists|m: Message, out: B|
                message_of(m, buffer@.subrange(0, (outcome->Received_0) as int))
                    && transform.ensures((m,), out) && final(self)@ == after_output(
                    old(self)@,
                    out,
                ),
    {
        match outcome {
            ReceiveOutcome::Received(n) => {
                let packet = vstd::slice::slice_subrange(buffer, 0, n);
                match convert_data(packet) {
                    Some(m) => {
                        let out = transform(m);
                        self.results.push(out);
                        assert(self@ == after_output(old(self)@, out));
                        true
                    },
                    None => false,
                }
            },
            _ => false,
        }
    }

    /// Ends the run and hands over its results, in order of arrival.
    pub fn finish(self) -> (r: Vec<B>)
        ensures
            r@ == self@.results,
    {
        self.results
    }
}

/// A run whose duration is zero or less stops at its first clock reading, with
/// no result: no receive, so no timeout, is waited for.
pub proof fn lemma_zero_duration_run<B>(start: Instant, duration_micros: int, now: Instant)
    requires
        duration_micros <= 0,
        now.nanos() >= start.nanos(),
    ensures
        after_check(started::<B>(start, duration_micros), now).stopped,
        after_check(started::<B>(start, duration_micros), now).results.len() == 0,
{
}

/// Any clock reading at or past the deadline stops the run, and a stopped run
/// stays stopped: a run lasts until its first reading past the deadline, which
/// comes at most one receive timeout later.
pub proof fn lemma_stops_by_deadline<B>(v: CaptureView<B>, now: Instant, later: Instant)
    requires
        now.nanos() >= v.deadline,
    ensures
        after_check(v, now).stopped,
        after_check(after_check(v, now), later).stopped,
        after_check(v, now).results == v.results,
{
}

/// Results keep the order of arrival: two packets decoded one after the other,
/// with clock readings between them, give their results in that order after
/// all that came before.
pub proof fn lemma_arrival_order<B>(v: CaptureView<B>, first: B, now: Instant, second: B)
    ensures
        after_output(after_check(after_output(v, first), now), second).results == v.results.push(
            first,
        ).push(second),
        ({
            let r = after_output(after_check(after_output(v, first), now), second).results;
            r[v.results.len() as int] == first && r[v.results.len() + 1int] == second
        }),
{
}

} // verus!
