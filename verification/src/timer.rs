//! The hardware time source and the generic condition-polling primitive.

use vstd::prelude::*;

use crate::Error;
use crate::io::IoEvent;
use crate::io::RegisterIo;
use crate::num::U64Ext;
use crate::num::spec_u64_from_halves;
use crate::regs::PTIMER_TIME_0;
use crate::regs::PTIMER_TIME_1;
use crate::regs::PtimerTime0;
use crate::regs::PtimerTime1;

verus! {

/// Number of consecutive time reads after which the timer is considered
/// frozen if it hasn't moved forward.
pub const MAX_STALLED_READS: usize = 16;

/// Retry budget for one counter read. The device is assumed to always make
/// forward progress, so in practice a handful of retries suffice; the cap
/// only bounds the loop so that a broken device surfaces an error instead of
/// spinning forever.
pub const MAX_READ_ATTEMPTS: u64 = u64::MAX;

/// Poll budget for one wait. As with the read retry cap, this bound is far
/// beyond anything a live device can reach and only keeps a pathological
/// clock from spinning the loop forever.
pub const MAX_CONDITION_POLLS: u64 = u64::MAX;

/// The event is a read of one of the two counter half-registers.
pub open spec fn timer_read_event(e: IoEvent) -> bool {
    match e {
        IoEvent::Read32 { offset, value } => offset == PTIMER_TIME_0 || offset == PTIMER_TIME_1,
        _ => false,
    }
}

/// `post` extends `pre` by counter-half reads only.
pub open spec fn timer_reads_only(pre: Seq<IoEvent>, post: Seq<IoEvent>) -> bool {
    &&& pre.is_prefix_of(post)
    &&& forall|i: int| pre.len() <= i < post.len() ==> timer_read_event(#[trigger] post[i])
}

/// `post` extends `pre` by counter-half reads only and ends in a consistent
/// read window: the high half read as `h`, the low half read as `l`, and the
/// high half re-read as the same `h`, with `v` the combined 64-bit value.
pub open spec fn read_session(pre: Seq<IoEvent>, post: Seq<IoEvent>, v: u64) -> bool {
    &&& timer_reads_only(pre, post)
    &&& post.len() >= pre.len() + 3
    &&& exists|h: u32, l: u32|
        {
            &&& post[post.len() - 3] == (IoEvent::Read32 { offset: PTIMER_TIME_1, value: h })
            &&& post[post.len() - 2] == (IoEvent::Read32 { offset: PTIMER_TIME_0, value: l })
            &&& post[post.len() - 1] == (IoEvent::Read32 { offset: PTIMER_TIME_1, value: h })
            &&& v == spec_u64_from_halves(h, l)
        }
}

/// `post` extends `pre` by a chain of read sessions whose combined counter
/// values are `ts`, in order.
pub open spec fn read_trace(pre: Seq<IoEvent>, post: Seq<IoEvent>, ts: Seq<u64>) -> bool
    decreases ts.len(),
{
    if ts.len() == 0 {
        post == pre
    } else {
        exists|mid: Seq<IoEvent>|
            read_trace(pre, mid, ts.drop_last()) && read_session(mid, post, ts.last())
    }
}

/// The trace of counter readings ends with `MAX_STALLED_READS` readings that
/// never moved past the reading before them: the stuck-clock pattern.
pub open spec fn ends_stalled(ts: Seq<u64>) -> bool {
    &&& ts.len() > MAX_STALLED_READS
    &&& forall|i: int|
        ts.len() - (MAX_STALLED_READS + 1) <= i < ts.len() ==> #[trigger] ts[i] == ts[ts.len()
            - 1]
}

/// Addition on counter values, saturating at the largest representable value.
pub open spec fn spec_sat_add(a: u64, b: u64) -> u64 {
    if a + b <= u64::MAX {
        (a + b) as u64
    } else {
        u64::MAX
    }
}

fn sat_add(a: u64, b: u64) -> (r: u64)
    ensures
        r == spec_sat_add(a, b),
{
    if a <= u64::MAX - b {
        a + b
    } else {
        u64::MAX
    }
}

proof fn lemma_read_trace_extend(
    pre: Seq<IoEvent>,
    mid: Seq<IoEvent>,
    post: Seq<IoEvent>,
    ts: Seq<u64>,
    v: u64,
)
    requires
        read_trace(pre, mid, ts),
        read_session(mid, post, v),
    ensures
        read_trace(pre, post, ts.push(v)),
{
    assert(ts.push(v).drop_last() =~= ts);
    assert(ts.push(v).last() == v);
    assert(read_trace(pre, mid, ts.push(v).drop_last()) && read_session(
        mid,
        post,
        ts.push(v).last(),
    ));
}

/// The hardware time source and its polling helper.
pub struct Timer {}

impl Timer {
    pub fn new() -> Timer {
        Timer {}
    }

    /// Read the 64-bit counter out of its two independently-updated halves:
    /// read the high half, the low half, then the high half again, and accept
    /// the pair only when both high-half reads agree; otherwise retry.
    ///
    /// The result is never a torn value: on success it combines a high half
    /// with a low half read between two identical high-half readings. Only a
    /// device whose counter stays inconsistent for the whole retry budget
    /// makes the read fail.
    #[verifier::loop_isolation(false)]
    pub fn read<B: RegisterIo>(bar: &mut B) -> (r: Result<u64, Error>)
        ensures
            timer_reads_only(old(bar).log(), final(bar).log()),
            r matches Ok(v) ==> read_session(old(bar).log(), final(bar).log(), v),
            r matches Err(e) ==> e == Error::Timeout,
            r is Err ==> final(bar).log().len() >= old(bar).log().len() + 3,
    {
        let ghost log0 = bar.log();
        let mut attempts: u64 = 0;
        loop
            invariant
                timer_reads_only(log0, bar.log()),
                attempts <= MAX_READ_ATTEMPTS,
            decreases MAX_READ_ATTEMPTS - attempts,
        {
            let hi = PtimerTime1::read(bar);
            let lo = PtimerTime0::read(bar);
            let hi2 = PtimerTime1::read(bar);
            if hi.hi() == hi2.hi() {
                return Ok(u64::from_u32s(hi.hi(), lo.lo()));
            }
            if attempts == MAX_READ_ATTEMPTS {
                return Err(Error::Timeout);
            }
            attempts = attempts + 1;
        }
    }

    /// Set the 64-bit counter by writing its high half, then its low half.
    pub fn time<B: RegisterIo>(bar: &mut B, time: u64)
        ensures
            exists|hi: u32, lo: u32|
                {
                    &&& spec_u64_from_halves(hi, lo) == time
                    &&& final(bar).log() == old(bar).log().push(
                        IoEvent::Write32 { offset: PTIMER_TIME_1, value: hi },
                    ).push(IoEvent::Write32 { offset: PTIMER_TIME_0, value: lo })
                },
    {
        let (hi, lo) = time.into_u32s();
        PtimerTime1::write(bar, hi);
        PtimerTime0::write(bar, lo);
    }

    /// Wait until `cond` yields a value or `timeout_ns` nanoseconds of device
    /// time elapse.
    ///
    /// The condition is evaluated before any clock access, so a condition
    /// already true on entry succeeds even with a zero timeout and without a
    /// single register read. Otherwise the deadline is computed from the
    /// current device time, saturating at the largest counter value, and the
    /// condition is re-evaluated before each clock reading. `Err(Timeout)` is
    /// returned when a changed clock reading is at or past the deadline, or
    /// when the clock reading is identical for `MAX_STALLED_READS`
    /// consecutive polls: a stuck clock and an expired budget are
    /// indistinguishable non-progress to the caller.
    #[verifier::loop_isolation(false)]
    #[verifier::rlimit(100)]
    pub fn wait_on<B: RegisterIo, R, F: Fn() -> Option<R>>(
        &self,
        bar: &mut B,
        timeout_ns: u64,
        cond: F,
    ) -> (r: Result<R, Error>)
        requires
            call_requires(cond, ()),
        ensures
            r matches Ok(v) ==> call_ensures(cond, (), Some(v)),
            r matches Err(e) ==> e == Error::Timeout,
            r is Err ==> exists|o: Option<R>| call_ensures(cond, (), o) && o is None,
            (forall|o: Option<R>| call_ensures(cond, (), o) ==> o is Some) ==> final(bar).log()
                == old(bar).log(),
            exists|ts: Seq<u64>, mid: Seq<IoEvent>|
                read_trace(old(bar).log(), mid, ts) && timer_reads_only(mid, final(bar).log()),
            r is Err ==> exists|ts: Seq<u64>, mid: Seq<IoEvent>|
                {
                    &&& read_trace(old(bar).log(), mid, ts)
                    &&& timer_reads_only(mid, final(bar).log())
                    &&& {
                        ||| (ts.len() >= 2 && (ts[ts.len() - 1] >= spec_sat_add(
                            ts[0],
                            timeout_ns,
                        ) || ends_stalled(ts)))
                        ||| final(bar).log().len() > mid.len()
                        ||| ts.len() > MAX_CONDITION_POLLS
                    }
                },
    {
        let ghost log0 = bar.log();
        let first = cond();
        if let Some(ret) = first {
            proof {
                assert(read_trace(log0, log0, Seq::<u64>::empty()));
            }
            return Ok(ret);
        }
        assert(call_ensures(cond, (), first) && first is None);
        let ghost empty_trace = Seq::<u64>::empty();
        proof {
            assert(read_trace(log0, log0, empty_trace));
        }
        let cur_time = match Timer::read(bar) {
            Ok(v) => v,
            Err(_) => {
                return Err(Error::Timeout);
            },
        };
        let mut prev_time = cur_time;
        let deadline = sat_add(cur_time, timeout_ns);
        let mut num_reads: usize = 0;
        let mut polls: u64 = 0;
        let ghost t0 = cur_time;
        let ghost mut ts: Seq<u64> = seq![cur_time];
        proof {
            assert(ts.drop_last() =~= Seq::<u64>::empty());
            assert(read_trace(log0, log0, ts.drop_last()));
            assert(ts.last() == cur_time);
            assert(read_session(log0, bar.log(), ts.last()));
            assert(read_trace(log0, bar.log(), ts));
        }
        loop
            invariant
                exists|o: Option<R>| call_ensures(cond, (), o) && o is None,
                read_trace(log0, bar.log(), ts),
                ts.len() == polls + 1,
                polls <= MAX_CONDITION_POLLS,
                ts[0] == t0,
                deadline == spec_sat_add(t0, timeout_ns),
                prev_time == ts[ts.len() - 1],
                num_reads < MAX_STALLED_READS,
                ts.len() > num_reads,
                forall|i: int|
                    ts.len() - (num_reads + 1) <= i < ts.len() ==> #[trigger] ts[i] == prev_time,
            decreases MAX_CONDITION_POLLS - polls,
        {
            let probed = cond();
            if let Some(ret) = probed {
                return Ok(ret);
            }
            if polls == MAX_CONDITION_POLLS {
                return Err(Error::Timeout);
            }
            let ghost mid = bar.log();
            let cur = match Timer::read(bar) {
                Ok(v) => v,
                Err(_) => {
                    return Err(Error::Timeout);
                },
            };
            proof {
                lemma_read_trace_extend(log0, mid, bar.log(), ts, cur);
                ts = ts.push(cur);
            }
            polls = polls + 1;
            if cur == prev_time {
                num_reads = num_reads + 1;
                if num_reads >= MAX_STALLED_READS {
                    proof {
                        assert(ends_stalled(ts));
                    }
                    return Err(Error::Timeout);
                }
            } else {
                if cur >= deadline {
                    return Err(Error::Timeout);
                }
                num_reads = 0;
                prev_time = cur;
            }
        }
    }
}

} // verus!
