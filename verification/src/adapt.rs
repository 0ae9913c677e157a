//! The bookkeeping of the error-driven calibration: finding a parameter by name, and the bounded
//! trace of a parameter's own past values that lets a delayed error be credited at the value that
//! caused it. The calibration's arithmetic on the errors themselves is not here; what is here is
//! every decision it makes that is not arithmetic on a reading.
use vstd::prelude::*;

verus! {

/// How many of a parameter's own past values are kept. A bounded ring in samples, not a log in
/// seconds: the depth only has to cover one step's delay.
pub const TRACE: usize = 64;

/// How many samples a channel needs before its mean span is trusted as a baseline for the
/// sampling-discipline audit.
pub const SUSPECT_WARMUP: usize = 4;

/// The position of the first entry of `names` equal to `name`, or `None` when no entry is. This is
/// the calibration's parameter lookup (an unknown knob means no correction, not a crash) and the
/// plant structure's name membership.
pub fn index_of(names: &Vec<String>, name: &str) -> (r: Option<usize>)
    ensures
        match r {
            Some(i) => {
                &&& i < names@.len()
                &&& names@[i as int]@ == name@
                &&& forall|j: int| 0 <= j < i ==> #[trigger] names@[j]@ != name@
            },
            None => forall|j: int| 0 <= j < names@.len() ==> #[trigger] names@[j]@ != name@,
        },
{
    let key = name.to_owned();
    let mut i: usize = 0;
    while i < names.len()
        invariant
            key@ == name@,
            i <= names@.len(),
            forall|j: int| 0 <= j < i ==> #[trigger] names@[j]@ != name@,
        decreases names@.len() - i,
    {
        if names[i] == key {
            return Some(i);
        }
        i += 1;
    }
    None
}

/// The trace after recording `v`: `v` appended, and the oldest value dropped once the trace would
/// hold more than `TRACE`.
pub open spec fn spec_trace_push<T>(trace: Seq<T>, v: T) -> Seq<T> {
    if trace.len() + 1 > TRACE {
        trace.push(v).drop_first()
    } else {
        trace.push(v)
    }
}

/// Records `v` as the newest entry of a parameter's trace, dropping the oldest once the trace
/// would exceed its depth `TRACE`.
pub fn trace_push<T>(trace: &mut Vec<T>, v: T)
    ensures
        final(trace)@ == spec_trace_push(old(trace)@, v),
        old(trace)@.len() < TRACE ==> final(trace)@ == old(trace)@.push(v),
        old(trace)@.len() >= TRACE ==> final(trace)@ == old(trace)@.subrange(1, old(trace)@.len() as int).push(v),
        old(trace)@.len() <= TRACE ==> final(trace)@.len() <= TRACE,
        final(trace)@.last() == v,
{
    trace.push(v);
    if trace.len() > TRACE {
        trace.remove(0);
    }
}

/// The value a parameter had `back` samples ago: the current value `now` when `back` is zero, and
/// also when the delay reaches past what the trace holds (so a wrong age can only lose a
/// correction, never credit a stale value); otherwise the entry `back` from the end.
pub open spec fn spec_trace_then<T>(trace: Seq<T>, back: usize, now: T) -> T {
    if back == 0 || back > trace.len() {
        now
    } else {
        trace[trace.len() - back]
    }
}

/// The value a parameter had `back` samples ago (`back` counted in the parameter's own sampling
/// interval), read off its trace; `now` stands in for `back == 0` and for any delay past the
/// trace's depth.
pub fn trace_then<T: Copy>(trace: &Vec<T>, back: usize, now: T) -> (r: T)
    ensures
        r == spec_trace_then(trace@, back, now),
        1 <= back <= trace@.len() ==> r == trace@[trace@.len() - back],
        (back == 0 || back > trace@.len()) ==> r == now,
{
    let n = trace.len();
    if back == 0 || back > n {
        now
    } else {
        trace[n - back]
    }
}

/// The trace after recording each of `vs` in turn.
pub open spec fn spec_trace_push_all<T>(trace: Seq<T>, vs: Seq<T>) -> Seq<T>
    decreases vs.len(),
{
    if vs.len() == 0 {
        trace
    } else {
        spec_trace_push(spec_trace_push_all(trace, vs.drop_last()), vs.last())
    }
}

/// One recording: from a trace within `TRACE`, the trace grows by one until it reaches `TRACE`,
/// stays within `TRACE`, and its newest entry is the value recorded.
pub proof fn one_recording_keeps_the_trace_bounded<T>(trace: Seq<T>, v: T)
    requires
        trace.len() <= TRACE,
    ensures
        spec_trace_push(trace, v).len() <= TRACE,
        spec_trace_push(trace, v).len() == if trace.len() < TRACE { (trace.len() + 1) as int } else { TRACE as int },
        spec_trace_push(trace, v).last() == v,
{
}

/// The trace never grows past its depth: from any trace within `TRACE`, any number of recordings
/// leaves exactly `min(len + k, TRACE)` entries, the newest being the last value recorded.
pub proof fn the_trace_is_bounded<T>(trace: Seq<T>, vs: Seq<T>)
    requires
        trace.len() <= TRACE,
    ensures
        spec_trace_push_all(trace, vs).len() == if trace.len() + vs.len() < TRACE {
            (trace.len() + vs.len()) as int
        } else {
            TRACE as int
        },
        vs.len() > 0 ==> spec_trace_push_all(trace, vs).last() == vs.last(),
    decreases vs.len(),
{
    if vs.len() > 0 {
        the_trace_is_bounded(trace, vs.drop_last());
        one_recording_keeps_the_trace_bounded(spec_trace_push_all(trace, vs.drop_last()), vs.last());
    }
}

/// An age inside one sample is the immediate rule: at `back == 0` the value credited is the
/// current one, whatever the trace holds; and a delay past the trace's depth degrades to the
/// current value too, so a wrong age loses a correction rather than crediting a stale value.
pub proof fn an_age_inside_one_sample_is_now<T>(trace: Seq<T>, back: usize, now: T)
    requires
        trace.len() <= TRACE,
    ensures
        spec_trace_then(trace, 0, now) == now,
        back > TRACE ==> spec_trace_then(trace, back, now) == now,
        back > trace.len() ==> spec_trace_then(trace, back, now) == now,
{
}

/// The value recorded by the last push is the one a delay of one sample reaches: the trace's
/// newest entry is the value as of the previous call.
pub proof fn one_sample_back_is_the_last_recorded<T>(trace: Seq<T>, v: T, now: T)
    requires
        trace.len() <= TRACE,
    ensures
        spec_trace_then(spec_trace_push(trace, v), 1, now) == v,
{
    one_recording_keeps_the_trace_bounded(trace, v);
}


/// Recording keeps every kept entry in recording order: below the depth the trace is exactly the
/// old trace with `v` appended; at the depth it is the old trace without its oldest entry, with
/// `v` appended. Read as the newest `min(len + 1, TRACE)` values of the old trace followed by `v`,
/// entry by entry.
pub proof fn recording_appends_in_order<T>(trace: Seq<T>, v: T)
    requires
        trace.len() <= TRACE,
    ensures
        trace.len() < TRACE ==> spec_trace_push(trace, v) =~= trace + seq![v],
        trace.len() == TRACE ==> spec_trace_push(trace, v) =~= trace.subrange(1, TRACE as int) + seq![v],
        forall|i: int| 0 <= i < trace.len() && i < TRACE - 1 ==>
            #[trigger] spec_trace_push(trace, v)[spec_trace_push(trace, v).len() - 2 - i]
                == trace[trace.len() - 1 - i],
{
    let r = spec_trace_push(trace, v);
    if trace.len() < TRACE {
        assert(r =~= trace + seq![v]);
    } else {
        assert(r =~= trace.subrange(1, TRACE as int) + seq![v]);
    }
}

/// From an empty trace, recording the values `vs` one after another leaves exactly the last
/// `min(|vs|, TRACE)` of them, oldest first, in the order they were recorded.
pub proof fn the_trace_is_the_last_values_recorded<T>(vs: Seq<T>)
    ensures
        spec_trace_push_all(Seq::<T>::empty(), vs) =~= vs.subrange(
            if vs.len() > TRACE { vs.len() - TRACE } else { 0 },
            vs.len() as int,
        ),
    decreases vs.len(),
{
    if vs.len() > 0 {
        let prev = vs.drop_last();
        the_trace_is_the_last_values_recorded(prev);
        let a = spec_trace_push_all(Seq::<T>::empty(), prev);
        let start_prev: int = if prev.len() > TRACE { prev.len() - TRACE } else { 0 };
        let start: int = if vs.len() > TRACE { vs.len() - TRACE } else { 0 };
        assert(a =~= vs.subrange(start_prev, prev.len() as int));
        let r = spec_trace_push(a, vs.last());
        assert(r =~= vs.subrange(start, vs.len() as int));
    }
}

/// Every delay within the trace reads the value recorded that many samples ago: for
/// `1 <= back <= len`, the value credited is the trace's entry `back` from the end; for a delay of
/// zero, or one past what the trace holds, it is the current value.
pub proof fn a_delay_reads_the_value_that_many_samples_back<T>(trace: Seq<T>, back: usize, now: T)
    ensures
        1 <= back <= trace.len() ==> spec_trace_then(trace, back, now) == trace[trace.len() - back],
        back == 0 ==> spec_trace_then(trace, back, now) == now,
        back > trace.len() ==> spec_trace_then(trace, back, now) == now,
{
}

/// After recording `vs` from an empty trace, a delay of `back` samples (within the depth and
/// within what was recorded) reads exactly the value recorded `back` calls ago, `vs[|vs| - back]`;
/// a delay past the depth or past what was recorded reads the current value.
pub proof fn a_delayed_credit_lands_on_its_cause<T>(vs: Seq<T>, back: usize, now: T)
    ensures
        1 <= back <= vs.len() && back <= TRACE ==>
            spec_trace_then(spec_trace_push_all(Seq::<T>::empty(), vs), back, now) == vs[vs.len() - back],
        (back > TRACE || back > vs.len()) ==>
            spec_trace_then(spec_trace_push_all(Seq::<T>::empty(), vs), back, now) == now,
{
    the_trace_is_the_last_values_recorded(vs);
}

} // verus!
