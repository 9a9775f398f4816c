//! The engine's invocation protocol, one filter at a time.
//!
//! The engine drives a registered filter through a fixed sequence per file:
//! the admission test, then — only if admission succeeded — exactly one of
//! the two transforms, then exactly one cleanup of the invocation's
//! payload. This module runs that sequence over the bridge and returns the
//! trace of hooks it invoked, pinned by contract to the protocol: a
//! rejected invocation never reaches apply or stream, and an admitted one
//! is cleaned up exactly once whichever transform path ran.

use crate::filter::{spec_stream_status, Filter, RawFilter};
use crate::source::FilterSource;
use crate::status::OK;
use crate::stream::WriteStream;
use vstd::prelude::*;

verus! {

/// Trace mark: the admission test (the prefilter hook) ran.
pub const EV_PREFILTER: i32 = 1;

/// Trace mark: the whole-buffer transform ran.
pub const EV_APPLY: i32 = 2;

/// Trace mark: the streaming transform was requested.
pub const EV_STREAM: i32 = 3;

/// Trace mark: the payload cleanup ran.
pub const EV_CLEANUP: i32 = 4;

/// The hooks one invocation reaches, in order: admission first; the chosen
/// transform and the cleanup only when admission succeeded.
pub open spec fn spec_trace(admitted: bool, use_stream: bool) -> Seq<i32> {
    if !admitted {
        seq![EV_PREFILTER]
    } else if use_stream {
        seq![EV_PREFILTER, EV_STREAM, EV_CLEANUP]
    } else {
        seq![EV_PREFILTER, EV_APPLY, EV_CLEANUP]
    }
}

/// How often a mark occurs in a trace.
pub open spec fn spec_count(s: Seq<i32>, v: i32) -> int
    decreases s.len(),
{
    if s.len() == 0 {
        0
    } else {
        spec_count(s.drop_last(), v) + if s.last() == v {
            1int
        } else {
            0int
        }
    }
}

/// What one engine-driven invocation left behind.
pub struct Invocation {
    /// The admission test's answer.
    pub admission: i32,
    /// The invocation's overall status: the admission status when the
    /// filter was skipped, the transform's registration status otherwise.
    pub status: i32,
    /// Whether the stream hook produced a chain link.
    pub streamed: bool,
    /// The whole-buffer result, filled by the apply path.
    pub output: Vec<u8>,
    /// The payload slot as it was handed to cleanup.
    pub payload: Option<u64>,
    /// The hooks that ran, in order.
    pub trace: Vec<i32>,
}

/// Per-session engine state for one registered filter.
pub struct SessionState {
    /// Whether the filter's one-time init has succeeded.
    pub initialized: bool,
}

impl SessionState {
    /// A fresh session: init has not run.
    pub fn new() -> (r: Self)
        ensures
            !r.initialized,
    {
        SessionState { initialized: false }
    }
}

/// Lazy one-time setup: run the filter's init before its first real
/// invocation, once. A session already initialized answers success without
/// another call; a failing init leaves the session uninitialized, so the
/// filter stays unusable.
pub fn ensure_init<F: Filter>(raw: &mut RawFilter<F>, session: &mut SessionState) -> (r: i32)
    ensures
        final(raw).wf() == old(raw).wf(),
        final(raw).spec_name() == old(raw).spec_name(),
        final(raw).spec_priority() == old(raw).spec_priority(),
        final(session).initialized <==> (old(session).initialized || r == OK),
        old(session).initialized ==> r == OK,
{
    if session.initialized {
        return OK;
    }
    let st = raw.init();
    if st == OK {
        session.initialized = true;
    }
    st
}

/// One engine-driven invocation: admission by prefilter (the published
/// descriptor wires no check hook), then — only on success — the chosen
/// transform, then exactly one cleanup of the payload slot.
///
/// On the streaming path the reported status is the registration status:
/// the engine's distinguished delayed code exactly when the filter had set
/// the payload slot, plain success otherwise; the engine feeds the content
/// only in the plain case, since a delayed stream's content arrives later
/// from the filter itself. A stream hook that fails leaves its message in
/// the engine's last-error slot.
pub fn run_invocation<F: Filter>(
    raw: &mut RawFilter<F>,
    source: &FilterSource,
    attrs: Option<&Vec<Option<String>>>,
    data: &Vec<u8>,
    use_stream: bool,
    next: Option<WriteStream>,
    last_error: &mut Option<String>,
) -> (r: Invocation)
    requires
        old(raw).wf(),
    ensures
        final(raw).wf(),
        final(raw).spec_name() == old(raw).spec_name(),
        final(raw).spec_priority() == old(raw).spec_priority(),
        r.trace@ == spec_trace(r.admission == OK, use_stream),
        r.admission != OK ==> r.status == r.admission && !r.streamed && r.payload is None
            && r.output@.len() == 0,
        r.admission == OK && use_stream && r.streamed ==> r.status == spec_stream_status(
            r.payload is Some,
        ),
        r.admission == OK && use_stream && !r.streamed ==> (*final(last_error)) is Some,
        !use_stream ==> !r.streamed,
{
    let mut payload: Option<u64> = None;
    let mut trace: Vec<i32> = Vec::new();

    trace.push(EV_PREFILTER);
    let admission = raw.prefilter(&mut payload, source, data, attrs);
    if admission != OK {
        proof {
            assert(trace@ =~= spec_trace(false, use_stream));
        }
        return Invocation {
            admission,
            status: admission,
            streamed: false,
            output: Vec::new(),
            payload: None,
            trace,
        };
    }

    let mut status: i32 = OK;
    let mut streamed: bool = false;
    let mut output: Vec<u8> = Vec::new();
    if use_stream {
        trace.push(EV_STREAM);
        let (st, link_opt) = raw.stream(&mut payload, source, next, last_error);
        status = st;
        match link_opt {
            Some(mut link) => {
                streamed = true;
                if st == OK {
                    let wst = link.write(data, last_error);
                    if wst == OK {
                        let _ = link.close();
                    }
                }
            },
            None => {},
        }
    } else {
        trace.push(EV_APPLY);
        status = raw.apply(&mut payload, &mut output, data, source);
    }

    trace.push(EV_CLEANUP);
    let payload_at_cleanup = payload;
    raw.cleanup(payload_at_cleanup);
    proof {
        assert(trace@ =~= spec_trace(true, use_stream));
    }
    Invocation { admission, status, streamed, output, payload: payload_at_cleanup, trace }
}

/// An admission-rejected invocation reaches neither transform, and nothing
/// else: its trace is the admission test alone, so apply and stream are
/// never invoked for that path.
pub proof fn lemma_admission_reject_skips_transform(use_stream: bool)
    ensures
        spec_trace(false, use_stream) == seq![EV_PREFILTER],
        !spec_trace(false, use_stream).contains(EV_APPLY),
        !spec_trace(false, use_stream).contains(EV_STREAM),
        !spec_trace(false, use_stream).contains(EV_CLEANUP),
{
    let t = spec_trace(false, use_stream);
    assert(forall|i: int| 0 <= i < t.len() ==> t[i] == EV_PREFILTER);
}

/// An admitted invocation is cleaned up exactly once, whether the apply or
/// the stream path was taken — in particular once per invocation that set
/// a payload — and a rejected one is not cleaned up at all.
pub proof fn lemma_cleanup_once_per_admitted_invocation(use_stream: bool)
    ensures
        spec_count(spec_trace(true, use_stream), EV_CLEANUP) == 1,
        spec_count(spec_trace(false, use_stream), EV_CLEANUP) == 0,
{
    let t = spec_trace(true, use_stream);
    let mid = if use_stream {
        EV_STREAM
    } else {
        EV_APPLY
    };
    assert(t =~= seq![EV_PREFILTER, mid, EV_CLEANUP]);
    assert(mid != EV_CLEANUP);
    let t2 = t.drop_last();
    let t1 = t2.drop_last();
    let t0 = t1.drop_last();
    assert(t.len() == 3 && t.last() == EV_CLEANUP);
    assert(t2.len() == 2 && t2.last() == mid);
    assert(t1.len() == 1 && t1.last() == EV_PREFILTER);
    assert(t0.len() == 0);
    assert(spec_count(t0, EV_CLEANUP) == 0);
    assert(spec_count(t1, EV_CLEANUP) == 0);
    assert(spec_count(t2, EV_CLEANUP) == 0);
    assert(spec_count(t, EV_CLEANUP) == 1);
    let f = spec_trace(false, use_stream);
    let f0 = f.drop_last();
    assert(f.len() == 1 && f.last() == EV_PREFILTER);
    assert(f0.len() == 0);
    assert(spec_count(f0, EV_CLEANUP) == 0);
    assert(spec_count(f, EV_CLEANUP) == 0);
}

} // verus!
