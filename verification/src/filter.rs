//! The filter capability and the registration/dispatch bridge.
//!
//! A `Filter` is the user-implemented unit the engine drives: lifecycle
//! hooks, per-file admission checks, and a whole-buffer or streaming
//! transform. `RawFilter` owns one filter for its registered lifetime,
//! publishes a fixed-shape descriptor of wired hooks to the engine, and on
//! each hook reconstructs plain typed arguments before delegating. The
//! descriptor leaves the `check` hook unwired: admission is folded into
//! `prefilter`, which sees the raw content as well.

use crate::registry::FilterRegistry;
use crate::source::FilterSource;
use crate::status::{DELAYED_STREAM, OK};
use crate::stream::{Stream, StreamLink, WriteStream};
use vstd::prelude::*;

verus! {

/// A failure a filter reports from its `stream` hook: the engine's error
/// code to answer with, and a message for the engine's last-error slot.
pub struct FilterError {
    /// The status code handed back through the hook's return convention.
    pub code: i32,
    /// The human-readable message for the engine's last-error slot.
    pub message: String,
}

/// The user-implemented filter capability.
///
/// The engine, never user code, invokes these hooks: `init` once before the
/// first real invocation, `shutdown` once at teardown, `sync_begin` and
/// `sync_end` around each checkout or checkin session, and per file the
/// admission checks and one of the two transform strategies, followed by
/// `cleanup` for the invocation's payload.
pub trait Filter {
    /// The transform a successful `stream` hook returns.
    type S: Stream;

    /// The name this filter registers under.
    fn name(&self) -> String;

    /// The descriptor version the filter declares.
    fn version(&self) -> u32;

    /// The attribute-match string for the descriptor, absent when the
    /// filter matches paths on its own.
    fn attributes(&self) -> Option<String>;

    /// How many entries of an engine-supplied attribute list to read.
    fn attrs_count(&self) -> isize;

    /// The scheduling priority; 200 by convention for a driver-class
    /// filter.
    fn priority(&self) -> i32;

    /// One-time setup; a status other than success makes the filter
    /// unusable for the session.
    fn init(&mut self) -> i32;

    /// Release held resources; no further hook follows until the next
    /// `init`.
    fn shutdown(&mut self);

    /// A checkout or checkin session begins. Side effect only: the ABI
    /// gives failure here no native-visible signal.
    fn sync_begin(&mut self);

    /// The session ends.
    fn sync_end(&mut self);

    /// Admission test: decide from the path's attribute values whether
    /// this filter applies. An admission-reject status skips the filter
    /// for this file; success means the transform follows.
    fn check(
        &mut self,
        attrs: Option<&Vec<String>>,
        source: &FilterSource,
        payload: &mut Option<u64>,
    ) -> i32;

    /// Admission test with the raw content in view, for filters that sniff
    /// the bytes before deciding.
    fn prefilter(
        &mut self,
        attrs: Option<&Vec<String>>,
        blob: &Vec<u8>,
        source: &FilterSource,
        payload: &mut Option<u64>,
    ) -> i32;

    /// Whole-buffer transform: read all of `from`, leave the complete
    /// result in `to`.
    fn apply(
        &mut self,
        to: &mut Vec<u8>,
        from: &Vec<u8>,
        source: &FilterSource,
        payload: &mut Option<u64>,
    ) -> i32;

    /// Streaming transform: return the sink the engine will feed chunks
    /// into. `next` is the downstream sink to forward to, absent only for
    /// the innermost stage.
    fn stream(
        &mut self,
        source: &FilterSource,
        next: Option<WriteStream>,
        payload: &mut Option<u64>,
    ) -> Result<Self::S, FilterError>;

    /// Release whatever the invocation's payload refers to, whichever
    /// transform path ran.
    fn cleanup(&mut self, payload: Option<u64>);
}

/// The fixed-shape descriptor the bridge publishes to the engine: the
/// declared version, the attribute-match string, and which hook slots
/// carry a trampoline.
pub struct FilterDescriptor {
    /// The version the filter declares.
    pub version: u32,
    /// The nullable attribute-match string.
    pub attributes: Option<String>,
    /// Whether the init slot is wired.
    pub init: bool,
    /// Whether the shutdown slot is wired.
    pub shutdown: bool,
    /// Whether the sync-begin slot is wired.
    pub sync_begin: bool,
    /// Whether the sync-end slot is wired.
    pub sync_end: bool,
    /// Whether the check slot is wired. The bridge leaves it empty:
    /// admission defers to `prefilter`.
    pub check: bool,
    /// Whether the prefilter slot is wired.
    pub prefilter: bool,
    /// Whether the apply slot is wired.
    pub apply: bool,
    /// Whether the stream slot is wired.
    pub stream: bool,
    /// Whether the cleanup slot is wired.
    pub cleanup: bool,
}

/// What an engine-supplied attribute list reduces to: walk at most `count`
/// entries, stop at the first empty one, and keep the values seen.
pub open spec fn spec_collect_attrs(a: Seq<Option<Seq<char>>>, i: int, count: int) -> Seq<
    Seq<char>,
>
    decreases count - i,
{
    if i < 0 || i >= count || i >= a.len() {
        Seq::<Seq<char>>::empty()
    } else if a[i] is None {
        Seq::<Seq<char>>::empty()
    } else {
        seq![a[i]->0] + spec_collect_attrs(a, i + 1, count)
    }
}

/// The attribute argument a filter's admission hooks receive for a given
/// engine list: absent when the engine supplied no list or the walk kept
/// nothing.
pub open spec fn spec_attrs_arg(attrs: Option<Seq<Option<Seq<char>>>>, count: int) -> Option<
    Seq<Seq<char>>,
> {
    match attrs {
        None => None,
        Some(a) => {
            let kept = spec_collect_attrs(a, 0, count);
            if kept.len() == 0 {
                None
            } else {
                Some(kept)
            }
        },
    }
}

/// Walk an engine-supplied attribute list: read at most `count` entries,
/// stop at the first empty one, never look past it. An empty harvest, like
/// a missing list, becomes `None`.
pub fn collect_attrs(attrs: Option<&Vec<Option<String>>>, count: isize) -> (r: Option<
    Vec<String>,
>)
    ensures
        (match r {
            None => (match attrs {
                None => true,
                Some(a) => spec_attrs_arg(
                    Some(a@.map_values(|s: Option<String>| spec_view_opt(s))),
                    count as int,
                ) is None,
            }),
            Some(v) => {
                &&& attrs matches Some(a)
                &&& v@.len() > 0
                &&& (spec_attrs_arg(
                    Some(a@.map_values(|s: Option<String>| spec_view_opt(s))),
                    count as int,
                ) matches Some(kept) && v@.len() == kept.len() && (forall|j: int|
                    0 <= j < v@.len() ==> v@[j]@ == kept[j]))
            },
        }),
{
    let a = match attrs {
        None => {
            return None;
        },
        Some(a) => a,
    };
    let ghost views = a@.map_values(|s: Option<String>| spec_view_opt(s));
    let mut kept: Vec<String> = Vec::new();
    let mut stopped: bool = false;
    let mut i: usize = 0;
    while !stopped && i < a.len() && count >= 0 && i < count as usize
        invariant
            views == a@.map_values(|s: Option<String>| spec_view_opt(s)),
            i <= a@.len(),
            count >= 0 ==> i <= count as int,
            count < 0 ==> i == 0,
            kept@.len() == i,
            forall|j: int| 0 <= j < i ==> views[j] is Some && kept@[j]@ == views[j]->0,
            !stopped ==> spec_collect_attrs(views, 0, count as int) == kept@.map_values(
                |s: String| s@,
            ) + spec_collect_attrs(views, i as int, count as int),
            stopped ==> spec_collect_attrs(views, 0, count as int) == kept@.map_values(
                |s: String| s@,
            ),
        decreases a@.len() - i + (if stopped {
            0int
        } else {
            1int
        }),
    {
        let ghost pre_kept = kept@;
        match &a[i] {
            None => {
                proof {
                    assert(views[i as int] is None);
                    assert(spec_collect_attrs(views, i as int, count as int)
                        =~= Seq::<Seq<char>>::empty());
                    assert(kept@.map_values(|s: String| s@) + Seq::<Seq<char>>::empty()
                        =~= kept@.map_values(|s: String| s@));
                }
                stopped = true;
            },
            Some(s) => {
                kept.push(s.clone());
                proof {
                    assert(views[i as int] == spec_view_opt(a@[i as int]));
                    assert(views[i as int] is Some);
                    assert(kept@.map_values(|s: String| s@) =~= pre_kept.map_values(
                        |s: String| s@,
                    ).push(views[i as int]->0));
                    assert(spec_collect_attrs(views, i as int, count as int) == seq![
                        views[i as int]->0] + spec_collect_attrs(views, i as int + 1, count as int));
                    assert(pre_kept.map_values(|s: String| s@) + spec_collect_attrs(
                        views,
                        i as int,
                        count as int,
                    ) =~= kept@.map_values(|s: String| s@) + spec_collect_attrs(
                        views,
                        i as int + 1,
                        count as int,
                    ));
                }
                i = i + 1;
            },
        }
    }
    proof {
        if !stopped {
            assert(spec_collect_attrs(views, i as int, count as int) =~= Seq::<Seq<char>>::empty());
            assert(kept@.map_values(|s: String| s@) + Seq::<Seq<char>>::empty() =~= kept@.map_values(
                |s: String| s@,
            ));
        }
        assert(spec_collect_attrs(views, 0, count as int) == kept@.map_values(|s: String| s@));
        assert(forall|j: int|
            0 <= j < kept@.len() ==> kept@.map_values(|s: String| s@)[j] == kept@[j]@);
    }
    if kept.len() == 0 {
        None
    } else {
        Some(kept)
    }
}

/// The view of a nullable engine string.
pub open spec fn spec_view_opt(s: Option<String>) -> Option<Seq<char>> {
    match s {
        Some(s) => Some(s@),
        None => None,
    }
}

/// Build the descriptor the bridge publishes for a filter that declared
/// this version and attribute-match string: the declaration is carried
/// verbatim, every lifecycle and per-invocation slot is wired, and the
/// check slot alone stays empty — admission defers to `prefilter`.
pub fn build_descriptor(version: u32, attributes: Option<String>) -> (r: FilterDescriptor)
    ensures
        r.version == version,
        r.attributes == attributes,
        r.init && r.shutdown && r.sync_begin && r.sync_end,
        !r.check,
        r.prefilter && r.apply && r.stream && r.cleanup,
{
    FilterDescriptor {
        version,
        attributes,
        init: true,
        shutdown: true,
        sync_begin: true,
        sync_end: true,
        check: false,
        prefilter: true,
        apply: true,
        stream: true,
        cleanup: true,
    }
}

/// The bridge that owns a boxed-in filter for its registered lifetime.
///
/// It publishes the fixed-shape descriptor to the engine and, on each hook,
/// reconstructs plain typed arguments before delegating to the filter. The
/// name and priority given at registration are held here so that teardown
/// unregisters exactly what registration published.
pub struct RawFilter<F: Filter> {
    descriptor: FilterDescriptor,
    name: String,
    priority: i32,
    inner: F,
}

impl<F: Filter> RawFilter<F> {
    /// The descriptor this bridge publishes.
    pub closed spec fn spec_descriptor(&self) -> FilterDescriptor {
        self.descriptor
    }

    /// The name given at registration.
    pub closed spec fn spec_name(&self) -> Seq<char> {
        self.name@
    }

    /// The priority given at registration.
    pub closed spec fn spec_priority(&self) -> i32 {
        self.priority
    }

    /// The owned filter.
    pub closed spec fn spec_inner(&self) -> F {
        self.inner
    }

    /// The descriptor as the bridge always publishes it: every lifecycle
    /// and per-invocation slot wired, except `check` — admission defers to
    /// `prefilter`.
    pub open spec fn wf(&self) -> bool {
        &&& self.spec_descriptor().init
        &&& self.spec_descriptor().shutdown
        &&& self.spec_descriptor().sync_begin
        &&& self.spec_descriptor().sync_end
        &&& !self.spec_descriptor().check
        &&& self.spec_descriptor().prefilter
        &&& self.spec_descriptor().apply
        &&& self.spec_descriptor().stream
        &&& self.spec_descriptor().cleanup
    }

    /// Take ownership of a filter and build the descriptor the engine
    /// will see, by handing the filter's declared version and
    /// attribute-match string verbatim to `build_descriptor`; the trait's
    /// getters carry no specification a contract here could repeat, so
    /// the exact shape is stated there, over plain values.
    pub fn new(inner: F) -> (r: Self)
        ensures
            r.wf(),
            r.spec_inner() == inner,
    {
        let name = inner.name();
        let priority = inner.priority();
        let descriptor = build_descriptor(inner.version(), inner.attributes());
        RawFilter { descriptor, name, priority, inner }
    }

    /// The descriptor this bridge publishes.
    pub fn descriptor(&self) -> (r: &FilterDescriptor)
        ensures
            *r == self.spec_descriptor(),
    {
        &self.descriptor
    }

    /// The priority this bridge registers under.
    pub fn priority(&self) -> (r: i32)
        ensures
            r == self.spec_priority(),
    {
        self.priority
    }

    /// The name this bridge registers under.
    pub fn name(&self) -> (r: &String)
        ensures
            r@ == self.spec_name(),
    {
        &self.name
    }

    /// Read access to the owned filter, for the layer that owns the
    /// bridge.
    pub fn inner(&self) -> (r: &F)
        ensures
            *r == self.spec_inner(),
    {
        &self.inner
    }

    /// The engine's init hook: one-time setup of the owned filter.
    pub fn init(&mut self) -> (r: i32)
        ensures
            final(self).wf() == old(self).wf(),
            final(self).spec_name() == old(self).spec_name(),
            final(self).spec_priority() == old(self).spec_priority(),
    {
        self.inner.init()
    }

    /// The engine's shutdown hook.
    pub fn shutdown(&mut self)
        ensures
            final(self).wf() == old(self).wf(),
            final(self).spec_name() == old(self).spec_name(),
            final(self).spec_priority() == old(self).spec_priority(),
    {
        self.inner.shutdown();
    }

    /// The engine's sync-begin hook: a session starts.
    pub fn sync_begin(&mut self)
        ensures
            final(self).wf() == old(self).wf(),
            final(self).spec_name() == old(self).spec_name(),
            final(self).spec_priority() == old(self).spec_priority(),
    {
        self.inner.sync_begin();
    }

    /// The engine's sync-end hook: the session is over.
    pub fn sync_end(&mut self)
        ensures
            final(self).wf() == old(self).wf(),
            final(self).spec_name() == old(self).spec_name(),
            final(self).spec_priority() == old(self).spec_priority(),
    {
        self.inner.sync_end();
    }

    /// The engine's check hook: walk the engine's attribute list as far as
    /// the filter declared, and let the filter decide admission. The
    /// published descriptor leaves this slot unwired; the trampoline
    /// stands for engines that call it anyway.
    pub fn check(
        &mut self,
        payload: &mut Option<u64>,
        source: &FilterSource,
        attrs: Option<&Vec<Option<String>>>,
    ) -> (r: i32)
        ensures
            final(self).wf() == old(self).wf(),
            final(self).spec_name() == old(self).spec_name(),
            final(self).spec_priority() == old(self).spec_priority(),
    {
        let count = self.inner.attrs_count();
        let collected = collect_attrs(attrs, count);
        self.inner.check(collected.as_ref(), source, payload)
    }

    /// The engine's prefilter hook: like check, with the raw content in
    /// view.
    pub fn prefilter(
        &mut self,
        payload: &mut Option<u64>,
        source: &FilterSource,
        blob: &Vec<u8>,
        attrs: Option<&Vec<Option<String>>>,
    ) -> (r: i32)
        ensures
            final(self).wf() == old(self).wf(),
            final(self).spec_name() == old(self).spec_name(),
            final(self).spec_priority() == old(self).spec_priority(),
    {
        let count = self.inner.attrs_count();
        let collected = collect_attrs(attrs, count);
        self.inner.prefilter(collected.as_ref(), blob, source, payload)
    }

    /// The engine's apply hook: the whole-buffer transform.
    pub fn apply(
        &mut self,
        payload: &mut Option<u64>,
        to: &mut Vec<u8>,
        from: &Vec<u8>,
        source: &FilterSource,
    ) -> (r: i32)
        ensures
            final(self).wf() == old(self).wf(),
            final(self).spec_name() == old(self).spec_name(),
            final(self).spec_priority() == old(self).spec_priority(),
    {
        self.inner.apply(to, from, source, payload)
    }

    /// The engine's stream hook. On success the filter's transform is
    /// wrapped into a chain link for the engine to write into, and the
    /// answer is the delayed code exactly when the payload slot was
    /// already set — the registration is provisional and the filter will
    /// supply content later. On failure the filter's message is deposited
    /// in the engine's last-error slot and its code answered.
    pub fn stream(
        &mut self,
        payload: &mut Option<u64>,
        source: &FilterSource,
        next: Option<WriteStream>,
        last_error: &mut Option<String>,
    ) -> (r: (i32, Option<StreamLink<F::S>>))
        ensures
            final(self).wf() == old(self).wf(),
            final(self).spec_name() == old(self).spec_name(),
            final(self).spec_priority() == old(self).spec_priority(),
            r.1 is Some ==> r.0 == spec_stream_status((*final(payload)) is Some),
            r.1 is Some ==> *final(last_error) == *old(last_error),
            r.1 is None ==> (*final(last_error)) is Some,
    {
        match self.inner.stream(source, next, payload) {
            Ok(transform) => {
                let st = stream_status(payload.is_some());
                (st, Some(StreamLink::new(transform)))
            },
            Err(e) => (stream_error_status(e, last_error), None),
        }
    }

    /// The engine's cleanup hook: the filter releases whatever the
    /// invocation's payload refers to.
    pub fn cleanup(&mut self, payload: Option<u64>)
        ensures
            final(self).wf() == old(self).wf(),
            final(self).spec_name() == old(self).spec_name(),
            final(self).spec_priority() == old(self).spec_priority(),
    {
        self.inner.cleanup(payload);
    }

    /// Teardown: unregister exactly the name registration published. No
    /// other registered filter is affected.
    pub fn unregister(self, registry: &mut FilterRegistry)
        requires
            old(registry).wf(),
        ensures
            final(registry).wf(),
            !final(registry).spec_contains(self.spec_name()),
            forall|n: Seq<char>|
                n != self.spec_name() ==> (final(registry).spec_contains(n) <==> old(registry).spec_contains(n)),
            forall|n: Seq<char>|
                n != self.spec_name() && old(registry).spec_contains(n) ==> final(registry).spec_priority_of(n) == old(registry).spec_priority_of(n),
    {
        registry.unregister(&self.name);
    }
}

/// Wrap a filter and register it: the engine's table gains (or replaces)
/// an entry under the filter's declared name with its declared priority,
/// and every other entry is untouched. The bridge that comes back owns the
/// filter until `unregister`.
pub fn create_filter<F: Filter>(registry: &mut FilterRegistry, inner: F) -> (r: RawFilter<F>)
    requires
        old(registry).wf(),
    ensures
        r.wf(),
        r.spec_inner() == inner,
        final(registry).wf(),
        final(registry).spec_contains(r.spec_name()),
        final(registry).spec_priority_of(r.spec_name()) == r.spec_priority(),
        forall|n: Seq<char>|
            n != r.spec_name() ==> (final(registry).spec_contains(n) <==> old(registry).spec_contains(n)),
        forall|n: Seq<char>|
            n != r.spec_name() && old(registry).spec_contains(n) ==> final(registry).spec_priority_of(n) == old(registry).spec_priority_of(n),
{
    let raw = RawFilter::new(inner);
    let name = raw.name.clone();
    registry.register(name, raw.priority);
    raw
}

/// How a stream-hook failure reaches the engine: its message is deposited
/// in the engine's last-error slot and its own status code is answered,
/// verbatim.
pub fn stream_error_status(e: FilterError, last_error: &mut Option<String>) -> (r: i32)
    ensures
        r == e.code,
        *final(last_error) == Some(e.message),
{
    let code = e.code;
    *last_error = Some(e.message);
    code
}

/// The status a successful stream registration answers with: the
/// distinguished delayed code when the payload slot was already set when
/// `stream` returned, plain success otherwise.
pub open spec fn spec_stream_status(payload_set: bool) -> i32 {
    if payload_set {
        DELAYED_STREAM
    } else {
        OK
    }
}

/// Exec twin of `spec_stream_status`: a stream registration with a payload
/// already in place is provisional, and the engine must hear so.
pub fn stream_status(payload_set: bool) -> (r: i32)
    ensures
        r == spec_stream_status(payload_set),
{
    if payload_set {
        DELAYED_STREAM
    } else {
        OK
    }
}

} // verus!
