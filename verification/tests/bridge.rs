use git_filter_bridge::driver::{
    ensure_init, run_invocation, SessionState, EV_APPLY, EV_CLEANUP, EV_PREFILTER, EV_STREAM,
};
use git_filter_bridge::filter::{
    build_descriptor, collect_attrs, create_filter, stream_error_status, stream_status, Filter,
    FilterError, RawFilter,
};
use git_filter_bridge::registry::FilterRegistry;
use git_filter_bridge::source::{FilterMode, FilterSource};
use git_filter_bridge::status::{DELAYED_STREAM, OK, PASSTHROUGH};
use git_filter_bridge::stream::{
    next_sink_arg, sink_close_result, sink_write_result, Passthrough, Stream, StreamLink,
    WriteStream,
};

fn sample_source() -> FilterSource {
    FilterSource::new(
        Some("/repo/.git".to_string()),
        Some("/repo".to_string()),
        Some("big.bin".to_string()),
        vec![1, 2, 3, 4],
        FilterMode::ToOdb,
        0,
        0o100644,
    )
}

struct FakeFilter {
    name: String,
    priority: i32,
    prefilter_status: i32,
    set_payload_in_prefilter: bool,
    stream_fails: bool,
    init_status: i32,
    init_calls: u32,
    prefilter_calls: u32,
    check_calls: u32,
    apply_calls: u32,
    stream_calls: u32,
    cleanup_calls: u32,
    cleanup_payloads: Vec<Option<u64>>,
    last_attrs: Option<Vec<String>>,
}

impl FakeFilter {
    fn new(name: &str, prefilter_status: i32) -> Self {
        FakeFilter {
            name: name.to_string(),
            priority: 200,
            prefilter_status,
            set_payload_in_prefilter: false,
            stream_fails: false,
            init_status: OK,
            init_calls: 0,
            prefilter_calls: 0,
            check_calls: 0,
            apply_calls: 0,
            stream_calls: 0,
            cleanup_calls: 0,
            cleanup_payloads: Vec::new(),
            last_attrs: None,
        }
    }
}

impl Filter for FakeFilter {
    type S = Passthrough;

    fn name(&self) -> String {
        self.name.clone()
    }

    fn version(&self) -> u32 {
        1
    }

    fn attributes(&self) -> Option<String> {
        Some("filter=fake".to_string())
    }

    fn attrs_count(&self) -> isize {
        3
    }

    fn priority(&self) -> i32 {
        self.priority
    }

    fn init(&mut self) -> i32 {
        self.init_calls += 1;
        self.init_status
    }

    fn shutdown(&mut self) {}

    fn sync_begin(&mut self) {}

    fn sync_end(&mut self) {}

    fn check(
        &mut self,
        _attrs: Option<&Vec<String>>,
        _source: &FilterSource,
        _payload: &mut Option<u64>,
    ) -> i32 {
        self.check_calls += 1;
        OK
    }

    fn prefilter(
        &mut self,
        attrs: Option<&Vec<String>>,
        _blob: &Vec<u8>,
        _source: &FilterSource,
        payload: &mut Option<u64>,
    ) -> i32 {
        self.prefilter_calls += 1;
        self.last_attrs = attrs.cloned();
        if self.set_payload_in_prefilter && self.prefilter_status == OK {
            *payload = Some(7);
        }
        self.prefilter_status
    }

    fn apply(
        &mut self,
        to: &mut Vec<u8>,
        from: &Vec<u8>,
        _source: &FilterSource,
        _payload: &mut Option<u64>,
    ) -> i32 {
        self.apply_calls += 1;
        for b in from.iter() {
            to.push(b.to_ascii_uppercase());
        }
        OK
    }

    fn stream(
        &mut self,
        _source: &FilterSource,
        next: Option<WriteStream>,
        _payload: &mut Option<u64>,
    ) -> Result<Passthrough, FilterError> {
        self.stream_calls += 1;
        if self.stream_fails {
            return Err(FilterError { code: -7, message: "stream setup failed".to_string() });
        }
        let sink = match next {
            Some(s) => s,
            None => WriteStream::new(),
        };
        Ok(Passthrough::new(sink))
    }

    fn cleanup(&mut self, payload: Option<u64>) {
        self.cleanup_calls += 1;
        self.cleanup_payloads.push(payload);
    }
}

#[test]
fn attrs_early_terminate_at_first_null() {
    let list = vec![Some("x".to_string()), None, Some("y".to_string())];
    let r = collect_attrs(Some(&list), 3);
    assert_eq!(r, Some(vec!["x".to_string()]));
}

#[test]
fn attrs_missing_list_is_none() {
    assert_eq!(collect_attrs(None, 3), None);
}

#[test]
fn attrs_leading_null_is_none() {
    let list = vec![None, Some("x".to_string())];
    assert_eq!(collect_attrs(Some(&list), 2), None);
}

#[test]
fn attrs_count_zero_or_negative_is_none() {
    let list = vec![Some("x".to_string())];
    assert_eq!(collect_attrs(Some(&list), 0), None);
    assert_eq!(collect_attrs(Some(&list), -1), None);
}

#[test]
fn attrs_count_bounds_the_walk() {
    let list = vec![Some("a".to_string()), Some("b".to_string()), Some("c".to_string())];
    assert_eq!(collect_attrs(Some(&list), 2), Some(vec!["a".to_string(), "b".to_string()]));
}

#[test]
fn attrs_count_beyond_list_takes_all() {
    let list = vec![Some("a".to_string()), Some("b".to_string())];
    assert_eq!(collect_attrs(Some(&list), 5), Some(vec!["a".to_string(), "b".to_string()]));
}

#[test]
fn chunk_boundaries_carry_no_meaning() {
    let mut first = Passthrough::new(WriteStream::new());
    let _ = first.write(&b"ab".to_vec());
    let _ = first.write(&b"cd".to_vec());
    let out_first = first.into_next();

    let mut second = Passthrough::new(WriteStream::new());
    let _ = second.write(&b"a".to_vec());
    let _ = second.write(&b"bcd".to_vec());
    let out_second = second.into_next();

    assert_eq!(out_first.data(), &b"abcd".to_vec());
    assert_eq!(out_second.data(), &b"abcd".to_vec());
}

#[test]
fn close_before_any_write_closes_next_exactly_once() {
    let mut stage = Passthrough::new(WriteStream::new());
    let st = stage.close();
    assert_eq!(st, OK);
    let sink = stage.into_next();
    assert_eq!(sink.closes(), 1);
    assert!(sink.data().is_empty());
}

#[test]
fn write_stream_records_bytes_and_closes() {
    let mut sink = WriteStream::new();
    let r = sink.write(&b"hi".to_vec());
    assert_eq!(r, Ok(2));
    assert_eq!(sink.data(), &b"hi".to_vec());
    assert_eq!(sink.closes(), 0);
    assert_eq!(sink.close(), OK);
    assert_eq!(sink.closes(), 1);
}

#[test]
fn stream_link_write_answers_zero_on_success() {
    let mut link = StreamLink::new(Passthrough::new(WriteStream::new()));
    let mut last_error: Option<String> = None;
    let w = link.write(&b"hi".to_vec(), &mut last_error);
    assert_eq!(w, OK);
    assert_eq!(last_error, None);
    assert_eq!(link.close(), OK);
    let sink = link.into_inner().into_next();
    assert_eq!(sink.data(), &b"hi".to_vec());
    assert_eq!(sink.closes(), 1);
}

#[test]
fn stream_link_exposes_the_downstream_sink() {
    let mut link = StreamLink::new(Passthrough::new(WriteStream::new()));
    let mut last_error: Option<String> = None;
    assert_eq!(link.write(&b"hi".to_vec(), &mut last_error), OK);
    let pending = link.downstream().expect("a pass-through forwards").take_pending();
    assert_eq!(pending, b"hi".to_vec());
    assert_eq!(link.write(&b"!".to_vec(), &mut last_error), OK);
    let sink = link.downstream().expect("a pass-through forwards");
    assert_eq!(sink.take_pending(), b"!".to_vec());
    assert_eq!(sink.take_pending(), Vec::<u8>::new());
}

#[test]
fn sink_write_decision_follows_the_abi() {
    assert_eq!(sink_write_result(false, 5, 10), Ok(0));
    assert_eq!(sink_write_result(true, 0, 10), Ok(10));
    assert!(sink_write_result(true, -1, 10).is_err());
}

#[test]
fn sink_close_decision_follows_the_abi() {
    assert_eq!(sink_close_result(false, -9), OK);
    assert_eq!(sink_close_result(true, -9), -9);
    assert_eq!(sink_close_result(true, 0), OK);
}

#[test]
fn next_argument_mirrors_the_engine_pointer() {
    assert!(next_sink_arg(false).is_none());
    let sink = next_sink_arg(true).expect("a present next sink is modeled");
    assert!(sink.data().is_empty());
    assert_eq!(sink.closes(), 0);
}

#[test]
fn stream_error_reaches_the_engine_verbatim() {
    let mut last_error: Option<String> = None;
    let code = stream_error_status(
        FilterError { code: -42, message: "no transform".to_string() },
        &mut last_error,
    );
    assert_eq!(code, -42);
    assert_eq!(last_error, Some("no transform".to_string()));
}

#[test]
fn descriptor_carries_the_declared_version_and_attributes() {
    let raw = RawFilter::new(FakeFilter::new("declared", OK));
    let descriptor = raw.descriptor();
    assert_eq!(descriptor.version, 1);
    assert_eq!(descriptor.attributes, Some("filter=fake".to_string()));
    assert!(descriptor.prefilter && descriptor.apply && descriptor.stream && descriptor.cleanup);
    assert!(descriptor.init && descriptor.shutdown && descriptor.sync_begin && descriptor.sync_end);
    assert!(!descriptor.check);

    let built = build_descriptor(3, None);
    assert_eq!(built.version, 3);
    assert_eq!(built.attributes, None);
    assert!(!built.check);
}

#[test]
fn delayed_status_for_preset_payload() {
    assert_eq!(stream_status(true), DELAYED_STREAM);
    assert_eq!(stream_status(false), OK);

    let mut fake = FakeFilter::new("delayed", OK);
    fake.set_payload_in_prefilter = true;
    let mut raw = RawFilter::new(fake);
    let source = sample_source();
    let mut last_error: Option<String> = None;
    let r = run_invocation(
        &mut raw,
        &source,
        None,
        &b"content".to_vec(),
        true,
        Some(WriteStream::new()),
        &mut last_error,
    );
    assert_eq!(r.admission, OK);
    assert!(r.streamed);
    assert_eq!(r.payload, Some(7));
    assert_eq!(r.status, DELAYED_STREAM);
}

#[test]
fn plain_status_for_empty_payload() {
    let mut raw = RawFilter::new(FakeFilter::new("plain", OK));
    let source = sample_source();
    let mut last_error: Option<String> = None;
    let r = run_invocation(
        &mut raw,
        &source,
        None,
        &b"content".to_vec(),
        true,
        Some(WriteStream::new()),
        &mut last_error,
    );
    assert!(r.streamed);
    assert_eq!(r.payload, None);
    assert_eq!(r.status, OK);
}

#[test]
fn admission_reject_prevents_apply_and_stream() {
    for use_stream in [false, true] {
        let mut raw = RawFilter::new(FakeFilter::new("reject", PASSTHROUGH));
        let source = sample_source();
        let mut last_error: Option<String> = None;
        let r = run_invocation(
            &mut raw,
            &source,
            None,
            &b"content".to_vec(),
            use_stream,
            Some(WriteStream::new()),
            &mut last_error,
        );
        assert_eq!(r.admission, PASSTHROUGH);
        assert_eq!(r.status, PASSTHROUGH);
        assert_eq!(r.trace, vec![EV_PREFILTER]);
        let fake = raw.inner();
        assert_eq!(fake.prefilter_calls, 1);
        assert_eq!(fake.apply_calls, 0);
        assert_eq!(fake.stream_calls, 0);
        assert_eq!(fake.cleanup_calls, 0);
    }
}

#[test]
fn cleanup_runs_exactly_once_on_apply_path() {
    let mut fake = FakeFilter::new("cleanup-apply", OK);
    fake.set_payload_in_prefilter = true;
    let mut raw = RawFilter::new(fake);
    let source = sample_source();
    let mut last_error: Option<String> = None;
    let r = run_invocation(
        &mut raw,
        &source,
        None,
        &b"content".to_vec(),
        false,
        None,
        &mut last_error,
    );
    assert_eq!(r.trace, vec![EV_PREFILTER, EV_APPLY, EV_CLEANUP]);
    let fake = raw.inner();
    assert_eq!(fake.cleanup_calls, 1);
    assert_eq!(fake.cleanup_payloads, vec![Some(7)]);
}

#[test]
fn cleanup_runs_exactly_once_on_stream_path() {
    let mut fake = FakeFilter::new("cleanup-stream", OK);
    fake.set_payload_in_prefilter = true;
    let mut raw = RawFilter::new(fake);
    let source = sample_source();
    let mut last_error: Option<String> = None;
    let r = run_invocation(
        &mut raw,
        &source,
        None,
        &b"content".to_vec(),
        true,
        Some(WriteStream::new()),
        &mut last_error,
    );
    assert_eq!(r.trace, vec![EV_PREFILTER, EV_STREAM, EV_CLEANUP]);
    let fake = raw.inner();
    assert_eq!(fake.cleanup_calls, 1);
    assert_eq!(fake.cleanup_payloads, vec![Some(7)]);
}

#[test]
fn apply_path_transforms_whole_buffer() {
    let mut raw = RawFilter::new(FakeFilter::new("upper", OK));
    let source = sample_source();
    let mut last_error: Option<String> = None;
    let r = run_invocation(
        &mut raw,
        &source,
        None,
        &b"abc".to_vec(),
        false,
        None,
        &mut last_error,
    );
    assert_eq!(r.status, OK);
    assert_eq!(r.output, b"ABC".to_vec());
}

#[test]
fn prefilter_receives_collected_attrs() {
    let mut raw = RawFilter::new(FakeFilter::new("attrs", OK));
    let source = sample_source();
    let mut last_error: Option<String> = None;
    let list = vec![Some("x".to_string()), None, Some("y".to_string())];
    let _ = run_invocation(
        &mut raw,
        &source,
        Some(&list),
        &b"abc".to_vec(),
        false,
        None,
        &mut last_error,
    );
    assert_eq!(raw.inner().last_attrs, Some(vec!["x".to_string()]));
}

#[test]
fn stream_failure_sets_last_error() {
    let mut fake = FakeFilter::new("failing", OK);
    fake.stream_fails = true;
    let mut raw = RawFilter::new(fake);
    let source = sample_source();
    let mut last_error: Option<String> = None;
    let r = run_invocation(
        &mut raw,
        &source,
        None,
        &b"content".to_vec(),
        true,
        Some(WriteStream::new()),
        &mut last_error,
    );
    assert_eq!(r.admission, OK);
    assert!(!r.streamed);
    assert_eq!(r.status, -7);
    assert_eq!(last_error, Some("stream setup failed".to_string()));
    assert_eq!(r.trace, vec![EV_PREFILTER, EV_STREAM, EV_CLEANUP]);
    assert_eq!(raw.inner().cleanup_calls, 1);
}

#[test]
fn unregister_removes_exactly_one_name() {
    let mut registry = FilterRegistry::new();
    let raw_a = create_filter(&mut registry, FakeFilter::new("alpha", OK));
    let mut beta = FakeFilter::new("beta", OK);
    beta.priority = 100;
    let raw_b = create_filter(&mut registry, beta);
    assert_eq!(registry.len(), 2);
    assert!(registry.contains(&"alpha".to_string()));
    assert!(registry.contains(&"beta".to_string()));

    raw_a.unregister(&mut registry);
    assert_eq!(registry.len(), 1);
    assert!(!registry.contains(&"alpha".to_string()));
    assert!(registry.contains(&"beta".to_string()));
    assert_eq!(registry.priority_of(&"beta".to_string()), Some(100));

    raw_b.unregister(&mut registry);
    assert_eq!(registry.len(), 0);
}

#[test]
fn reregistration_replaces_the_entry() {
    let mut registry = FilterRegistry::new();
    registry.register("same".to_string(), 200);
    registry.register("same".to_string(), 50);
    assert_eq!(registry.len(), 1);
    assert_eq!(registry.priority_of(&"same".to_string()), Some(50));
}

#[test]
fn descriptor_carries_name_and_priority() {
    let mut registry = FilterRegistry::new();
    let raw = create_filter(&mut registry, FakeFilter::new("driver", OK));
    assert_eq!(raw.name(), &"driver".to_string());
    assert_eq!(raw.priority(), 200);
    assert_eq!(registry.priority_of(&"driver".to_string()), Some(200));
}

#[test]
fn init_runs_once_per_session() {
    let mut raw = RawFilter::new(FakeFilter::new("lazy", OK));
    let mut session = SessionState::new();
    assert_eq!(ensure_init(&mut raw, &mut session), OK);
    assert!(session.initialized);
    assert_eq!(ensure_init(&mut raw, &mut session), OK);
    assert_eq!(raw.inner().init_calls, 1);
}

#[test]
fn failing_init_leaves_session_uninitialized() {
    let mut fake = FakeFilter::new("broken", OK);
    fake.init_status = -3;
    let mut raw = RawFilter::new(fake);
    let mut session = SessionState::new();
    assert_eq!(ensure_init(&mut raw, &mut session), -3);
    assert!(!session.initialized);
    assert_eq!(ensure_init(&mut raw, &mut session), -3);
    assert_eq!(raw.inner().init_calls, 2);
}
