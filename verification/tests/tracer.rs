use rand::os::OsRng;
use rstrace::error::SpanError;
use rstrace::span::render;
use rstrace::span::render_at;
use rstrace::span::MilliSpan;
use rstrace::span::Span;
use rstrace::span::ROOT_SPAN_ID;
use rstrace::tracer::current_span;
use rstrace::tracer::Tracer;
use rstrace::tracer::DEFAULT_DESCRIPTION;
use std::io;
use std::time::Duration;
use std::time::Instant;
use std::time::SystemTimeError;
use std::time::UNIX_EPOCH;

fn spin(ms: u64) {
    let from = Instant::now();
    while from.elapsed() < Duration::from_millis(ms) {
        std::hint::spin_loop();
    }
}

#[test]
fn tracer_without_random_source() {
    let r = Tracer::from_source(Err(io::Error::new(io::ErrorKind::NotFound, "none")));
    assert_eq!(r.err(), Some(SpanError::RandomSourceUnavailable));
}

#[test]
fn tracer_from_an_open_source() {
    assert!(Tracer::from_source(OsRng::new()).is_ok());
    assert!(Tracer::new().is_ok());
}

#[test]
fn current_span_is_a_running_root() {
    let mut tracer = Tracer::new().unwrap();
    let span = current_span(&mut tracer).unwrap();
    assert_eq!(span.parent_span_id(), ROOT_SPAN_ID);
    assert_eq!(span.description(), "foo");
    assert_eq!(span.description(), DEFAULT_DESCRIPTION);
    assert!(span.is_running());
    assert!(span.kv_annotations().is_empty());
}

#[test]
fn current_span_is_cached() {
    let mut tracer = Tracer::new().unwrap();
    let (trace_id, span_id, started) = {
        let first = current_span(&mut tracer).unwrap();
        first.add_kv_annotation(Box::new(b"seen".to_vec()), Box::new(b"once".to_vec()));
        first.stop();
        (first.trace_id(), first.span_id(), first.started_at_millis())
    };
    let frozen = {
        let second = current_span(&mut tracer).unwrap();
        assert_eq!(second.trace_id(), trace_id);
        assert_eq!(second.span_id(), span_id);
        assert_eq!(second.started_at_millis(), started);
        assert!(!second.is_running());
        assert_eq!(second.kv_annotations().to_vec(), vec![(b"seen".to_vec(), b"once".to_vec())]);
        second.add_kv_annotation(Box::new(b"again".to_vec()), Box::new(b"twice".to_vec()));
        second.acc_millis()
    };
    let third = current_span(&mut tracer).unwrap();
    assert_eq!(third.span_id(), span_id);
    assert_eq!(third.acc_millis(), frozen);
    assert_eq!(
        third.kv_annotations().to_vec(),
        vec![(b"again".to_vec(), b"twice".to_vec()), (b"seen".to_vec(), b"once".to_vec())]
    );
}

#[test]
fn create_span_honours_the_first_description_only() {
    let mut tracer = Tracer::new().unwrap();
    let span_id = {
        let first = tracer.create_span("main").unwrap();
        assert_eq!(first.description(), "main");
        assert_eq!(first.parent_span_id(), ROOT_SPAN_ID);
        assert!(first.is_running());
        first.span_id()
    };
    let second = tracer.create_span("other").unwrap();
    assert_eq!(second.description(), "main");
    assert_eq!(second.span_id(), span_id);
    let third = current_span(&mut tracer).unwrap();
    assert_eq!(third.description(), "main");
    assert_eq!(third.span_id(), span_id);
}

#[test]
fn root_ids_are_drawn_independently() {
    let mut tracer = Tracer::new().unwrap();
    let span = current_span(&mut tracer).unwrap();
    assert_ne!(span.trace_id(), span.span_id());
}

#[test]
fn another_context_gets_another_trace() {
    let mut here = Tracer::new().unwrap();
    let mut there = Tracer::new().unwrap();
    let a = current_span(&mut here).unwrap().trace_id();
    let b = current_span(&mut there).unwrap().trace_id();
    assert_ne!(a, b);
    assert_eq!(current_span(&mut here).unwrap().trace_id(), a);
    assert_eq!(current_span(&mut there).unwrap().trace_id(), b);
}

#[test]
fn adopt_caches_the_given_span() {
    let mut tracer = Tracer::new().unwrap();
    {
        let span = tracer.adopt(MilliSpan::new("given", 1, ROOT_SPAN_ID, 2)).unwrap();
        assert_eq!(span.description(), "given");
        assert_eq!(span.trace_id(), 1);
        assert_eq!(span.span_id(), 2);
    }
    let again = current_span(&mut tracer).unwrap();
    assert_eq!(again.description(), "given");
    assert_eq!(again.trace_id(), 1);
    assert_eq!(again.span_id(), 2);
}

#[test]
fn adopt_keeps_the_cached_span() {
    let mut tracer = Tracer::new().unwrap();
    tracer.adopt(MilliSpan::new("first", 1, ROOT_SPAN_ID, 2)).unwrap();
    {
        let span = tracer.adopt(MilliSpan::new("second", 3, ROOT_SPAN_ID, 4)).unwrap();
        assert_eq!(span.description(), "first");
        assert_eq!(span.span_id(), 2);
    }
    let span = tracer.adopt(Err(SpanError::ClockBeforeEpoch)).unwrap();
    assert_eq!(span.description(), "first");
    assert_eq!(span.trace_id(), 1);
}

#[test]
fn adopt_hands_the_error_on() {
    let mut tracer = Tracer::new().unwrap();
    assert_eq!(tracer.adopt(Err(SpanError::ClockBeforeEpoch)).err(), Some(SpanError::ClockBeforeEpoch));
    assert_eq!(
        tracer.adopt(Err(SpanError::RandomSourceUnavailable)).err(),
        Some(SpanError::RandomSourceUnavailable)
    );
    let span = tracer.create_span("after").unwrap();
    assert_eq!(span.description(), "after");
}

#[test]
fn stopped_annotated_current_span_as_text() {
    let mut tracer = Tracer::new().unwrap();
    let span = current_span(&mut tracer).unwrap();
    spin(3);
    span.stop();
    let at_stop = span.acc_millis();
    assert!(at_stop >= 3);
    spin(3);
    span.add_kv_annotation(Box::new(b"foo".to_vec()), Box::new(b"bar".to_vec()));
    span.add_kv_annotation(Box::new(b"x".to_vec()), Box::new(b"y".to_vec()));
    let text = render(&*span).unwrap();
    assert!(text.contains("kv_annotations: [foo=bar,x=y]"));
    assert!(text.contains(&format!("acc_millis: {},", at_stop)));
    assert!(text.contains(&format!("parent_span_id: {},", ROOT_SPAN_ID)));
    assert!(text.contains("description: foo,"));
    assert!(text.starts_with(&format!("Span[id: {},", span.span_id())));
    assert_eq!(Some(text), render_at(&*span, at_stop));
    assert_eq!(span.acc_millis(), at_stop);
}

fn before_epoch() -> SystemTimeError {
    UNIX_EPOCH.duration_since(UNIX_EPOCH + Duration::new(1, 0)).unwrap_err()
}

fn no_source() -> io::Error {
    io::Error::new(io::ErrorKind::NotFound, "no random source")
}

#[test]
fn create_span_from_builds_the_root_from_both_draws() {
    let mut tracer = Tracer::new().unwrap();
    {
        let span = tracer
            .create_span_from("main", 41, 42, Instant::now(), Ok(Duration::new(3, 9_000_000)), OsRng::new())
            .unwrap();
        assert_eq!(span.trace_id(), 41);
        assert_eq!(span.span_id(), 42);
        assert_eq!(span.parent_span_id(), ROOT_SPAN_ID);
        assert_eq!(span.description(), "main");
        assert_eq!(span.started_at_millis(), 3009);
        assert!(span.is_running());
        assert!(span.kv_annotations().is_empty());
    }
    let again = current_span(&mut tracer).unwrap();
    assert_eq!(again.trace_id(), 41);
    assert_eq!(again.span_id(), 42);
    assert_eq!(again.description(), "main");
}

#[test]
fn create_span_from_keeps_the_cached_span() {
    let mut tracer = Tracer::new().unwrap();
    tracer
        .create_span_from("first", 1, 2, Instant::now(), Ok(Duration::new(1, 0)), OsRng::new())
        .unwrap()
        .stop();
    let span = tracer
        .create_span_from("second", 3, 4, Instant::now(), Ok(Duration::new(2, 0)), OsRng::new())
        .unwrap();
    assert_eq!(span.description(), "first");
    assert_eq!(span.trace_id(), 1);
    assert_eq!(span.span_id(), 2);
    assert_eq!(span.started_at_millis(), 1000);
    assert!(!span.is_running());
    let span = tracer
        .create_span_from("third", 5, 6, Instant::now(), Err(before_epoch()), Err(no_source()))
        .unwrap();
    assert_eq!(span.description(), "first");
    assert_eq!(span.span_id(), 2);
}

#[test]
fn create_span_from_reports_the_clock_then_the_source() {
    let mut tracer = Tracer::new().unwrap();
    let r = tracer.create_span_from("m", 1, 2, Instant::now(), Err(before_epoch()), OsRng::new());
    assert_eq!(r.err(), Some(SpanError::ClockBeforeEpoch));
    let r = tracer.create_span_from("m", 1, 2, Instant::now(), Ok(Duration::new(1, 0)), Err(no_source()));
    assert_eq!(r.err(), Some(SpanError::RandomSourceUnavailable));
    let r = tracer.create_span_from("m", 1, 2, Instant::now(), Err(before_epoch()), Err(no_source()));
    assert_eq!(r.err(), Some(SpanError::ClockBeforeEpoch));
    let span = tracer
        .create_span_from("late", 7, 8, Instant::now(), Ok(Duration::new(0, 0)), OsRng::new())
        .unwrap();
    assert_eq!(span.description(), "late");
    assert_eq!(span.trace_id(), 7);
    assert_eq!(span.span_id(), 8);
}

#[test]
fn current_span_without_annotations_as_text() {
    let mut tracer = Tracer::new().unwrap();
    let span = current_span(&mut tracer).unwrap();
    span.stop();
    let text = render(&*span).unwrap();
    assert!(text.contains("kv_annotations: []"));
    assert!(text.ends_with("kv_annotations: []]"));
}
