//! Spans: timed, annotated, identified units of work.
//!
//! A span starts running when it is created and is stopped once. While it
//! runs its duration is read from the monotonic clock; when it is stopped
//! the duration is frozen. Annotations can be added at any time.

use vstd::prelude::*;
use vstd::string::StringExecFns;
use std::time::Duration;
use std::time::Instant;
use std::time::SystemTime;
use std::time::SystemTimeError;
use rand::os::OsRng;
use crate::annotations::Annotations;
use crate::annotations::Entries;
use crate::annotations::entries_map;
use crate::annotations::entries_view;
use crate::annotations::sorted_by_key;
use crate::clock::duration_secs;
use crate::clock::duration_subsec_nanos;
use crate::clock::lemma_millis_monotonic;
use crate::clock::millis_from_parts;
use crate::clock::saturated;
use crate::clock::since_unix_epoch;
use crate::clock::whole_millis;
use crate::error::SpanError;
use crate::random::draw_u64;
use crate::text::decimal_digits;
use crate::text::decimal_string;
use crate::text::entries_utf8;
use crate::text::pairs_string;
use crate::text::pairs_text;

verus! {

/// The parent id of a span that has no parent.
pub const ROOT_SPAN_ID: u64 = 0x74acb;

/// Durations that can be read in whole milliseconds.
pub trait ToMillis {
    /// The whole milliseconds that the value holds.
    spec fn millis(&self) -> nat;

    /// The whole milliseconds that the value holds, saturating at
    /// `u64::MAX`.
    fn to_millis(&self) -> (ms: u64)
        ensures
            ms == saturated(self.millis()),
    ;
}

impl ToMillis for Duration {
    open spec fn millis(&self) -> nat {
        whole_millis(duration_secs(*self), duration_subsec_nanos(*self))
    }

    fn to_millis(&self) -> (ms: u64) {
        millis_from_parts(self.as_secs(), self.subsec_nanos())
    }
}

/// The mathematical model of a span.
pub struct SpanView {
    pub description: Seq<char>,
    pub trace_id: u64,
    pub span_id: u64,
    pub parent_span_id: u64,
    /// Wall-clock time of creation, in milliseconds since the Unix epoch.
    pub started_at_millis: u64,
    /// Monotonic time of creation, from which the duration is measured.
    pub started_at: Instant,
    pub is_running: bool,
    /// The frozen duration of a stopped span; without meaning while the
    /// span runs.
    pub acc_millis: u64,
    /// The annotations in traversal order.
    pub annotations: Entries,
}

impl SpanView {
    /// A span as it is right after creation: running, without annotations.
    pub open spec fn fresh(
        description: Seq<char>,
        trace_id: u64,
        parent_span_id: u64,
        span_id: u64,
        started_at_millis: u64,
        started_at: Instant,
    ) -> SpanView {
        SpanView {
            description,
            trace_id,
            span_id,
            parent_span_id,
            started_at_millis,
            started_at,
            is_running: true,
            acc_millis: 0,
            annotations: Seq::empty(),
        }
    }

    /// The span after a stop at which the monotonic clock shows
    /// `elapsed_millis` since creation: a running span freezes that
    /// duration, a stopped span stays as it is.
    pub open spec fn stopped_at(self, elapsed_millis: u64) -> SpanView {
        if self.is_running {
            SpanView { is_running: false, acc_millis: elapsed_millis, ..self }
        } else {
            self
        }
    }

    /// The duration of the span when the monotonic clock shows
    /// `elapsed_millis` since creation.
    pub open spec fn acc_millis_at(self, elapsed_millis: u64) -> u64 {
        if self.is_running {
            elapsed_millis
        } else {
            self.acc_millis
        }
    }

    /// The span with its annotations replaced.
    pub open spec fn with_annotations(self, annotations: Entries) -> SpanView {
        SpanView { annotations, ..self }
    }

    /// The one-line text form of the span, with `acc_millis` as its
    /// duration.
    pub open spec fn text(self, acc_millis: u64) -> Seq<char> {
        "Span[id: "@ + decimal_digits(self.span_id as nat) + ", description: "@ + self.description
            + ", parent_span_id: "@ + decimal_digits(self.parent_span_id as nat) + ", trace_id: "@
            + decimal_digits(self.trace_id as nat) + ", acc_millis: "@ + decimal_digits(
            acc_millis as nat,
        ) + ", started_at: "@ + decimal_digits(self.started_at_millis as nat)
            + ", kv_annotations: "@ + pairs_text(self.annotations) + "]]"@
    }
}

/// Stopping twice is stopping once: the second stop changes nothing,
/// whatever the clock shows at either stop, and the duration read
/// afterwards is the same.
pub proof fn lemma_stop_idempotent(span: SpanView, first: u64, second: u64, later: u64)
    ensures
        span.stopped_at(first).stopped_at(second) == span.stopped_at(first),
        span.stopped_at(first).stopped_at(second).acc_millis_at(later) == span.stopped_at(
            first,
        ).acc_millis_at(later),
{
}

/// While a span runs its duration does not decrease: of two readings of
/// the monotonic clock, the later one, which shows at least as much time
/// since creation, gives at least the duration of the earlier one. A
/// reading is given by its seconds and its nanoseconds below one second.
pub proof fn lemma_running_duration_monotonic(
    span: SpanView,
    secs1: u64,
    nanos1: u32,
    secs2: u64,
    nanos2: u32,
)
    requires
        span.is_running,
        nanos1 < 1_000_000_000,
        nanos2 < 1_000_000_000,
        secs1 < secs2 || (secs1 == secs2 && nanos1 <= nanos2),
    ensures
        span.acc_millis_at(saturated(whole_millis(secs1, nanos1))) <= span.acc_millis_at(
            saturated(whole_millis(secs2, nanos2)),
        ),
{
    lemma_millis_monotonic(secs1, nanos1, secs2, nanos2);
}

/// Once a span is stopped its duration is frozen: whatever the clock
/// shows later, the duration read is the one frozen at the stop.
pub proof fn lemma_stopped_duration_frozen(span: SpanView, at_stop: u64, later1: u64, later2: u64)
    ensures
        span.is_running ==> span.stopped_at(at_stop).acc_millis_at(later1) == at_stop,
        span.stopped_at(at_stop).acc_millis_at(later1) == span.stopped_at(at_stop).acc_millis_at(
            later2,
        ),
{
}

/// A timed, annotated, identified unit of work.
pub trait Span: View<V = SpanView> {
    /// Stops the span: a running span freezes the duration that the
    /// monotonic clock shows, a stopped span is left as it is.
    fn stop(&mut self)
        ensures
            final(self)@ == old(self)@.stopped_at(final(self)@.acc_millis),
            !old(self)@.is_running ==> final(self)@ == old(self)@,
    ;

    /// The duration in milliseconds: read from the monotonic clock while
    /// the span runs, the frozen value once it is stopped.
    fn acc_millis(&self) -> (ms: u64)
        ensures
            !self@.is_running ==> ms == self@.acc_millis,
    ;

    fn is_running(&self) -> (running: bool)
        ensures
            running == self@.is_running,
    ;

    /// A new running span in the same trace, with this span as its parent
    /// and a freshly drawn id. This span stays as it is.
    fn child(&mut self, description: &str) -> (r: Result<Self, SpanError>) where Self: Sized
        ensures
            final(self)@ == old(self)@,
            r matches Ok(c) ==> c@ == SpanView::fresh(
                description@,
                old(self)@.trace_id,
                old(self)@.span_id,
                c@.span_id,
                c@.started_at_millis,
                c@.started_at,
            ),
    ;

    /// Stores `value` under `key`, in place of what was stored under that
    /// key before. Running or stopped makes no difference.
    fn add_kv_annotation(&mut self, key: Box<Vec<u8>>, value: Box<Vec<u8>>)
        ensures
            final(self)@ == old(self)@.with_annotations(final(self)@.annotations),
            sorted_by_key(final(self)@.annotations),
            entries_map(final(self)@.annotations) == entries_map(old(self)@.annotations).insert(
                key@,
                value@,
            ),
    ;

    /// The annotations in key order, borrowed from the span.
    fn kv_annotations(&self) -> (r: &[(Vec<u8>, Vec<u8>)])
        ensures
            entries_view(r@) == self@.annotations,
            sorted_by_key(self@.annotations),
    ;

    fn started_at_millis(&self) -> (ms: u64)
        ensures
            ms == self@.started_at_millis,
    ;

    fn trace_id(&self) -> (id: u64)
        ensures
            id == self@.trace_id,
    ;

    fn span_id(&self) -> (id: u64)
        ensures
            id == self@.span_id,
    ;

    fn parent_span_id(&self) -> (id: u64)
        ensures
            id == self@.parent_span_id,
    ;

    fn description(&self) -> (d: String)
        ensures
            d@ == self@.description,
    ;
}

/// A span that measures its duration in milliseconds.
pub struct MilliSpan {
    description: String,
    is_running: bool,
    started_at: Instant,
    annotations: Annotations,
    trace_id: u64,
    acc_millis: u64,
    started_at_millis: u64,
    parent_span_id: u64,
    span_id: u64,
    rng: OsRng,
}

impl View for MilliSpan {
    type V = SpanView;

    closed spec fn view(&self) -> SpanView {
        SpanView {
            description: self.description@,
            trace_id: self.trace_id,
            span_id: self.span_id,
            parent_span_id: self.parent_span_id,
            started_at_millis: self.started_at_millis,
            started_at: self.started_at,
            is_running: self.is_running,
            acc_millis: self.acc_millis,
            annotations: self.annotations@,
        }
    }
}

impl MilliSpan {
    /// The generator from which the ids of this span's children are drawn.
    pub closed spec fn id_source(&self) -> OsRng {
        self.rng
    }

    /// A new running span with the given identity, from what the clocks
    /// read and from the attempt to open a random source. A wall clock
    /// before the Unix epoch and a random source that could not be opened
    /// are errors, the clock first.
    pub fn from_parts(
        description: &str,
        trace_id: u64,
        parent_span_id: u64,
        span_id: u64,
        started_at: Instant,
        since_epoch: Result<Duration, SystemTimeError>,
        rng: Result<OsRng, std::io::Error>,
    ) -> (r: Result<MilliSpan, SpanError>)
        ensures
            since_epoch is Err ==> r is Err && r->Err_0 == SpanError::ClockBeforeEpoch,
            since_epoch is Ok && rng is Err ==> r is Err && r->Err_0
                == SpanError::RandomSourceUnavailable,
            since_epoch is Ok && rng is Ok ==> r is Ok && r->Ok_0.id_source() == rng->Ok_0
                && r->Ok_0@ == SpanView::fresh(
                description@,
                trace_id,
                parent_span_id,
                span_id,
                saturated(since_epoch->Ok_0.millis()),
                started_at,
            ),
    {
        let started_at_millis: u64 = match since_epoch {
            Ok(d) => d.to_millis(),
            Err(_) => {
                return Err(SpanError::ClockBeforeEpoch);
            },
        };
        let rng = match rng {
            Ok(g) => g,
            Err(_) => {
                return Err(SpanError::RandomSourceUnavailable);
            },
        };
        Ok(
            MilliSpan {
                description: description.to_owned(),
                is_running: true,
                started_at,
                annotations: Annotations::new(),
                trace_id,
                acc_millis: 0,
                started_at_millis,
                parent_span_id,
                span_id,
                rng,
            },
        )
    }

    /// A new running span with the given identity. It reads both clocks
    /// and opens a random source of its own for the ids of its children.
    pub fn new(description: &str, trace_id: u64, parent_span_id: u64, span_id: u64) -> (r: Result<
        MilliSpan,
        SpanError,
    >)
        ensures
            r matches Ok(s) ==> s@ == SpanView::fresh(
                description@,
                trace_id,
                parent_span_id,
                span_id,
                s@.started_at_millis,
                s@.started_at,
            ),
    {
        let started_at = Instant::now();
        let wall = SystemTime::now();
        let since_epoch = since_unix_epoch(&wall);
        let rng = OsRng::new();
        MilliSpan::from_parts(
            description,
            trace_id,
            parent_span_id,
            span_id,
            started_at,
            since_epoch,
            rng,
        )
    }

    /// A new running span in the same trace, with this span as its parent
    /// and `span_id` as its id, from what the clocks read and from the
    /// attempt to open a random source for the child. The errors are those
    /// of `from_parts`.
    pub fn child_from(
        &self,
        description: &str,
        span_id: u64,
        started_at: Instant,
        since_epoch: Result<Duration, SystemTimeError>,
        rng: Result<OsRng, std::io::Error>,
    ) -> (r: Result<MilliSpan, SpanError>)
        ensures
            since_epoch is Err ==> r is Err && r->Err_0 == SpanError::ClockBeforeEpoch,
            since_epoch is Ok && rng is Err ==> r is Err && r->Err_0
                == SpanError::RandomSourceUnavailable,
            since_epoch is Ok && rng is Ok ==> r is Ok && r->Ok_0.id_source() == rng->Ok_0
                && r->Ok_0@ == SpanView::fresh(
                description@,
                self@.trace_id,
                self@.span_id,
                span_id,
                saturated(since_epoch->Ok_0.millis()),
                started_at,
            ),
    {
        MilliSpan::from_parts(
            description,
            self.trace_id,
            self.span_id,
            span_id,
            started_at,
            since_epoch,
            rng,
        )
    }

    /// Stops the span at a moment when `elapsed` has passed since its
    /// creation.
    pub fn stop_after(&mut self, elapsed: &Duration)
        ensures
            final(self)@ == old(self)@.stopped_at(saturated(elapsed.millis())),
            final(self).id_source() == old(self).id_source(),
    {
        if self.is_running {
            self.acc_millis = elapsed.to_millis();
            self.is_running = false;
        }
    }

    /// The duration of the span at a moment when `elapsed` has passed
    /// since its creation.
    pub fn acc_millis_after(&self, elapsed: &Duration) -> (ms: u64)
        ensures
            ms == self@.acc_millis_at(saturated(elapsed.millis())),
    {
        if self.is_running {
            elapsed.to_millis()
        } else {
            self.acc_millis
        }
    }
}

impl Span for MilliSpan {
    fn stop(&mut self) {
        if self.is_running {
            let elapsed = self.started_at.elapsed();
            self.stop_after(&elapsed);
        }
    }

    fn acc_millis(&self) -> (ms: u64) {
        if self.is_running {
            let elapsed = self.started_at.elapsed();
            self.acc_millis_after(&elapsed)
        } else {
            self.acc_millis
        }
    }

    fn is_running(&self) -> (running: bool) {
        self.is_running
    }

    fn child(&mut self, description: &str) -> (r: Result<Self, SpanError>) {
        let span_id: u64 = draw_u64(&mut self.rng);
        let started_at = Instant::now();
        let wall = SystemTime::now();
        let since_epoch = since_unix_epoch(&wall);
        let rng = OsRng::new();
        self.child_from(description, span_id, started_at, since_epoch, rng)
    }

    fn add_kv_annotation(&mut self, key: Box<Vec<u8>>, value: Box<Vec<u8>>) {
        self.annotations.insert(*key, *value);
    }

    fn kv_annotations(&self) -> (r: &[(Vec<u8>, Vec<u8>)]) {
        self.annotations.entries()
    }

    fn started_at_millis(&self) -> (ms: u64) {
        self.started_at_millis
    }

    fn trace_id(&self) -> (id: u64) {
        self.trace_id
    }

    fn span_id(&self) -> (id: u64) {
        self.span_id
    }

    fn parent_span_id(&self) -> (id: u64) {
        self.parent_span_id
    }

    fn description(&self) -> (d: String) {
        self.description.clone()
    }
}

/// The one-line text form of a span, with `acc_millis` as its duration.
/// There is none where an annotation is not valid UTF-8.
pub fn render_at<S: Span>(span: &S, acc_millis: u64) -> (r: Option<String>)
    ensures
        r is Some <==> entries_utf8(span@.annotations),
        r matches Some(s) ==> s@ == span@.text(acc_millis),
{
    let pairs = match pairs_string(span.kv_annotations()) {
        Some(pairs) => pairs,
        None => {
            return None;
        },
    };
    let mut out = String::from_str("Span[id: ");
    out.append(decimal_string(span.span_id()).as_str());
    out.append(", description: ");
    out.append(span.description().as_str());
    out.append(", parent_span_id: ");
    out.append(decimal_string(span.parent_span_id()).as_str());
    out.append(", trace_id: ");
    out.append(decimal_string(span.trace_id()).as_str());
    out.append(", acc_millis: ");
    out.append(decimal_string(acc_millis).as_str());
    out.append(", started_at: ");
    out.append(decimal_string(span.started_at_millis()).as_str());
    out.append(", kv_annotations: ");
    out.append(pairs.as_str());
    out.append("]]");
    Some(out)
}

/// The one-line text form of a span with its duration as of now: the
/// frozen duration of a stopped span, a reading of the monotonic clock for
/// a running one. There is none where an annotation is not valid UTF-8.
pub fn render<S: Span>(span: &S) -> (r: Option<String>)
    ensures
        r is Some <==> entries_utf8(span@.annotations),
        r matches Some(s) ==> exists|elapsed: u64|
            s@ == span@.text(#[trigger] span@.acc_millis_at(elapsed)),
{
    let acc_millis: u64 = span.acc_millis();
    assert(acc_millis == span@.acc_millis_at(acc_millis));
    render_at(span, acc_millis)
}

} // verus!
