//! The tracer of one execution context: it creates the context's current
//! span on first use and hands out that same span from then on.

use vstd::prelude::*;
use std::time::Duration;
use std::time::Instant;
use std::time::SystemTime;
use std::time::SystemTimeError;
use rand::os::OsRng;
use crate::clock::saturated;
use crate::clock::since_unix_epoch;
use crate::error::SpanError;
use crate::random::draw_u64;
use crate::span::MilliSpan;
use crate::span::SpanView;
use crate::span::ToMillis;
use crate::span::ROOT_SPAN_ID;

verus! {

/// The description of a current span that was created without one.
pub const DEFAULT_DESCRIPTION: &'static str = "foo";

/// Owns the current span of one execution context and the generator from
/// which the ids of its root span are drawn.
pub struct Tracer {
    rng: OsRng,
    current_span: Option<MilliSpan>,
}

impl Tracer {
    /// The cached current span, where there is one.
    pub closed spec fn cached(&self) -> Option<MilliSpan> {
        self.current_span
    }

    /// The generator from which root ids are drawn.
    pub closed spec fn id_source(&self) -> OsRng {
        self.rng
    }

    /// A tracer without a current span, from the attempt to open a random
    /// source.
    pub fn from_source(rng: Result<OsRng, std::io::Error>) -> (r: Result<Tracer, SpanError>)
        ensures
            rng is Err ==> r is Err && r->Err_0 == SpanError::RandomSourceUnavailable,
            rng is Ok ==> r is Ok && r->Ok_0.cached() is None && r->Ok_0.id_source() == rng->Ok_0,
    {
        match rng {
            Ok(rng) => Ok(Tracer { rng, current_span: None }),
            Err(_) => Err(SpanError::RandomSourceUnavailable),
        }
    }

    /// A tracer without a current span. It opens the system's secure
    /// random source.
    pub fn new() -> (r: Result<Tracer, SpanError>)
        ensures
            r matches Ok(t) ==> t.cached() is None,
    {
        Tracer::from_source(OsRng::new())
    }

    fn cached_mut(&mut self) -> (span: &mut MilliSpan)
        requires
            old(self).cached() is Some,
        ensures
            *span == old(self).cached()->Some_0,
            final(self).cached() == Some(*final(span)),
            final(self).id_source() == old(self).id_source(),
    {
        match &mut self.current_span {
            Some(span) => span,
            None => unreached(),
        }
    }

    /// Hands out the current span. Where none is cached yet, `root` takes
    /// that place if it is a span, and is the error returned if it is one.
    /// Where one is cached, `root` is dropped. What the caller does to the
    /// span through the handle is done to the cached span. The current span
    /// of a context is the root of its trace: a span with a parent is not
    /// taken.
    pub fn adopt(&mut self, root: Result<MilliSpan, SpanError>) -> (r: Result<
        &mut MilliSpan,
        SpanError,
    >)
        requires
            root matches Ok(s) ==> s@.parent_span_id == ROOT_SPAN_ID,
        ensures
            final(self).id_source() == old(self).id_source(),
            old(self).cached() is Some ==> r is Ok && *r->Ok_0 == old(self).cached()->Some_0,
            old(self).cached() is None && root is Ok ==> r is Ok && *r->Ok_0 == root->Ok_0,
            old(self).cached() is None && root is Err ==> r is Err && r->Err_0 == root->Err_0,
            r matches Ok(s) ==> final(self).cached() == Some(*final(s)),
            r is Err ==> final(self).cached() is None,
    {
        if self.current_span.is_none() {
            match root {
                Ok(span) => {
                    self.current_span = Some(span);
                },
                Err(e) => {
                    return Err(e);
                },
            }
        }
        Ok(self.cached_mut())
    }

    /// The current span of this context, from what a first call draws and
    /// reads. Where none is cached yet, the root of a new trace is created
    /// with `trace_id` and `span_id` as its ids and cached, unless the wall
    /// clock reads a time before the Unix epoch or no random source could
    /// be opened for it: the errors of `MilliSpan::from_parts`. Where one is
    /// cached, it is handed out and what was drawn and read is dropped.
    pub fn create_span_from(
        &mut self,
        description: &str,
        trace_id: u64,
        span_id: u64,
        started_at: Instant,
        since_epoch: Result<Duration, SystemTimeError>,
        rng: Result<OsRng, std::io::Error>,
    ) -> (r: Result<&mut MilliSpan, SpanError>)
        ensures
            final(self).id_source() == old(self).id_source(),
            old(self).cached() is Some ==> r is Ok && *r->Ok_0 == old(self).cached()->Some_0,
            old(self).cached() is None && since_epoch is Err ==> r is Err && r->Err_0
                == SpanError::ClockBeforeEpoch,
            old(self).cached() is None && since_epoch is Ok && rng is Err ==> r is Err && r->Err_0
                == SpanError::RandomSourceUnavailable,
            old(self).cached() is None && since_epoch is Ok && rng is Ok ==> r is Ok
                && r->Ok_0.id_source() == rng->Ok_0 && r->Ok_0@ == SpanView::fresh(
                description@,
                trace_id,
                ROOT_SPAN_ID,
                span_id,
                saturated(since_epoch->Ok_0.millis()),
                started_at,
            ),
            r matches Ok(s) ==> final(self).cached() == Some(*final(s)),
            r is Err ==> final(self).cached() is None,
    {
        let root = MilliSpan::from_parts(
            description,
            trace_id,
            ROOT_SPAN_ID,
            span_id,
            started_at,
            since_epoch,
            rng,
        );
        self.adopt(root)
    }

    /// The current span of this context. The first call creates it as the
    /// root of a new trace, with two independently drawn ids and the given
    /// description; every later call hands out that same span, whatever
    /// description it is given.
    pub fn create_span(&mut self, description: &str) -> (r: Result<&mut MilliSpan, SpanError>)
        ensures
            old(self).cached() is Some ==> r is Ok && *r->Ok_0 == old(self).cached()->Some_0
                && final(self).id_source() == old(self).id_source(),
            old(self).cached() is None ==> (r matches Ok(s) ==> s@ == SpanView::fresh(
                description@,
                s@.trace_id,
                ROOT_SPAN_ID,
                s@.span_id,
                s@.started_at_millis,
                s@.started_at,
            )),
            r matches Ok(s) ==> final(self).cached() == Some(*final(s)),
            r is Err ==> final(self).cached() is None,
    {
        if self.current_span.is_none() {
            let trace_id: u64 = draw_u64(&mut self.rng);
            let span_id: u64 = draw_u64(&mut self.rng);
            let started_at = Instant::now();
            let wall = SystemTime::now();
            let since_epoch = since_unix_epoch(&wall);
            let rng = OsRng::new();
            self.create_span_from(description, trace_id, span_id, started_at, since_epoch, rng)
        } else {
            Ok(self.cached_mut())
        }
    }
}

/// The current span of the context that `tracer` belongs to, created on
/// first use under the default description.
pub fn current_span(tracer: &mut Tracer) -> (r: Result<&mut MilliSpan, SpanError>)
    ensures
        old(tracer).cached() is Some ==> r is Ok && *r->Ok_0 == old(tracer).cached()->Some_0
            && final(tracer).id_source() == old(tracer).id_source(),
        old(tracer).cached() is None ==> (r matches Ok(s) ==> s@ == SpanView::fresh(
            DEFAULT_DESCRIPTION@,
            s@.trace_id,
            ROOT_SPAN_ID,
            s@.span_id,
            s@.started_at_millis,
            s@.started_at,
        )),
        r matches Ok(s) ==> final(tracer).cached() == Some(*final(s)),
        r is Err ==> final(tracer).cached() is None,
{
    tracer.create_span(DEFAULT_DESCRIPTION)
}

} // verus!
