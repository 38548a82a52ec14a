//! A minimal client-side tracing primitive: spans with timing, hierarchical
//! identity and byte-string annotations, and a tracer that lazily creates
//! and caches one current span per execution context.

pub mod annotations;
pub mod byte_order;
pub mod clock;
pub mod error;
pub mod random;
pub mod text;
pub mod span;
pub mod tracer;
