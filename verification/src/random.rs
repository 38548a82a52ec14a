//! The operating system's secure random generator, from which span and
//! trace identifiers are drawn.

use vstd::prelude::*;
use rand::os::OsRng;
use rand::Rng;

verus! {

/// `rand::os::OsRng`, carried through and never looked into.
#[verifier::external_type_specification]
#[verifier::external_body]
pub struct ExOsRng(OsRng);

/// `std::io::Error`, the error of a random source that cannot be opened.
#[verifier::external_type_specification]
#[verifier::external_body]
pub struct ExIoError(std::io::Error);

/// `OsRng::new` opens the system's random source. Nothing is claimed of the
/// outcome: it is an error where the source cannot be opened.
pub assume_specification[ OsRng::new ]() -> (r: Result<OsRng, std::io::Error>)
;

/// Draws 64 random bits with `Rng::next_u64`. Nothing is claimed of the
/// value: every `u64` may come back, and two draws may be equal. The
/// generator panics where the system source fails while in use, which no
/// precondition can rule out.
#[verifier::external_body]
pub(crate) fn draw_u64(rng: &mut OsRng) -> (id: u64) {
    rng.next_u64()
}

} // verus!
