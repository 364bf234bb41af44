//! The unforgeable capability that restricts the privileged layer
//! operations to the orchestration core of this crate.

use vstd::prelude::*;

verus! {

/// The sealing bound behind [`crate::middleware::PublicUncallable`]: only
/// types of this module can carry it, so only this crate can name a type
/// that satisfies a `PublicUncallable` bound.
pub trait PublicUncallableSealed {}

/// The one capability. The type is reachable only inside this crate, so
/// only the orchestration core can name it to instantiate a privileged
/// method's `Uncallable` parameter.
pub struct PublicUncallable {
    _private: (),
}

impl PublicUncallableSealed for PublicUncallable {}

} // verus!
