//! The capability deriver: for each requested capability it decides, as a
//! pure function of the capability tag, the guard's fallibility, whether a
//! default value was declared, and the inner-type family, exactly one of:
//! delegate to the inner type, go through the guarded constructor, or reject
//! the request as a generation-time error.

use vstd::prelude::*;

use crate::rules::Family;

verus! {

/// A derivable capability a spec can request for its wrapper type.  The
/// emission layer maps each tag to the concrete interface it stands for
/// (equality, ordering, display, hashing, conversions, parsing, default
/// values, collecting from an iterator, serialization).
#[derive(Clone, Copy, PartialEq, Eq, Structural, Debug)]
pub enum Capability {
    /// Render the wrapper for debugging as the inner value renders.
    Debugging,
    /// Duplicate the wrapper.
    Cloning,
    /// Copy the wrapper bit for bit (numeric families only).
    Copying,
    /// Compare wrappers for equality by the inner value.
    Equality,
    /// Order wrappers by the inner value.
    Ordering,
    /// Hash the wrapper as the inner value hashes.
    Hashing,
    /// Display the wrapper as the inner value displays.
    Printing,
    /// Construct directly from an inner value without validation.
    FromInner,
    /// Construct from an inner value through the guard, reporting failures.
    TryFromInner,
    /// Give the inner value back, consuming the wrapper.
    IntoInner,
    /// Borrow the inner value.
    AsRefInner,
    /// Borrow the inner value through the standard borrowing interface.
    BorrowInner,
    /// Construct by parsing a textual form of the inner value.
    ParseText,
    /// Provide the declared default value.
    DefaultValue,
    /// Collect wrapped items from a stream of inner values.
    Collecting,
    /// Write the wrapper out as its inner value.
    Serializing,
    /// Read a wrapper back, running the guard on what was read.
    Deserializing,
}

/// Why a requested capability is rejected at generation time.
#[derive(Clone, Copy, PartialEq, Eq, Structural, Debug)]
pub enum CapRejection {
    /// The capability claims the value needs no validation, but the
    /// validator list is not empty.
    NeedsInfallible,
    /// The capability needs a declared default value, and none was given.
    NeedsDefault,
    /// The capability is not available for the spec's inner-type family.
    NotForFamily,
}

/// The implementation shape emitted for a granted capability.
#[derive(Clone, Copy, PartialEq, Eq, Structural, Debug)]
pub enum CapShape {
    /// Delegate to the inner type's own implementation; sound regardless
    /// of guard state because the wrapper is transparent over the inner
    /// value.
    DelegateInner,
    /// Construct through the guarded constructor, surfacing a validation
    /// failure as the capability's own contract allows.
    ViaConstructor,
    /// Construct through the guarded constructor and fail fast if the
    /// declared default value does not pass validation.
    ViaConstructorFailFast,
}

/// The derivation table: a pure function of the capability tag, whether the
/// guard can fail, whether a default value was declared, and the family.
/// No other state affects the outcome.
pub open spec fn cap_decision(c: Capability, fallible: bool, has_default: bool, f: Family) -> Result<
    CapShape,
    CapRejection,
> {
    match c {
        Capability::Debugging => Result::Ok(CapShape::DelegateInner),
        Capability::Cloning => Result::Ok(CapShape::DelegateInner),
        Capability::Equality => Result::Ok(CapShape::DelegateInner),
        Capability::Ordering => Result::Ok(CapShape::DelegateInner),
        Capability::Hashing => Result::Ok(CapShape::DelegateInner),
        Capability::Printing => Result::Ok(CapShape::DelegateInner),
        Capability::IntoInner => Result::Ok(CapShape::DelegateInner),
        Capability::AsRefInner => Result::Ok(CapShape::DelegateInner),
        Capability::BorrowInner => Result::Ok(CapShape::DelegateInner),
        Capability::Serializing => Result::Ok(CapShape::DelegateInner),
        Capability::Copying => if f matches Family::Numeric(_) {
            Result::Ok(CapShape::DelegateInner)
        } else {
            Result::Err(CapRejection::NotForFamily)
        },
        Capability::FromInner => if fallible {
            Result::Err(CapRejection::NeedsInfallible)
        } else {
            Result::Ok(CapShape::ViaConstructor)
        },
        Capability::TryFromInner => Result::Ok(CapShape::ViaConstructor),
        Capability::ParseText => Result::Ok(CapShape::ViaConstructor),
        Capability::Collecting => Result::Ok(CapShape::ViaConstructor),
        Capability::Deserializing => Result::Ok(CapShape::ViaConstructor),
        Capability::DefaultValue => if !has_default {
            Result::Err(CapRejection::NeedsDefault)
        } else if fallible {
            Result::Ok(CapShape::ViaConstructorFailFast)
        } else {
            Result::Ok(CapShape::ViaConstructor)
        },
    }
}

pub fn decide_capability(c: Capability, fallible: bool, has_default: bool, f: Family) -> (r: Result<
    CapShape,
    CapRejection,
>)
    ensures
        r == cap_decision(c, fallible, has_default, f),
{
    match c {
        Capability::Debugging => Result::Ok(CapShape::DelegateInner),
        Capability::Cloning => Result::Ok(CapShape::DelegateInner),
        Capability::Equality => Result::Ok(CapShape::DelegateInner),
        Capability::Ordering => Result::Ok(CapShape::DelegateInner),
        Capability::Hashing => Result::Ok(CapShape::DelegateInner),
        Capability::Printing => Result::Ok(CapShape::DelegateInner),
        Capability::IntoInner => Result::Ok(CapShape::DelegateInner),
        Capability::AsRefInner => Result::Ok(CapShape::DelegateInner),
        Capability::BorrowInner => Result::Ok(CapShape::DelegateInner),
        Capability::Serializing => Result::Ok(CapShape::DelegateInner),
        Capability::Copying => if matches!(f, Family::Numeric(_)) {
            Result::Ok(CapShape::DelegateInner)
        } else {
            Result::Err(CapRejection::NotForFamily)
        },
        Capability::FromInner => if fallible {
            Result::Err(CapRejection::NeedsInfallible)
        } else {
            Result::Ok(CapShape::ViaConstructor)
        },
        Capability::TryFromInner => Result::Ok(CapShape::ViaConstructor),
        Capability::ParseText => Result::Ok(CapShape::ViaConstructor),
        Capability::Collecting => Result::Ok(CapShape::ViaConstructor),
        Capability::Deserializing => Result::Ok(CapShape::ViaConstructor),
        Capability::DefaultValue => if !has_default {
            Result::Err(CapRejection::NeedsDefault)
        } else if fallible {
            Result::Ok(CapShape::ViaConstructorFailFast)
        } else {
            Result::Ok(CapShape::ViaConstructor)
        },
    }
}

} // verus!
