//! Generation engine for guarded newtype wrappers.
//!
//! A `NewtypeSpec` describes a wrapper around a primitive inner value (a
//! string, or one of twelve numeric kinds) together with an ordered
//! sanitize-then-validate pipeline, a set of requested derived capabilities,
//! and an optional default value.  The engine turns such a spec into a set of
//! generated artifacts (wrapper definition, pipeline, error taxonomy,
//! capability implementations, optional self-check) or into an ordered list
//! of generation-time diagnostics.  The library also provides the reference
//! semantics of the generated pipeline: executable sanitize and validate
//! functions whose behaviour is pinned down by contracts.

pub mod capability;
pub mod engine;
pub mod pipeline;
pub mod rules;
pub mod text;
