//! Compile-time memoization for data-bearing record types.
//!
//! Two independent transformation passes over abstract declarations add
//! transparent caching of computed properties:
//!
//! * [`augment::cached_property_struct`] synthesizes a storage record holding
//!   one optional slot per declared property and appends one field of that
//!   storage type to the annotated record.
//! * [`split::cached_property`] splits an annotated method into three
//!   variants: the renamed original computation, a mutating prefetch variant
//!   that computes and caches, and a cached-read variant that returns a
//!   cached value or recomputes without storing.
//!
//! The passes share no state; they are coupled only by the naming
//! conventions in [`names`]. The runtime behaviour of the generated method
//! bodies is modelled and proved in [`cache`].

pub mod augment;
pub mod cache;
pub mod model;
pub mod names;
pub mod split;
