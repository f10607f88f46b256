//! Type-metadata bridge between statically typed host structs and a
//! dynamically typed, reference-counted object runtime.
//!
//! The bridge has four parts: bit-exact type flags mirroring the runtime's
//! native flag bits (`type_flags`), a model of the runtime's type table and
//! its subtype relation (`runtime`), the descriptor and layout capabilities
//! together with the one-shot lazy type cells (`type_object`), and the
//! concrete root descriptors (`types`).

pub mod runtime;
pub mod type_flags;
pub mod type_object;
pub mod types;
