//! Code generator for runtime-inspection UI implementations.
//!
//! Given the shape of a data type — its fields, or its enum variants,
//! together with a small set of per-field and per-type annotations — the
//! library synthesizes the body of an `Inspect` implementation: a method
//! that walks the value and renders an editable widget for each part of
//! it through the `imgui` API.  The generator works over plain
//! descriptors ([`args::TypeArgs`]) and produces the implementation as
//! structured code ([`code::InspectImpl`]) which is then printed to Rust
//! source text; a thin adapter outside the library turns a `derive`
//! input into descriptors and parses the printed text back into tokens.

pub mod args;
pub mod code;
pub mod inspect;
pub mod laws;
pub mod parse;
pub mod samples;
pub mod text;
pub mod utils;
