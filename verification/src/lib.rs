//! A verified core for a WASM smart-contract development toolkit.
//!
//! The heart of the library is a pair of build-time code generators: one
//! turns an abstract interface declaration (a named group of typed method
//! signatures) into a namespace of call-forwarding functions that follow a
//! fixed foreign calling convention, and one wraps a contract entry-point
//! function into an exported function with a uniform status-return
//! convention. Around that core stand small verified helpers for the rest
//! of the toolkit: deployment-transaction assembly, text/binary module
//! conversion, artifact path derivation, and project scaffolding templates.

pub mod abi;
pub mod ast;
pub mod generator;
pub mod codec;
pub mod convert;
pub mod diagnostics;
pub mod laws;
pub mod paths;
pub mod scaffold;
pub mod transaction;
