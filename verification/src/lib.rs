//! Rewrites variable declarations that name an asset into import declarations.
//!
//! A bundler resolves `import wasm from "./lib.wasm"` at build time, but sees
//! only a string in `let wasm = "./lib.wasm"`. This library turns the second
//! into the first, in every statement list of a module, and leaves everything
//! else where and as it was.
//!
//! - [`ast`]: the trees it works on, and their mathematical counterparts.
//! - [`path`]: which strings count as the path of an asset.
//! - [`decision`]: whether one declaration is replaced, and by what.
//! - [`rewrite`]: what the rewrite of a tree is.
//! - [`visitor`]: the rewrite as executable code.
//! - [`laws`]: what holds of the rewrite, with proofs.

pub mod ast;
pub mod decision;
pub mod laws;
pub mod path;
pub mod rewrite;
pub mod visitor;

pub use decision::transform_variable_to_import;
pub use visitor::{process_transform, TransformVisitor};
