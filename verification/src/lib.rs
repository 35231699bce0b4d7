//! Semantic analysis core for a component-based templating language.
//!
//! The crate models a parsed template tree (fragments, tags, elements,
//! blocks, attributes and directives), a binding table with lexical
//! scoping, and the analysis passes that classify every declaration,
//! propagate dynamic taint through expressions, classify elements by
//! namespace, and resolve loop and binding-group metadata.

pub mod analyze;
pub mod ast;
pub mod binding;
pub mod collect;
pub mod expression;
pub mod laws;
pub mod namespace;
pub mod reset;
pub mod resolve;
pub mod scope;
pub mod script;
pub mod taint;
pub mod views;
