//! Terms of a resolution-style logic language: atoms, numbers, compound
//! applications and depth-indexed logic variables, with structural equality
//! and a canonical text rendering.

pub mod decimal;
pub mod ident;
pub mod lang;
pub mod laws;

pub use ident::{ident_eq, ident_owned, ident_static, ident_str, Ident};
pub use lang::{Atom, Constant, Term, Variable};
