//! Scope-based access control for request handlers.
//!
//! The library has two halves. At expansion time it reads the scope list given
//! to the `require_scopes` decorator, finds out whether the handler already
//! takes the authenticated claims, and adds a claims parameter where it does
//! not. At request time it decides whether the scopes granted to a caller meet
//! the handler's requirement, and says why not when they do not.

pub mod expand;
pub mod guard;
pub mod scope_list;
pub mod signature;
