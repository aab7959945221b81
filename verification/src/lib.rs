//! Keeps record types in lockstep with the D-Bus interfaces that they model.
//!
//! An interface description declares signals, methods and properties, and with them the
//! signatures of what goes over the wire. A record type that models a signal's body
//! computes a signature of its own. This library finds the declaration that a record type
//! corresponds to ([`resolve`]), reads the declared signature ([`extract`]), and decides
//! whether the two signatures denote the same shape ([`equivalent`]): a message body is
//! the bare run of its arguments, and the struct that models it wraps the same run in
//! round brackets.
//!
//! [`resolve`]: resolve::resolve
//! [`extract`]: extract::extract

pub mod equivalence;
pub mod extract;
pub mod lookup;
pub mod model;
pub mod resolve;
pub mod text;
pub mod validate;
pub mod wire;
pub mod wrapping;
pub mod xml;

pub use equivalence::equivalent;
pub use lookup::{
    get_method_args_type, get_method_return_type, get_property_type, get_signal_body_type,
    signatures_are_eq,
};
pub use validate::validate;
