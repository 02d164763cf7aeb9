//! A todo list service: the records, the table that stores them, and the
//! request handlers, each with a machine-checked contract.
//!
//! The handlers never reach the store themselves. A handler answers with a
//! [`handler::Step`]: either the response is ready, or a
//! [`handler::Query`] has to be put to the store, and its
//! [`handler::Outcome`] handed back through [`handler::resume`]. The caller
//! owns the store and runs that loop; [`service::serve`] runs it against
//! the in-memory [`table::Table`], and [`laws`] states what then holds of
//! every request.

pub mod handler;
pub mod ident;
pub mod laws;
pub mod service;
pub mod table;
pub mod text;
pub mod todo;
