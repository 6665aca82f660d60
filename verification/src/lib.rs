//! Core of a command-line front end for evaluating configuration programs
//! written in the Nickel configuration language.
//!
//! The language engine itself is an external collaborator; this crate holds
//! what is worth stating precisely: the error taxonomy with its display,
//! recoverability and suggestion contracts, the JSON result formatter, and
//! the command-routing rules that map an invocation to output text and an
//! exit code.

pub mod error;
pub mod formatter;
pub mod router;
