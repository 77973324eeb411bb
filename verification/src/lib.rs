//! A verified command-dispatch layer for a record-management desktop shell.
//!
//! The library models a fixed catalogue of operations (authentication,
//! record and staff management, audit retrieval, database backup and
//! import), each of which is carried out by an external script.  For every
//! operation it plans the invocation — the script file name and the exact
//! positional argument vector — and decodes the finished process's exit
//! status and output streams into a success payload or a classified
//! failure.  The process launch itself is left to the surrounding
//! application; everything this crate computes is specified and proved.

pub mod bridge;
pub mod numeral;
pub mod op;
pub mod request;
pub mod text;
