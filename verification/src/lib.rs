//! A verified system-validation engine for an agent-local, append-only,
//! hash-linked source chain.
//!
//! Each candidate record (an [`Element`](element::Element): a signed
//! [`Header`](header::Header) with an optional [`Entry`](entry::Entry)) is
//! checked against its caller-supplied predecessor before admission:
//! signature, root/non-root linkage, strict sequence continuity,
//! non-decreasing chain time, and — for records that carry new content —
//! entry-type tag, content-hash commitment and size bound. The first violated
//! invariant is reported as a [`SysValidationError`](error::SysValidationError);
//! the whole pipeline is pure and fail-fast.

pub mod codec;
pub mod config;
pub mod element;
pub mod entry;
pub mod error;
pub mod hash;
pub mod header;
pub mod key;
pub mod keystore;
pub mod laws;
pub mod sys_validate;
pub mod time;
