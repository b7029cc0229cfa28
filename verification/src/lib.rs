//! A small library about pull-based lazy sequences and pinning.
//!
//! A lazy sequence hands out values one at a time through a `pull next`
//! operation whose result is a tri-state signal: an item, a request to retry
//! later, or exhaustion. Two producers implement the capability: one that
//! emits a single item and then stays exhausted, and one that emits the same
//! sentinel item forever. A driver drains the first and pulls once from the
//! second. The data model also carries a record that must keep its memory
//! address once pinned, and a freely relocatable wrapper that refers to it.

pub mod driver;
pub mod producers;
pub mod pull;
pub mod record;
