//! A verified decision core for a safe `rm`-style removal command.
//!
//! The library models the removal decision procedure over plain values:
//! it classifies a target from its filesystem metadata, decides whether a
//! confirmation prompt is required under the active policy, resolves the
//! prompt's answer fail-safely, and reports the per-target outcome.
//! The surrounding program performs the actual filesystem queries, the
//! prompting and the removal calls, and feeds their results in as plain
//! values.

pub mod laws;
pub mod procedure;
pub mod types;
