//! Keeps a single DNS "A" record at a remote provider in sync with the
//! machine's current public IPv4 address.
//!
//! The crate holds the decision logic of one synchronization run: the
//! provider's response envelopes and their interpretation (`api`), the
//! whitespace trimming applied to the IP-echo response (`text`), and the
//! sequential update workflow as an explicit state machine (`orchestrate`).
//! All network and file I/O is left to the embedding program, which performs
//! the actions the state machine asks for and feeds the outcomes back in.

pub mod api;
pub mod orchestrate;
pub mod text;
