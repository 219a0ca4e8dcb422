// A client-side registry of tool/resource/prompt protocol servers.
//
// The registry owns every server connection (`registry`), decides how each server is
// reached and walks it through the handshake and the capability-gated listings
// (`transport`, `session`), shapes invocation arguments (`json`), brings what servers send
// into the library's own types (`convert`), and keeps a bounded log per server (`logs`).
// The outside work itself (spawning processes, network round trips, awaiting) is done by
// the caller, which hands the results back as plain values.
pub mod batch;
pub mod convert;
pub mod json;
pub mod logs;
pub mod registry;
pub mod session;
pub mod transport;
pub mod types;
