//! Startup supervisor for a desktop application shell that ships a bundled
//! Node-style server: it locates the packaged server directory and a runtime
//! binary able to execute its entry file, plans the spawn of the server as a
//! child process, and tracks the one live process handle for later shutdown.
//!
//! The library holds the decisions: which paths are probed and in what order,
//! which candidate is chosen, when a start attempt fails and with which error,
//! what command the child process is spawned with, and which process a
//! teardown must signal. The filesystem probes, the process spawn and the
//! kill signal themselves are performed by the embedding program, which feeds
//! their outcomes back into these state machines as plain values.

pub mod bundle;
pub mod paths;
pub mod registry;
pub mod runtime;
pub mod search;
pub mod supervisor;
