//! Decision logic of a desktop media shell's native backend: the WHEP
//! signalling relay, the stream liveness probe and the self-update pipeline.
//!
//! Nothing here touches the network, the file system or the process table.
//! Every operation is split into the requests it wants sent and the verdicts
//! it draws from what came back, so that the rules can be proved once and
//! driven by any runner.

pub mod decimal;
pub mod liveness;
pub mod progress;
pub mod request;
pub mod status;
pub mod trace;
pub mod update;
pub mod whep;
