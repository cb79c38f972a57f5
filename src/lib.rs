//! Real-time state tracking for a validator network's telemetry service:
//! a bounded history of finalized blocks and of who voted for them, and the
//! decisions of the pipeline that feeds it.

pub mod bits;
pub mod voters;
pub mod block;
pub mod history;
pub mod data_state;
pub mod pipeline;
