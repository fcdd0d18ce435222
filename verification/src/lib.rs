//! Calldata stress-test core: packing planner, bundle assembly, landing-loop
//! state machine, and mempool fan-out bookkeeping for a block-capacity
//! load-generation client. Network transport, signing and logging are left to
//! the surrounding binary; everything here is plain data and verified logic.

pub mod bundle;
pub mod errors;
pub mod landing;
pub mod mempool;
pub mod payload;
pub mod planner;
pub mod rpc;
