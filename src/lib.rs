//! Subscription client core for a streamed feed of blockchain transactions:
//! filter construction, a decoder for one program's instructions, per-transaction
//! processing, and the supervision state machine of the receive pipeline.
pub mod config;
pub mod decoder;
pub mod pipeline;
pub mod report;
pub mod transaction;
