//! The synthetic network adapter.
pub mod adapter;
pub mod channels;
pub mod control;
pub mod control_queue;
pub mod coordinator;
pub mod error;
pub mod guest_vf;
pub mod negotiate;
pub mod offload;
pub mod oid;
pub mod oid_set;
pub mod outbox;
pub mod packet;
pub mod protocol;
pub mod ring;
pub mod rndis;
pub mod rx;
pub mod saved;
pub mod state;
pub mod stats;
pub mod tx;
pub mod tx_packet;
pub mod tx_slots;
pub mod worker;
