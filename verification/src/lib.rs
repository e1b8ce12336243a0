//! Verified parts of a virtual machine monitor: network adapters, the virtual
//! function behind them, state units, options, and machines for tests.
pub mod gdma;
pub mod gdma_defs;
pub mod guid;
pub mod mana_driver;
pub mod netvsp;
pub mod petri;
pub mod state_unit;
pub mod text;
pub mod underhill;
pub mod user_driver;
pub mod wire;
