use vstd::prelude::*;

pub mod text;
pub mod types;
pub mod engine;
pub mod platform;
pub mod ibus;
pub mod ibus_engine;
pub mod ibus_wire;
pub mod compat;
pub mod fcitx5;
pub mod event_loop;
pub mod ipc;
pub mod daemon;
pub mod portal;
pub mod detect;
pub mod diagnostics;
pub mod compositor_matrix;
pub mod mock_compositor;
pub mod stress;
pub mod unicode_torture;
pub mod mock_ibus;
pub mod golden;
pub mod replay;
pub mod integration;
pub mod memory;

verus! {
} // verus!
