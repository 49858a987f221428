//! Frame scheduling and compute-dispatch planning for GPU-resident cellular
//! automata.
//!
//! The library decides; a host carries out. Once per frame the host hands
//! over what it observed (elapsed time, pointer input, which kernels are
//! compiled, whether the output image can be resolved) and receives what to
//! do: which buffers to create or refresh and which kernels to dispatch over
//! how many workgroups.

pub mod binding;
pub mod cellular_automata;
pub mod custom_plugin;
pub mod dispatch;
pub mod game_of_life;
pub mod registry;
pub mod resources;
pub mod sizing;
