//! Core database of a place-and-route toolchain: the netlist graph
//! (cells, nets, ports), the physical-resource handles the architecture
//! backend hands out (bels, wires, pips, groups, decals), the generic
//! delay algebra, four-state property values, timing summaries, and the
//! aggregate context that owns them all.

pub mod arch_api;
pub mod arch_defs;
pub mod arena;
pub mod base_clusterinfo;
pub mod base_context;
pub mod base_types;
pub mod cell;
pub mod context;
pub mod delay;
pub mod djb2;
pub mod frontend;
pub mod id_map;
pub mod id_string;
pub mod net;
pub mod port;
pub mod property;
pub mod region;
pub mod segment;
pub mod timing;

pub use id_string::IdString;
