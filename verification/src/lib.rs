//! Fixed-capacity, allocation-free container and pool primitives.
//!
//! All capacity is handed in by the caller; the pools themselves never
//! allocate behind the caller's back.  A shared stack of nodes is the base of
//! three pool flavours that differ only in their ownership and destruction
//! protocol, and an independent single-producer single-consumer channel
//! moves values through a fixed ring of cells.

pub mod arc_pool;
pub mod box_pool;
pub mod object_pool;
pub mod spsc;
pub mod treiber;
pub mod vec;
