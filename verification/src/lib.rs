//! Memory substrate for a garbage-collected runtime: virtual-memory
//! allocation primitives behind a platform-independent interface, owned
//! memory chunks grouped into mega-blocks, and a self-describing object
//! layout that lets a collector walk every object in a block from two
//! layout counts per object.

pub mod allocate;
pub mod block;
pub mod common;
pub mod object;
pub mod primitives;
