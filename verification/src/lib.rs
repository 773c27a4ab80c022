//! Init-once cells, type-keyed maps and per-thread cells.

pub mod cell;
pub mod container;
pub mod init;
pub mod kind;
pub mod tls;

pub use cell::InitCell;
pub use container::Container;
pub use init::Init;
pub use tls::{LocalInitCell, LocalValue};
