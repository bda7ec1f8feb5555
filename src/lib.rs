//! Host-side kernel of a simulated operating-system sandbox: the syscall
//! bridge, the per-process isolate registry, the slice and one-shot result
//! rules, and the virtual network fabric.

pub mod error;
pub mod json;
pub mod bridge;
pub mod isolates;
pub mod quota;
pub mod table;
pub mod net;
pub mod wifi;
pub mod persist;
