//! Runtime support for a bare-metal RISC-V simulation testbench.
//!
//! The testbench observes the program through two memory-mapped 32-bit
//! registers: a to-host register that receives output bytes (one byte per
//! 32-bit store) and a halt register that receives the value `1` when the
//! program is done. This crate models those registers as word logs, so that
//! every observable store is pinned down exactly: the output channel, the
//! template formatter behind the print helpers, and the panic/halt control
//! flow are all verified against that model. The hardware edge itself (the
//! volatile stores) is performed by the surrounding program from the logs.

pub mod channel;
pub mod fmt;
