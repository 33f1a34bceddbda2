//! Hardware bring-up layer of a minimal protected-mode kernel.
//!
//! The layer takes a freshly booted CPU from "no interrupts, no paging,
//! unknown memory" to "interrupts routed through a remapped controller, a
//! periodic timer ticking, physical memory enumerated, and an identity
//! mapping active".  Every hardware structure is modelled explicitly: packed
//! descriptors as bit-level codecs, controller handshakes as sequences of
//! port writes, and the fixed physical addresses as a single layout table.
//! The thin machine-facing shell (port output instructions, raw stores at
//! the fixed addresses, the table-load and control-register instructions)
//! lives outside this crate and consumes the values built here.

pub mod cpu;
pub mod idt;
pub mod kvec;
pub mod layout;
pub mod memmap;
pub mod paging;
pub mod pic;
pub mod pit;
pub mod startup;
