//! Spin-lock primitives, modelled as explicit state machines.
//!
//! Two independent components:
//!
//! - [`atomic_exchange`]: a mutex acquired by exchanging a three-valued flag
//!   (`Available` / `Locked` / `Poisoned`), with scoped-guard access to the
//!   protected value and poisoning when a holder fails.
//! - [`ticket_lock`]: a strictly fair lock built from a monotonically
//!   increasing ticket counter and a "now serving" counter.
//!
//! Every waiting path is a busy-wait: no primitive here ever parks the
//! calling thread. That is a deliberate design choice for short critical
//! sections, documented rather than patched.

pub mod atomic_exchange;
pub mod ticket_lock;
