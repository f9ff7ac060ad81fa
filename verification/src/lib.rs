//! A verified model of a minimal one-triangle renderer.
//!
//! The library holds the decision logic of the program: the fixed
//! graphics-object creation sequence with its dependency order, the
//! constant descriptors every creation call is made from, the frame
//! submission plan, and the window message-pump decisions. The
//! platform calls themselves (window system, graphics driver) live in
//! the surrounding application, which hands this library plain values
//! and obeys the plans it returns.

pub mod desc;
pub mod frame;
pub mod init;
pub mod mem;
pub mod steps;
pub mod window;
