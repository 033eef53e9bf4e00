//! Verified core of a small aarch64 unikernel that serves HTTP over virtio-net.
//!
//! The library holds the decisions and computations of the kernel: how text
//! is framed for the PL011 serial line, the boot banner script, which blobs
//! the device tree parser may be given, how the virtio-mmio network device is
//! searched for, the timer arithmetic, and the state machine that drives the
//! single HTTP connection. Hardware access and the
//! network stack itself are performed by the caller, which hands plain values
//! in and carries out the actions that come back.
pub mod bootfx;
pub mod console;
pub mod dtb;
pub mod net;
pub mod platform;
pub mod time;
