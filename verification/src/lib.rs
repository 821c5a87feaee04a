//! Control-plane logic of a zygote-injection loader: the decisions that the
//! kernel-side tracer, the userspace reactor, the remote-execution engine and
//! the mount scrubber take, stated over plain values and proved with Verus.
//!
//! Nothing here touches a process, a file or the kernel. Where work has to
//! be done on the outside, an engine of this library says what it wants done
//! as a [`protocol::Request`] and is told the outcome as a
//! [`protocol::Reply`]; whoever drives the engine carries the requests out.
//!
//! - [`event`], [`tracer`], [`reactor`], [`bootloop`]: the events of the
//!   tracer, what emits them, and what the daemon does for each.
//! - [`regs`], [`remote`], [`call`], [`strings`], [`maps`]: the register
//!   files, the layout of a remote call, the call itself, reading strings
//!   from the target, and the target's mappings.
//! - [`attach`], [`prepare`], [`screen`], [`load`], [`exports`], [`arm`],
//!   [`inject`]: taking a child into care, the stages of an injection, and
//!   the injection as a whole.
//! - [`symbols`], [`zygote`], [`umount`]: symbols of libraries, the
//!   arguments of the specialization function, and the mount scrubber.
//! - [`filter`], [`compat`], [`kinds`], [`lazy`], [`ext`], [`adb`],
//!   [`args`]: what the programs around the loader decide.

pub mod adb;
pub mod args;
pub mod arm;
pub mod attach;
pub mod bootloop;
pub mod call;
pub mod compat;
pub mod error;
pub mod event;
pub mod exports;
pub mod ext;
pub mod filter;
pub mod inject;
pub mod kinds;
pub mod lazy;
pub mod load;
pub mod maps;
pub mod prepare;
pub mod protocol;
pub mod reactor;
pub mod regs;
pub mod remote;
pub mod screen;
pub mod strings;
pub mod symbols;
pub mod text;
pub mod tracer;
pub mod umount;
pub mod zygote;
