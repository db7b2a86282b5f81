//! Request/response correlation layer for the kernel's IPsec (XFRM)
//! configuration protocol.
//!
//! A caller builds a typed request draft through fluent configuration calls,
//! finalizes it into exactly one outbound frame, submits the frame through a
//! transport handle, and interprets the resulting reply frames into a typed
//! payload, unit success, or a typed error.  The reply shapes are:
//! an acknowledgement stream (zero or more `Ack` frames, any kernel error
//! aborts), a single mandatory payload frame, or an open-ended dump of
//! payload frames.
//!
//! Wire-level encoding of frames into bytes and the socket transport are
//! external collaborators; this crate models frames as typed values.

pub mod addr;
pub mod errors;
pub mod extract;
pub mod message;
pub mod policy;
pub mod reply;
pub mod state;
pub mod transport;
pub mod types;
