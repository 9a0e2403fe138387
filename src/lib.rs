//! Command dispatch and event correlation for a Bluetooth Low-Energy central.
//!
//! An operation is packaged into a self-contained command value, moved into a
//! slot table in exchange for an opaque handle, queued on the serial queue of
//! its target (a central manager or a peripheral), and later reconstructed and
//! executed exactly once. Operations that produce a result echo the caller's
//! tag into the event delivered on the target's event sink.

pub mod characteristic;
pub mod command;
pub mod context;
pub mod dispatch;
pub mod cooperative;
pub mod sync;
