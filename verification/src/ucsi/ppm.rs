//! Argument types of the commands sent to the platform policy manager.

pub mod ack_cc_ci;
pub mod set_notification_enable;
