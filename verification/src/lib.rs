//! Driver core for a shared CAN field bus: a frame codec for three motor
//! controller families, and the transport/dispatch kernel that fans frames
//! out to per-message-type listeners over bounded queues.

pub mod bytes;
pub mod connection;
pub mod enums;
pub mod messages;
pub mod myactuator_v3_msgs;
pub mod myactuator_x424_msgs;
pub mod odrive_msgs;
