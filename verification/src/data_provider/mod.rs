//! The watched resources, their store and their subscribers.

pub mod persist;
pub mod subscription;
pub mod wiki;
