//! Core logic of a terminal dashboard for smart-home appliances: a wrap-around
//! list selection, the view state shared across screens, the message types of
//! the input-sampling channel, and the run loop's state machine. Terminal and
//! network plumbing live outside the library and hand it plain values.

pub mod appliance;
pub mod device;
pub mod enums;
pub mod error;
pub mod message;
pub mod runloop;
pub mod selection;
pub mod user;
pub mod view;
