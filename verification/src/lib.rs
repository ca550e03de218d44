//! A single-station song queue: clients ask for songs, the queue orders
//! them by the moment of the request, plays one at a time and tells every
//! client what happens.
//!
//! The library decides; it does no I/O. Each component takes what has
//! happened and hands back what is to be done next, as a list of effects
//! that the caller carries out in order.
pub mod app_state;
pub mod client_publisher;
pub mod json;
pub mod radio;
pub mod responses;
pub mod song;
pub mod song_queue;
pub mod web_socket;
