//! A local control protocol between a controller and a media-playback daemon:
//! the messages, their JSON encoding, the dispatcher that answers one command,
//! the rules of the server's session loop and the client's identity handshake.

pub mod json;
pub mod model;
pub mod encode;
pub mod dispatch;
pub mod decode;
pub mod session;
pub mod client;
pub mod laws;
