//! The session engine of a transport for live audio and video: streams and
//! their frame counters, the turns of the sending and the receiving loop,
//! the events that they publish, and the side channel that carries
//! diagnostic reports in chunks. The engine decides and the caller acts:
//! the network, the clock and the file system stay outside.

pub mod bootstrap;
pub mod control;
pub mod event;
pub mod frame;
pub mod receiver;
pub mod report;
pub mod report_name;
pub mod report_save;
pub mod sender;
pub mod session;
pub mod text;
pub mod wire;
