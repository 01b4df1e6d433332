//! Point-to-point throughput measurement over a raw byte stream: the wire
//! handshake, the decisions of the data pumps, and the sliding-window rate
//! estimates that the live report shows.

pub mod connection;
pub mod mode;
pub mod protocol;
pub mod pump;
pub mod rate;
pub mod report;
pub mod sample;
pub mod window;
