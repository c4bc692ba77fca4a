//! A bridge between a line-oriented serial device and an MQTT broker.
//!
//! The library holds the decisions and transformations of the bridge: which
//! bus topics are relayed, the rate filter on anemometer readings, the
//! reassembly of serial lines, the JSON rewriting in both directions and the
//! steps of the connection supervisors and relay tasks. The program around it
//! performs the I/O.
pub mod json;
pub mod lines;
pub mod relay;
pub mod supervise;
pub mod timing;
pub mod topic;

pub use timing::has_elapsed_between;
pub use topic::match_topic;
