//! A relay between a robot's publish/subscribe middleware and an MQTT broker:
//! the topic registry, the two message codecs and the state machine of the
//! two pumps, each with its contract.

pub mod bridge;
pub mod document;
pub mod inbound;
pub mod node;
pub mod number;
pub mod outbound;
pub mod schema;
pub mod shutdown;
pub mod text;
pub mod topic;
