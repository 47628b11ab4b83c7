pub mod packet;
pub mod channel;
pub mod drone;
pub mod flood;

pub use packet::{
    NodeId, NodeType, NackType, SourceRoutingHeader, Fragment, Ack, Nack, FloodRequest,
    FloodResponse, PacketType, Packet,
};
pub use drone::{RustafarianDrone, DroneCommand, ConfigError, ForwardError, PacketOutcome, MAX_DROP_RATE};
