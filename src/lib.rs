pub mod address;
pub mod assoc;
pub mod communicator;
pub mod dispatch;
pub mod flight_computer;
pub mod forwarding;
pub mod handler;
pub mod liveness;
pub mod message;
pub mod named;
pub mod program;
pub mod routing;
pub mod text;
