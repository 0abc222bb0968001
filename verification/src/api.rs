//! What the two surfaces of the service, REST and RPC, do between a request and
//! its answer.

pub mod dispatch;
pub mod grpc;
pub mod rest;
pub mod upkeep;
