//! Control and data plane of a reverse TCP tunnel: the command-frame codec,
//! the session registry, the ingress sniffer and the supernode/edge decisions.

pub mod common;
pub mod edge;
pub mod http;
pub mod ingress;
pub mod meta;
pub mod packet;
pub mod relay;
pub mod session;
pub mod sniff;
pub mod supernode;
pub mod text;
