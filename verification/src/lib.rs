//! Building blocks of a TCP/UDP port relay.
//!
//! The library holds the decisions that a relay makes: how a relay socket is
//! configured, what a relay loop does with each event that it observes (data
//! read, data written, a command received, a channel failure), how the UDP
//! relay keeps track of the links it has opened, and how failures are
//! reported. The sockets themselves are driven by the caller, who hands each
//! outcome back to these state machines.

pub mod address;
pub mod command;
pub mod error;
pub mod relay;

pub use address::SocketAddress;
pub use command::RelayCommand;
pub use error::RelayPortError;
pub use relay::tcp::RelaySocket;
pub use relay::tcp::RelaySocket as RelayTcpSocket;
pub use relay::udp::RelaySocket as RelayUdpSocket;
