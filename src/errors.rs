use vstd::prelude::*;

verus! {

#[verifier::external_type_specification]
#[verifier::external_body]
pub struct ExIoError(std::io::Error);

#[verifier::external_type_specification]
#[verifier::external_body]
pub struct ExMacAddressError(mac_address::MacAddressError);

/// An IPv4 socket address: four address bytes and a port.
#[derive(Clone, Copy, Debug, PartialEq, Eq)]
pub struct SocketAddress {
    pub ip: [u8; 4],
    pub port: u16,
}

/// Every way in which the daemon can stop, with the context needed to act on it.
#[derive(Debug)]
pub enum DaemonError {
    /// The configuration file could not be read or parsed.
    ConfigParseError { config_path: String, source: String },
    /// The UDP socket could not be bound to `address`.
    SocketBindError { address: SocketAddress, source: std::io::Error },
    /// Receiving a datagram from the bound socket failed.
    SocketReadError { source: std::io::Error },
    /// The interface exists but reports no hardware address.
    NoMacAddress { iface: String },
    /// The operating system could not be asked for the interface's address.
    MacReadError { iface: String, source: mac_address::MacAddressError },
    /// The sleep command could not be spawned or waited for.
    SleepError { command: String, source: std::io::Error },
}

} // verus!
