use vstd::prelude::*;

use crate::errors::{DaemonError, SocketAddress};
use crate::packet::{
    expected_byte, is_magic, magic_packet, reversed, HardwareAddress, ADDRESS_LEN, HEADER_LEN,
    PACKET_LEN, SYNC_BYTE,
};

verus! {

/// The daemon's settings: which interface to watch, which UDP port to listen
/// on and which shell command puts the host to sleep.
pub struct Server {
    pub interface: String,
    pub port: u16,
    pub sleep_cmd: String,
}

/// Where the listener loop stands between two events.
#[derive(Clone, Copy, Debug)]
pub enum Phase {
    /// The socket is being bound.
    Binding,
    /// Waiting for the next datagram; `mac` is the address resolved at start.
    Listening { mac: HardwareAddress },
    /// The sleep command is running.
    Sleeping { mac: HardwareAddress },
    /// A fatal error was reported; nothing follows.
    Failed,
}

/// What the outside world reports back after an action was carried out.
#[derive(Debug)]
pub enum Event {
    /// The socket was bound.
    Bound,
    /// Binding the socket failed.
    BindFailed { source: std::io::Error },
    /// A datagram arrived; `data` holds exactly the bytes that were read.
    Received { data: Vec<u8> },
    /// Receiving a datagram failed.
    ReadFailed { source: std::io::Error },
    /// The sleep command ran to its end.
    SleepFinished,
    /// The sleep command could not be spawned or waited for.
    SleepFailed { source: std::io::Error },
}

/// What the listener loop asks to be done next.
#[derive(Debug)]
pub enum Action {
    /// Bind a UDP socket to `address`.
    Bind { address: SocketAddress },
    /// Block until the next datagram arrives.
    Receive,
    /// Record the rejected datagram for diagnosis, then receive the next one.
    Discard { data: Vec<u8> },
    /// Run `command` through the system shell and wait for it.
    Sleep { command: String },
    /// Stop the daemon with `error`.
    Stop { error: DaemonError },
}

/// Whether `event` is an outcome of the action that was asked for in `phase`.
pub open spec fn accepts(phase: Phase, event: Event) -> bool {
    match phase {
        Phase::Binding => event is Bound || event is BindFailed,
        Phase::Listening { .. } => event is Received || event is ReadFailed,
        Phase::Sleeping { .. } => event is SleepFinished || event is SleepFailed,
        Phase::Failed => false,
    }
}

impl Phase {
    /// Tells whether `event` may be handed to the loop in this phase.
    pub fn accepts(&self, event: &Event) -> (r: bool)
        ensures
            r == accepts(*self, *event),
    {
        match self {
            Phase::Binding => matches!(event, Event::Bound | Event::BindFailed { .. }),
            Phase::Listening { .. } => matches!(event, Event::Received { .. } | Event::ReadFailed { .. }),
            Phase::Sleeping { .. } => matches!(event, Event::SleepFinished | Event::SleepFailed { .. }),
            Phase::Failed => false,
        }
    }
}

/// The error reported when the address of `iface` cannot be had: either the
/// interface has none, or the lookup itself failed.
pub open spec fn is_lookup_error(e: DaemonError, iface: String) -> bool {
    match e {
        DaemonError::NoMacAddress { iface: i } => i == iface,
        DaemonError::MacReadError { iface: i, .. } => i == iface,
        _ => false,
    }
}

/// Relies on mac_address::mac_address_by_name, which asks the operating system
/// for the hardware address of the named interface; `Ok(None)` when it has none.
#[verifier::external_body]
fn lookup_interface_mac(name: &str) -> (r: Result<Option<[u8; 6]>, mac_address::MacAddressError>) {
    mac_address::mac_address_by_name(name).map(|found| found.map(|m| m.bytes()))
}

/// Turns the outcome of an address lookup for `iface` into the daemon's terms.
pub fn interpret_mac_lookup(
    iface: String,
    found: Result<Option<[u8; 6]>, mac_address::MacAddressError>,
) -> (r: Result<HardwareAddress, DaemonError>)
    ensures
        match found {
            Ok(Some(bytes)) => r == Ok::<HardwareAddress, DaemonError>(HardwareAddress { bytes }),
            Ok(None) => r == Err::<HardwareAddress, DaemonError>(DaemonError::NoMacAddress { iface }),
            Err(source) => r == Err::<HardwareAddress, DaemonError>(
                DaemonError::MacReadError { iface, source },
            ),
        },
{
    match found {
        Ok(Some(bytes)) => Ok(HardwareAddress::new(bytes)),
        Ok(None) => Err(DaemonError::NoMacAddress { iface }),
        Err(source) => Err(DaemonError::MacReadError { iface, source }),
    }
}

impl Server {
    pub fn new(interface: String, port: u16, sleep_cmd: String) -> (r: Server)
        ensures
            r.interface == interface,
            r.port == port,
            r.sleep_cmd == sleep_cmd,
    {
        Server { interface, port, sleep_cmd }
    }

    /// The address the listener binds to: every local IPv4 address, at the configured port.
    pub open spec fn spec_bind_address(&self) -> SocketAddress {
        SocketAddress { ip: [0u8, 0u8, 0u8, 0u8], port: self.port }
    }

    /// The address the listener binds to: every local IPv4 address, at the configured port.
    pub fn bind_address(&self) -> (r: SocketAddress)
        ensures
            r == self.spec_bind_address(),
    {
        SocketAddress { ip: [0u8, 0u8, 0u8, 0u8], port: self.port }
    }

    /// Looks up the hardware address of the configured interface.
    pub fn get_interface_mac(&self) -> (r: Result<HardwareAddress, DaemonError>)
        ensures
            r is Err ==> is_lookup_error(r->Err_0, self.interface),
    {
        let found = lookup_interface_mac(self.interface.as_str());
        interpret_mac_lookup(self.interface.clone(), found)
    }

    /// The loop's first phase and action: bind the socket.
    pub fn start(&self) -> (r: (Phase, Action))
        ensures
            r.0 is Binding,
            r.1 == (Action::Bind { address: self.spec_bind_address() }),
    {
        (Phase::Binding, Action::Bind { address: self.bind_address() })
    }

    /// One step of the listener loop: from the current phase and what the last
    /// action brought, the next phase and the next action.
    ///
    /// Once bound, the interface's address is resolved and kept for the rest of
    /// the run. Each datagram is matched against it: a match runs the sleep
    /// command, anything else is discarded and the loop listens again. Failing
    /// to bind, to resolve the address, to receive or to run the sleep command
    /// stops the loop.
    pub fn step(&self, phase: Phase, event: Event) -> (r: (Phase, Action))
        requires
            accepts(phase, event),
        ensures
            match phase {
                Phase::Binding => match event {
                    Event::Bound => (r.0 is Listening && r.1 is Receive) || (r.0 is Failed
                        && r.1 is Stop && is_lookup_error(r.1->Stop_error, self.interface)),
                    Event::BindFailed { source } => r.0 is Failed && r.1 == (Action::Stop {
                        error: DaemonError::SocketBindError {
                            address: self.spec_bind_address(),
                            source,
                        },
                    }),
                    _ => false,
                },
                Phase::Listening { mac } => match event {
                    Event::Received { data } => if is_magic(mac@, data@) {
                        r.0 == (Phase::Sleeping { mac }) && r.1 == (Action::Sleep {
                            command: self.sleep_cmd,
                        })
                    } else {
                        r.0 == (Phase::Listening { mac }) && r.1 == (Action::Discard { data })
                    },
                    Event::ReadFailed { source } => r.0 is Failed && r.1 == (Action::Stop {
                        error: DaemonError::SocketReadError { source },
                    }),
                    _ => false,
                },
                Phase::Sleeping { mac } => match event {
                    Event::SleepFinished => r.0 == (Phase::Listening { mac }) && r.1 is Receive,
                    Event::SleepFailed { source } => r.0 is Failed && r.1 == (Action::Stop {
                        error: DaemonError::SleepError { command: self.sleep_cmd, source },
                    }),
                    _ => false,
                },
                Phase::Failed => false,
            },
    {
        match phase {
            Phase::Binding => match event {
                Event::BindFailed { source } => (
                    Phase::Failed,
                    Action::Stop {
                        error: DaemonError::SocketBindError { address: self.bind_address(), source },
                    },
                ),
                _ => match self.get_interface_mac() {
                    Ok(mac) => (Phase::Listening { mac }, Action::Receive),
                    Err(error) => (Phase::Failed, Action::Stop { error }),
                },
            },
            Phase::Listening { mac } => match event {
                Event::Received { data } => {
                    if Self::is_magic_package(mac, data.as_slice()) {
                        (Phase::Sleeping { mac }, Action::Sleep { command: self.sleep_cmd.clone() })
                    } else {
                        (Phase::Listening { mac }, Action::Discard { data })
                    }
                },
                Event::ReadFailed { source } => (
                    Phase::Failed,
                    Action::Stop { error: DaemonError::SocketReadError { source } },
                ),
                _ => (Phase::Failed, Action::Receive),
            },
            Phase::Sleeping { mac } => match event {
                Event::SleepFailed { source } => (
                    Phase::Failed,
                    Action::Stop {
                        error: DaemonError::SleepError { command: self.sleep_cmd.clone(), source },
                    },
                ),
                _ => (Phase::Listening { mac }, Action::Receive),
            },
            Phase::Failed => (Phase::Failed, Action::Receive),
        }
    }

    /// Whether `package` is the magic packet of `mac_address`: six sync bytes,
    /// then the reversed address sixteen times. Any other length is rejected
    /// without looking at the bytes.
    pub fn is_magic_package(mac_address: HardwareAddress, package: &[u8]) -> (r: bool)
        ensures
            r == is_magic(mac_address@, package@),
            package@.len() != PACKET_LEN ==> !r,
    {
        if package.len() != PACKET_LEN {
            return false;
        }
        let mut i: usize = 0;
        while i < HEADER_LEN
            invariant
                package@.len() == PACKET_LEN,
                i <= HEADER_LEN,
                forall|k: int| 0 <= k < i ==> package@[k] == expected_byte(mac_address@, k),
            decreases HEADER_LEN - i,
        {
            if package[i] != SYNC_BYTE {
                assert(package@[i as int] != magic_packet(mac_address@)[i as int]);
                return false;
            }
            i += 1;
        }
        let rev = mac_address.reversed();
        while i < PACKET_LEN
            invariant
                package@.len() == PACKET_LEN,
                HEADER_LEN <= i <= PACKET_LEN,
                rev@ == reversed(mac_address@),
                forall|k: int| 0 <= k < i ==> package@[k] == expected_byte(mac_address@, k),
            decreases PACKET_LEN - i,
        {
            let idx: usize = (i - HEADER_LEN) % ADDRESS_LEN;
            if package[i] != rev[idx] {
                assert(package@[i as int] != magic_packet(mac_address@)[i as int]);
                return false;
            }
            i += 1;
        }
        assert(package@ =~= magic_packet(mac_address@));
        true
    }
}

} // verus!
