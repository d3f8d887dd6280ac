//! The interface manager and the pump task's decisions.
//!
//! `add_interface` recognises the RTL8139 by its PCI identity, assigns it
//! the interface's fixed address and default route, and registers it.  The
//! pump task polls every interface, and when any poll reports progress it
//! releases all socket waiters.
use crate::notify::WaiterSet;
use crate::pci::PciDevice;
use vstd::prelude::*;

verus! {

/// Whether a PCI device is the RTL8139 NIC this kernel drives.
pub fn is_rtl8139(vendor: u16, id: u16) -> (r: bool)
    ensures
        r <==> (vendor == 0x10EC && id == 0x8139),
{
    vendor == 0x10EC && id == 0x8139
}

/// The address configuration installed on a new interface.
#[derive(Clone, Copy, Debug)]
pub struct IfaceConfig {
    pub addr: [u8; 4],
    pub prefix_len: u8,
    pub gateway: [u8; 4],
}

/// The defaults of the emulator's user-mode network: 10.0.2.15/24 with
/// gateway 10.0.2.2.
pub fn default_iface_config() -> (c: IfaceConfig)
    ensures
        c.addr[0] == 10 && c.addr[1] == 0 && c.addr[2] == 2 && c.addr[3] == 15,
        c.prefix_len == 24,
        c.gateway[0] == 10 && c.gateway[1] == 0 && c.gateway[2] == 2 && c.gateway[3] == 2,
{
    IfaceConfig { addr: [10, 0, 2, 15], prefix_len: 24, gateway: [10, 0, 2, 2] }
}

/// The registry's record of one interface.
#[derive(Clone, Copy, Debug, PartialEq, Eq, Structural)]
pub struct InterfaceInfo {
    pub index: usize,
    pub io_base: u16,
}

/// The process-wide list of network interfaces.
pub struct InterfaceRegistry {
    pub entries: Vec<InterfaceInfo>,
}

impl InterfaceRegistry {
    pub fn new() -> (r: InterfaceRegistry)
        ensures
            r.entries@.len() == 0,
    {
        InterfaceRegistry { entries: Vec::new() }
    }
}

/// Bring up an interface for a scanned PCI device: only the RTL8139 is
/// recognised; it is registered under the next free index with its I/O
/// base, and the caller constructs the driver and installs the default
/// address configuration.
pub fn add_interface(reg: &mut InterfaceRegistry, device: &PciDevice) -> (r: Option<usize>)
    ensures
        device.vendor == 0x10EC && device.id == 0x8139 ==> (r == Some(old(reg).entries@.len()
            as usize) && final(reg).entries@ == old(reg).entries@.push(
            InterfaceInfo {
                index: old(reg).entries@.len() as usize,
                io_base: ((device.base_addresses[0] as u16) & 0xFFF0) as u16,
            },
        )),
        !(device.vendor == 0x10EC && device.id == 0x8139) ==> r is None && final(reg).entries@
            == old(reg).entries@,
{
    if is_rtl8139(device.vendor, device.id) {
        let index = reg.entries.len();
        let io_base = device.io_base();
        reg.entries.push(InterfaceInfo { index, io_base });
        Some(index)
    } else {
        None
    }
}

/// The registered interface at `index`, if any.
pub fn get_interface(reg: &InterfaceRegistry, index: usize) -> (r: Option<InterfaceInfo>)
    ensures
        index < reg.entries@.len() ==> r == Some(reg.entries@[index as int]),
        index >= reg.entries@.len() ==> r is None,
{
    if index < reg.entries.len() {
        Some(reg.entries[index])
    } else {
        None
    }
}

/// How many interfaces are registered.
pub fn get_interfaces(reg: &InterfaceRegistry) -> (n: usize)
    ensures
        n == reg.entries@.len(),
{
    reg.entries.len()
}

/// Whether any interface poll reported progress.
pub fn any_changed(flags: &Vec<bool>) -> (r: bool)
    ensures
        r <==> exists|i: int| 0 <= i < flags@.len() && flags@[i],
{
    let n = flags.len();
    let mut i: usize = 0;
    while i < n
        invariant
            i <= n,
            n == flags@.len(),
            forall|j: int| 0 <= j < i ==> !flags@[j],
        decreases n - i,
    {
        if flags[i] {
            return true;
        }
        i = i + 1;
    }
    false
}

/// One round of the pump task after polling every interface: when any poll
/// reported progress, release every parked socket waiter; otherwise leave
/// them parked.  Returns whether progress was seen.
pub fn pump_round(poll_results: &Vec<bool>, waiters: &mut WaiterSet) -> (changed: bool)
    ensures
        changed <==> exists|i: int| 0 <= i < poll_results@.len() && poll_results@[i],
        changed ==> final(waiters).cells@.len() == old(waiters).cells@.len() && forall|i: int|
            0 <= i < final(waiters).cells@.len() ==> #[trigger] final(waiters).cells@[i]
                == crate::notify::spec_notify(old(waiters).cells@[i]),
        !changed ==> final(waiters).cells@ == old(waiters).cells@,
{
    let changed = any_changed(poll_results);
    if changed {
        waiters.notify_all();
    }
    changed
}

/// The fixed ephemeral local port outgoing TCP connections bind to.
pub const TCP_LOCAL_PORT: u16 = 1111;

/// Size of a TCP stream's transmit and receive buffers.
pub const TCP_BUFFER_LEN: usize = 1024;

/// Size of an ICMP socket's transmit and receive packet buffers.
pub const ICMP_BUFFER_LEN: usize = 256;

/// The passive-open state of a TCP listener.  Accepting a connection hands
/// the ready socket out and immediately re-arms a fresh listening socket on
/// the same endpoint, so the next connection can be accepted.
pub struct TcpListener {
    pub endpoint: Option<u16>,
    pub armed: bool,
}

impl TcpListener {
    /// A listener that is not yet listening.
    pub fn new() -> (l: TcpListener)
        ensures
            l.endpoint is None,
            !l.armed,
    {
        TcpListener { endpoint: None, armed: false }
    }

    /// Start listening on a port.  Listening twice on one listener is a
    /// programming error, so it is a precondition.
    pub fn listen(&mut self, port: u16)
        requires
            !old(self).armed,
        ensures
            final(self).armed,
            final(self).endpoint == Some(port),
    {
        self.endpoint = Some(port);
        self.armed = true;
    }

    /// One accept round, given the listening socket's readiness: a socket
    /// that can receive or send carries an established connection, so it
    /// is accepted and a replacement listener is armed on the same
    /// endpoint.
    pub fn accept_step(&mut self, may_recv: bool, may_send: bool) -> (accepted: bool)
        requires
            old(self).armed,
        ensures
            accepted <==> (may_recv || may_send),
            final(self).armed,
            final(self).endpoint == old(self).endpoint,
    {
        may_recv || may_send
    }
}

} // verus!
