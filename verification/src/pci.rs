//! PCI configuration space: register lane views, config-address encoding,
//! device snapshots and the scan registry.
//!
//! The two I/O ports (0xCF8 address, 0xCFC data) are driven by the caller;
//! this module computes the addresses to write, decodes the dwords that come
//! back, and keeps the registry of discovered devices.
use vstd::prelude::*;

verus! {

/// One 32-bit configuration-space word, with views of its 16- and 8-bit lanes.
#[derive(Clone, Copy, Debug, PartialEq, Eq, Structural)]
pub struct Register {
    pub inner: u32,
}

impl Register {
    pub fn new(inner: u32) -> (r: Register)
        ensures
            r.inner == inner,
    {
        Register { inner }
    }

    pub open spec fn spec_word(&self, which: u8) -> u16 {
        if which == 0 {
            (self.inner & 0xFFFF) as u16
        } else {
            (self.inner >> 16) as u16
        }
    }

    pub open spec fn spec_byte(&self, which: u8) -> u8 {
        if which == 0 {
            (self.inner & 0xFF) as u8
        } else if which == 1 {
            ((self.inner >> 8) & 0xFF) as u8
        } else if which == 2 {
            ((self.inner >> 16) & 0xFF) as u8
        } else {
            ((self.inner >> 24) & 0xFF) as u8
        }
    }

    /// The whole 32-bit word.
    pub fn dword(&self) -> (r: u32)
        ensures
            r == self.inner,
    {
        self.inner
    }

    /// The 16-bit lane `which` (0 = low, 1 = high).
    pub fn word(&self, which: u8) -> (r: u16)
        requires
            which < 2,
        ensures
            r == self.spec_word(which),
    {
        if which == 0 {
            (self.inner & 0xFFFF) as u16
        } else {
            (self.inner >> 16) as u16
        }
    }

    /// The 8-bit lane `which` (0 = lowest byte, 3 = highest).
    pub fn byte(&self, which: u8) -> (r: u8)
        requires
            which < 4,
        ensures
            r == self.spec_byte(which),
    {
        if which == 0 {
            (self.inner & 0xFF) as u8
        } else if which == 1 {
            ((self.inner >> 8) & 0xFF) as u8
        } else if which == 2 {
            ((self.inner >> 16) & 0xFF) as u8
        } else {
            ((self.inner >> 24) & 0xFF) as u8
        }
    }
}

pub open spec fn spec_config_address(bus: u8, slot: u8, func: u8, register: u8) -> u32 {
    0x8000_0000u32 | ((bus as u32) << 16) | ((slot as u32) << 11) | ((func as u32) << 8) | (
    (((register as u32) * 4) as u32) & 0xFC)
}

/// The dword written to port 0xCF8 to select `(bus, slot, func, register)`;
/// bit 31 is the enable bit.
pub fn config_address(bus: u8, slot: u8, func: u8, register: u8) -> (r: u32)
    ensures
        r == spec_config_address(bus, slot, func, register),
{
    let offset: u32 = (register as u32) * 4;
    0x8000_0000u32 | ((bus as u32) << 16) | ((slot as u32) << 11) | ((func as u32) << 8) | (offset
        & 0xFC)
}

/// Immutable snapshot of one device's configuration header.
#[derive(Clone, Copy, Debug)]
pub struct PciDevice {
    pub bus: u8,
    pub slot: u8,
    pub function: u8,
    pub vendor: u16,
    pub id: u16,
    pub revision: u8,
    pub prog: u8,
    pub class: u8,
    pub subclass: u8,
    pub base_addresses: [u32; 6],
}

impl PciDevice {
    /// Assemble a snapshot from the three configuration reads: dword 0
    /// (device id / vendor), dword 2 (class / subclass / prog if / revision)
    /// and dwords 4..9 (the six base address registers).
    pub fn new(bus: u8, slot: u8, function: u8, reg0: Register, reg2: Register, bars: [u32; 6]) -> (r:
        PciDevice)
        ensures
            r.bus == bus,
            r.slot == slot,
            r.function == function,
            r.vendor == reg0.spec_word(0),
            r.id == reg0.spec_word(1),
            r.class == reg2.spec_byte(3),
            r.subclass == reg2.spec_byte(2),
            r.prog == reg2.spec_byte(1),
            r.revision == reg2.spec_byte(0),
            r.base_addresses == bars,
    {
        PciDevice {
            bus,
            slot,
            function,
            vendor: reg0.word(0),
            id: reg0.word(1),
            class: reg2.byte(3),
            subclass: reg2.byte(2),
            prog: reg2.byte(1),
            revision: reg2.byte(0),
            base_addresses: bars,
        }
    }

    /// The command register value with bus mastering (bit 2) enabled; the
    /// caller reads command dword 1, passes it here, and writes the result
    /// back.
    pub fn enable_mastering(&self, command: Register) -> (r: Register)
        ensures
            r.inner == command.inner | 0x4,
    {
        Register { inner: command.inner | 0x4 }
    }

    /// The I/O port base: BAR0 with its low flag bits masked off.
    pub fn io_base(&self) -> (r: u16)
        ensures
            r == (self.base_addresses[0] as u16) & 0xFFF0,
    {
        (self.base_addresses[0] as u16) & 0xFFF0
    }
}

/// Whether a probe of `(bus, slot)` found a device: the vendor lane of
/// dword 0, which reads back as 0xFFFF on an empty slot.
pub fn check_device(bus: u8, slot: u8, reg0: Register, reg2: Register, bars: [u32; 6]) -> (r: Option<
    PciDevice>)
    ensures
        reg0.spec_word(0) == 0xFFFF ==> r is None,
        reg0.spec_word(0) != 0xFFFF ==> (r matches Some(d) && d.bus == bus && d.slot == slot
            && d.function == 0 && d.vendor == reg0.spec_word(0) && d.id == reg0.spec_word(1)
            && d.revision == reg2.spec_byte(0) && d.prog == reg2.spec_byte(1) && d.class
            == reg2.spec_byte(3) && d.subclass == reg2.spec_byte(2) && d.base_addresses == bars),
{
    let vendor = reg0.word(0);
    if vendor == 0xFFFF {
        None
    } else {
        Some(PciDevice::new(bus, slot, 0, reg0, reg2, bars))
    }
}

/// One slot's configuration reads, as the bus walk probes them: dword 0,
/// dword 2 and the six base address registers.
#[derive(Clone, Copy, Debug)]
pub struct ConfigSnapshot {
    pub reg0: Register,
    pub reg2: Register,
    pub bars: [u32; 6],
}

/// How many slots the bus walk probes: buses 0 to 254, slots 0 to 31,
/// function 0 only.  Probe index `i` covers bus `i / 32`, slot `i % 32`,
/// so the probes arrive in scan order.
pub const SCAN_PROBES: usize = 255 * 32;

/// The snapshot recorded for probe index `i`.
pub open spec fn spec_probe_device(p: ConfigSnapshot, i: int) -> PciDevice {
    PciDevice {
        bus: (i / 32) as u8,
        slot: (i % 32) as u8,
        function: 0,
        vendor: p.reg0.spec_word(0),
        id: p.reg0.spec_word(1),
        revision: p.reg2.spec_byte(0),
        prog: p.reg2.spec_byte(1),
        class: p.reg2.spec_byte(3),
        subclass: p.reg2.spec_byte(2),
        base_addresses: p.bars,
    }
}

/// What a walk over the first `n` probes records: a snapshot of every
/// slot whose vendor lane is not 0xFFFF, in scan order, and nothing else.
pub open spec fn spec_scan_prefix(probes: Seq<ConfigSnapshot>, n: int) -> Seq<PciDevice>
    decreases n,
{
    if n <= 0 || n > probes.len() {
        Seq::empty()
    } else if probes[n - 1].reg0.spec_word(0) != 0xFFFF {
        spec_scan_prefix(probes, n - 1).push(spec_probe_device(probes[n - 1], n - 1))
    } else {
        spec_scan_prefix(probes, n - 1)
    }
}

/// Turn the bus walk's probe table into the device list the scan records:
/// exactly the occupied slots, decoded, in scan order.
pub fn collect_devices(probes: &Vec<ConfigSnapshot>) -> (r: Vec<PciDevice>)
    requires
        probes@.len() == SCAN_PROBES,
    ensures
        r@ == spec_scan_prefix(probes@, SCAN_PROBES as int),
{
    let mut r: Vec<PciDevice> = Vec::new();
    let mut i: usize = 0;
    while i < SCAN_PROBES
        invariant
            i <= SCAN_PROBES,
            probes@.len() == SCAN_PROBES,
            r@ == spec_scan_prefix(probes@, i as int),
        decreases SCAN_PROBES - i,
    {
        let p = probes[i];
        let bus = (i / 32) as u8;
        let slot = (i % 32) as u8;
        let probed = check_device(bus, slot, p.reg0, p.reg2, p.bars);
        match probed {
            Some(d) => {
                proof {
                    assert(d == spec_probe_device(probes@[i as int], i as int));
                }
                r.push(d);
            },
            None => {
            },
        }
        i = i + 1;
    }
    r
}

/// Whether a registry entry matches a `(vendor, device id)` query.
pub open spec fn device_matches(d: PciDevice, vendor: u16, id: u16) -> bool {
    d.vendor == vendor && d.id == id
}

/// The registry of devices found by the bus scan.
pub struct PciRegistry {
    pub devices: Vec<PciDevice>,
    pub scanned: bool,
}

/// What the registry holds after a scan that found `found`: the first scan
/// records its findings, any later scan is a no-op.
pub open spec fn scan_result(
    devices: Seq<PciDevice>,
    scanned: bool,
    found: Seq<PciDevice>,
) -> Seq<PciDevice> {
    if scanned {
        devices
    } else {
        found
    }
}

impl PciRegistry {
    /// An empty registry, before any scan.
    pub fn new() -> (r: PciRegistry)
        ensures
            r.devices@ =~= Seq::<PciDevice>::empty(),
            !r.scanned,
    {
        PciRegistry { devices: Vec::new(), scanned: false }
    }
}

/// Record the outcome of a bus walk.  The first call stores the probed
/// devices; once `scanned` is set, further calls leave the registry alone.
pub fn scan_devices(reg: &mut PciRegistry, found: Vec<PciDevice>)
    ensures
        final(reg).scanned,
        final(reg).devices@ == scan_result(old(reg).devices@, old(reg).scanned, found@),
{
    if !reg.scanned {
        reg.devices = found;
        reg.scanned = true;
    }
}

/// Scanning is idempotent: whatever a second walk reports, a registry that
/// has already recorded a scan keeps identical contents and length.
pub proof fn lemma_scan_idempotent(
    devices: Seq<PciDevice>,
    scanned: bool,
    found: Seq<PciDevice>,
    found2: Seq<PciDevice>,
)
    ensures
        scan_result(scan_result(devices, scanned, found), true, found2) == scan_result(
            devices,
            scanned,
            found,
        ),
        scan_result(scan_result(devices, scanned, found), true, found2).len() == scan_result(
            devices,
            scanned,
            found,
        ).len(),
{
}

/// The first registered device with the given vendor and device id, if any.
pub fn get_device(reg: &PciRegistry, vendor: u16, id: u16) -> (r: Option<PciDevice>)
    ensures
        r is None ==> forall|j: int|
            0 <= j < reg.devices@.len() ==> !device_matches(reg.devices@[j], vendor, id),
        r matches Some(d) ==> exists|i: int|
            0 <= i < reg.devices@.len() && d == reg.devices@[i] && device_matches(d, vendor, id)
                && forall|j: int| 0 <= j < i ==> !device_matches(#[trigger] reg.devices@[j], vendor, id),
{
    let n = reg.devices.len();
    let mut i: usize = 0;
    while i < n
        invariant
            i <= n,
            n == reg.devices@.len(),
            forall|j: int| 0 <= j < i ==> !device_matches(#[trigger] reg.devices@[j], vendor, id),
        decreases n - i,
    {
        let d = reg.devices[i];
        if d.vendor == vendor && d.id == id {
            return Some(d);
        }
        i = i + 1;
    }
    None
}

} // verus!
