//! RTL8139 driver logic: the initialisation sequence, transmit ring
//! bookkeeping, and the receive-ring arithmetic.
//!
//! The device is driven through I/O ports at `io_base`; the caller performs
//! the reads and writes and hands the values here.  The receive ring is one
//! physically contiguous buffer of 8 KiB plus 1500 bytes of wrap space (the
//! WRAP mode lets the device run past the 8 KiB boundary rather than split
//! a packet) plus 16 bytes of padding.
use vstd::prelude::*;

verus! {

/// Receive ring length: 8192 + 1500 wrap space + 16 padding.
pub const RX_BUFFER_LEN: usize = 9708;

/// CAPR reads 16 below the true read offset.
pub const RX_BUFFER_PADDING: usize = 16;

/// Number of transmit buffers the device cycles through.
pub const TX_BUFFERS_COUNT: usize = 4;

/// Size of each transmit buffer.
pub const TX_BUFFER_LEN: usize = 4096;

/// The host-side driver state: everything else lives in device registers.
pub struct Rtl8139 {
    pub io_base: u16,
    pub current_tx: usize,
    pub rx_offset: usize,
}

/// One step of the initialisation sequence, to be replayed against the
/// device's ports (offsets relative to `io_base`).
#[derive(Clone, Copy, Debug, PartialEq, Eq, Structural)]
pub enum InitStep {
    Write8 { offset: u16, value: u8 },
    Write16 { offset: u16, value: u16 },
    Write32 { offset: u16, value: u32 },
    /// Spin until the masked bits of the byte register read zero.
    WaitClear8 { offset: u16, mask: u8 },
    /// Install the receive interrupt handler at this vector.
    SetHandler { vector: u8 },
}

/// The transmit command for the current slot: the status port to write and
/// the value that starts the DMA.
#[derive(Clone, Copy, Debug, PartialEq, Eq, Structural)]
pub struct TxCommand {
    pub port_offset: u16,
    pub status_value: u32,
}

/// What the receive path decided.
pub enum RxOutcome {
    /// The command register's BUFE bit was set: nothing to read.
    Empty,
    /// The header at the read offset had no ROK bit: resynchronise CAPR.
    NotReady { capr_write: u16 },
    /// A packet was consumed; write `capr_write` back to CAPR.
    Packet { data: Vec<u8>, capr_write: u16 },
}

/// The ring offset a CAPR value denotes: CAPR trails the true offset by the
/// padding, and the sum wraps at 2^16 (CAPR starts at 65520, so the first
/// packet sits at offset 0).
pub open spec fn spec_rx_offset(capr: u16) -> int {
    (capr + RX_BUFFER_PADDING) % 0x10000
}

/// The little-endian 16-bit word at `i`.
pub open spec fn spec_le16(rx: Seq<u8>, i: int) -> u16 {
    (rx[i] as u16) | ((rx[i + 1] as u16) << 8)
}

/// The packet header's ROK bit: the frame was received intact.
pub open spec fn spec_rx_ok(header: u16) -> bool {
    header & 0x1 == 0x1
}

/// The receive buffer is empty when the command register's BUFE bit reads
/// set.
pub open spec fn spec_buffer_empty(cmd: u8) -> bool {
    cmd & 0x1 == 0x1
}

/// The read offset after consuming a packet of payload length `n` at
/// `off`: past the 4 header bytes and the data, rounded up to the next
/// 4-byte boundary.
pub open spec fn spec_next_rx_offset(off: int, n: int) -> int {
    ((off + n + 4 + 3) / 4) * 4
}

/// The value written back to CAPR for a ring offset: the offset modulo the
/// ring length, less the padding.
pub open spec fn spec_capr_write(off: int) -> int {
    off % (RX_BUFFER_LEN as int) - RX_BUFFER_PADDING
}

impl Rtl8139 {
    /// Fresh driver state: the transmit index starts at the last slot so
    /// the first transmission uses slot 0; the read offset starts at 0.
    pub fn new(io_base: u16) -> (r: Rtl8139)
        ensures
            r.io_base == io_base,
            r.current_tx == 3,
            r.rx_offset == 0,
    {
        Rtl8139 { io_base, current_tx: 3, rx_offset: 0 }
    }

    /// Claim the next transmit slot: advances the index modulo 4 and
    /// returns it; the caller copies the frame into that slot's buffer.
    pub fn get_transmit_buffer(&mut self, len: usize) -> (idx: usize)
        requires
            old(self).current_tx < TX_BUFFERS_COUNT,
            len <= TX_BUFFER_LEN,
        ensures
            final(self).current_tx == (old(self).current_tx + 1) % (TX_BUFFERS_COUNT as int),
            idx == final(self).current_tx,
            idx < TX_BUFFERS_COUNT,
            final(self).io_base == old(self).io_base,
            final(self).rx_offset == old(self).rx_offset,
    {
        let idx = (self.current_tx + 1) % TX_BUFFERS_COUNT;
        self.current_tx = idx;
        idx
    }

    /// The write that starts transmission of `len` bytes from the current
    /// slot: the slot's status port gets the length (clamped up to the
    /// hardware minimum of 60 bytes) in its low 13 bits, which also clears
    /// OWN and hands the buffer to the device.
    pub fn transmit_packet(&self, len: usize) -> (c: TxCommand)
        requires
            self.current_tx < TX_BUFFERS_COUNT,
            len <= TX_BUFFER_LEN,
        ensures
            c.port_offset == 0x10 + 4 * self.current_tx,
            c.status_value == (if len >= 60 {
                len
            } else {
                60
            }),
    {
        let clamped: u32 = if len >= 60 {
            len as u32
        } else {
            60
        };
        let status_value = clamped & 0x1FFF;
        proof {
            // The length fits the status word's 13 low bits, so the mask
            // keeps it intact.
            assert(clamped & 0x1FFF == clamped) by (bit_vector)
                requires
                    clamped <= 4096,
            ;
        }
        TxCommand { port_offset: 0x10 + 4 * (self.current_tx as u16), status_value }
    }

    /// One pass of the receive path, given the command register byte, the
    /// CAPR and CBA register words, and the receive ring contents.  Decides
    /// whether a packet is available, extracts it, and computes the CAPR
    /// write that acknowledges it.
    pub fn receive_packet(&mut self, cmd: u8, capr: u16, cba: u16, rx: &Vec<u8>) -> (r: RxOutcome)
        requires
            rx@.len() == RX_BUFFER_LEN,
            !spec_buffer_empty(cmd) ==> spec_rx_offset(capr) + 4 <= RX_BUFFER_LEN,
            !spec_buffer_empty(cmd) && !spec_rx_ok(spec_le16(rx@, spec_rx_offset(capr)))
                ==> cba % (RX_BUFFER_LEN as u16) >= RX_BUFFER_PADDING,
            !spec_buffer_empty(cmd) && spec_rx_ok(spec_le16(rx@, spec_rx_offset(capr))) ==> ({
                let off = spec_rx_offset(capr);
                let n = spec_le16(rx@, off + 2) as int;
                4 <= n && off + n <= RX_BUFFER_LEN && spec_next_rx_offset(off, n) % (
                RX_BUFFER_LEN as int) >= RX_BUFFER_PADDING
            }),
        ensures
            final(self).io_base == old(self).io_base,
            final(self).current_tx == old(self).current_tx,
            spec_buffer_empty(cmd) ==> r is Empty && final(self).rx_offset == old(self).rx_offset,
            !spec_buffer_empty(cmd) && !spec_rx_ok(spec_le16(rx@, spec_rx_offset(capr))) ==> (
            r matches RxOutcome::NotReady { capr_write } && capr_write == spec_capr_write(
                cba as int,
            ) && final(self).rx_offset == old(self).rx_offset),
            !spec_buffer_empty(cmd) && spec_rx_ok(spec_le16(rx@, spec_rx_offset(capr))) ==> ({
                let off = spec_rx_offset(capr);
                let n = spec_le16(rx@, off + 2) as int;
                r matches RxOutcome::Packet { data, capr_write } && data@ == rx@.subrange(
                    off + 4,
                    off + n,
                ) && final(self).rx_offset == spec_next_rx_offset(off, n) && capr_write
                    == spec_capr_write(spec_next_rx_offset(off, n)) && final(self).rx_offset % 4
                    == 0 && final(self).rx_offset as u64 == ((off + n + 7) as u64) & !3u64
            }),
    {
        if cmd & 0x1 == 0x1 {
            return RxOutcome::Empty;
        }
        let off: usize = ((capr as usize) + RX_BUFFER_PADDING) % 0x10000;
        let header: u16 = (rx[off] as u16) | ((rx[off + 1] as u16) << 8);
        if header & 0x1 != 0x1 {
            let capr_write: u16 = ((cba as usize) % RX_BUFFER_LEN - RX_BUFFER_PADDING) as u16;
            return RxOutcome::NotReady { capr_write };
        }
        let n: usize = ((rx[off + 2] as u16) | ((rx[off + 3] as u16) << 8)) as usize;
        let mut data: Vec<u8> = Vec::new();
        let mut i: usize = off + 4;
        proof {
            assert(rx@.subrange(off + 4, off + 4) =~= Seq::<u8>::empty());
        }
        while i < off + n
            invariant
                off + 4 <= i <= off + n,
                rx@.len() == RX_BUFFER_LEN,
                off + n <= rx@.len(),
                data@ == rx@.subrange(off + 4, i as int),
            decreases off + n - i,
        {
            data.push(rx[i]);
            proof {
                assert(rx@.subrange(off + 4, i + 1) =~= rx@.subrange(off + 4, i as int).push(
                    rx@[i as int],
                ));
            }
            i = i + 1;
        }
        self.rx_offset = ((off + n + 4 + 3) / 4) * 4;
        proof {
            lemma_rx_offset_aligned(off as int, n as int);
            lemma_align_is_mask((off + n + 7) as u64);
            assert(((off + n + 7) as u64) / 4 == (((off + n + 7) / 4) as u64));
        }
        let capr_write: u16 = (self.rx_offset % RX_BUFFER_LEN - RX_BUFFER_PADDING) as u16;
        RxOutcome::Packet { data, capr_write }
    }
}

/// The advanced read offset is the smallest 4-byte-aligned position past
/// the packet's four header bytes and its data, so the reader never lands
/// inside a packet and never skips one.
pub proof fn lemma_rx_offset_aligned(off: int, n: int)
    requires
        off >= 0,
        n >= 0,
    ensures
        spec_next_rx_offset(off, n) % 4 == 0,
        off + n + 4 <= spec_next_rx_offset(off, n) < off + n + 8,
{
    let x = off + n + 7;
    vstd::arithmetic::div_mod::lemma_fundamental_div_mod(x, 4);
    vstd::arithmetic::div_mod::lemma_mod_bound(x, 4);
    let q = x / 4;
    assert(4 * q == q * 4) by {
        vstd::arithmetic::mul::lemma_mul_is_commutative(4, q);
    }
    assert((q * 4) % 4 == 0) by {
        vstd::arithmetic::div_mod::lemma_mod_multiples_basic(q, 4);
    }
}

/// Rounding down to a multiple of four is the same as clearing the two
/// low address bits, the form the ring's consumers use.
pub proof fn lemma_align_is_mask(x: u64)
    ensures
        x & !3u64 == 4 * (x / 4),
{
    assert(x & !3u64 == 4 * (x / 4)) by (bit_vector);
}

/// The interrupt vector the RTL8139 handler is installed at, for the IRQ
/// line read from the device's configuration space.
pub fn irq_vector(irq: u8) -> (r: u8)
    requires
        irq <= 223,
    ensures
        r == 32 + irq,
{
    32 + irq
}

/// What the interrupt handler does with the status it read from ISR: write
/// the same value back to acknowledge, and notify the receive waker when
/// the ROK bit is set.
#[derive(Clone, Copy, Debug, PartialEq, Eq, Structural)]
pub struct IsrAction {
    pub ack: u16,
    pub notify_rx: bool,
}

pub fn handle_isr(status: u16) -> (r: IsrAction)
    ensures
        r.ack == status,
        r.notify_rx <==> status & 0x1 == 0x1,
{
    IsrAction { ack: status, notify_rx: status & 0x1 == 0x1 }
}

/// The transmit status OWN bit (bit 13): DMA from the buffer completed.
pub fn tx_dma_done(status: u32) -> (r: bool)
    ensures
        r <==> status & 0x2000 == 0x2000,
{
    status & 0x2000 == 0x2000
}

/// The transmit status TOK bit (bit 15): the frame went out on the wire.
pub fn tx_ok(status: u32) -> (r: bool)
    ensures
        r <==> status & 0x8000 == 0x8000,
{
    status & 0x8000 == 0x8000
}

/// The physical medium a device attaches to.
#[derive(Clone, Copy, Debug, PartialEq, Eq, Structural)]
pub enum Medium {
    Ethernet,
}

/// The capabilities advertised to the protocol engine.
#[derive(Clone, Copy, Debug, PartialEq, Eq, Structural)]
pub struct DeviceCaps {
    pub max_transmission_unit: usize,
    pub max_burst_size: usize,
    pub medium: Medium,
}

pub fn capabilities() -> (c: DeviceCaps)
    ensures
        c.max_transmission_unit == 1536,
        c.max_burst_size == 1,
        c.medium is Ethernet,
{
    DeviceCaps { max_transmission_unit: 1536, max_burst_size: 1, medium: Medium::Ethernet }
}

/// The device initialisation sequence, in order: power on, reset and wait,
/// program the ring addresses, unmask ROK and TOK, install the handler,
/// accept broadcast/multicast/physical-match/all with WRAP mode, and
/// finally enable transmit and receive.
pub fn init_commands(rx_buffer_addr: u32, tx_buffer_addrs: [u32; 4], irq: u8) -> (r: Vec<InitStep>)
    requires
        irq <= 223,
    ensures
        r@ =~= seq![
            (InitStep::Write8 { offset: 0x52, value: 0 }),
            (InitStep::Write8 { offset: 0x37, value: 0x10 }),
            (InitStep::WaitClear8 { offset: 0x37, mask: 0x10 }),
            (InitStep::Write32 { offset: 0x30, value: rx_buffer_addr }),
            (InitStep::Write32 { offset: 0x20, value: tx_buffer_addrs[0] }),
            (InitStep::Write32 { offset: 0x24, value: tx_buffer_addrs[1] }),
            (InitStep::Write32 { offset: 0x28, value: tx_buffer_addrs[2] }),
            (InitStep::Write32 { offset: 0x2C, value: tx_buffer_addrs[3] }),
            (InitStep::Write16 { offset: 0x3C, value: 0x5 }),
            (InitStep::SetHandler { vector: (32 + irq) as u8 }),
            (InitStep::Write32 { offset: 0x44, value: 0x8F }),
            (InitStep::Write8 { offset: 0x37, value: 0x0C }),
        ],
{
    let mut steps: Vec<InitStep> = Vec::new();
    steps.push(InitStep::Write8 { offset: 0x52, value: 0 });
    steps.push(InitStep::Write8 { offset: 0x37, value: 0x10 });
    steps.push(InitStep::WaitClear8 { offset: 0x37, mask: 0x10 });
    steps.push(InitStep::Write32 { offset: 0x30, value: rx_buffer_addr });
    steps.push(InitStep::Write32 { offset: 0x20, value: tx_buffer_addrs[0] });
    steps.push(InitStep::Write32 { offset: 0x24, value: tx_buffer_addrs[1] });
    steps.push(InitStep::Write32 { offset: 0x28, value: tx_buffer_addrs[2] });
    steps.push(InitStep::Write32 { offset: 0x2C, value: tx_buffer_addrs[3] });
    steps.push(InitStep::Write16 { offset: 0x3C, value: 0x5 });
    steps.push(InitStep::SetHandler { vector: 32 + irq });
    steps.push(InitStep::Write32 { offset: 0x44, value: 0x8F });
    steps.push(InitStep::Write8 { offset: 0x37, value: 0x0C });
    steps
}

/// An owned received frame on its way into the protocol stack.
pub struct EtherRxToken {
    pub buffer: Vec<u8>,
}

impl EtherRxToken {
    pub fn new(buffer: Vec<u8>) -> (t: EtherRxToken)
        ensures
            t.buffer@ == buffer@,
    {
        EtherRxToken { buffer }
    }

    /// Consuming the token hands the frame to the stack unchanged.
    pub fn into_buffer(self) -> (r: Vec<u8>)
        ensures
            r@ == self.buffer@,
    {
        self.buffer
    }
}

} // verus!
