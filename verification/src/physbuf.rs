//! Acceptance check for DMA buffers that must occupy one physically
//! contiguous extent.
//!
//! The allocator maps a buffer over a run of 4 KiB pages; the caller looks
//! up the physical frame of each page and passes the frame base addresses
//! here.  The buffer is accepted only when the frames are consecutive, and
//! then every byte's physical address follows its offset exactly -- the
//! property the NIC's ring DMA depends on.  A rejected buffer is freed and
//! allocation is retried.
use vstd::arithmetic::div_mod::lemma_basic_div;
use vstd::arithmetic::div_mod::lemma_fundamental_div_mod;
use vstd::arithmetic::div_mod::lemma_small_mod;
use vstd::arithmetic::mul::lemma_mul_inequality;
use vstd::prelude::*;

verus! {

/// Pages are 4 KiB.
pub const PAGE_SIZE: usize = 4096;

/// The physical address of byte `i` of a buffer whose pages sit in the
/// frames `frames` (base addresses, in order) and whose first byte lies at
/// offset `start_off` inside the first page.
pub open spec fn spec_phys_addr(frames: Seq<u64>, start_off: nat, i: nat) -> int {
    frames[((start_off + i) / (PAGE_SIZE as nat)) as int] + ((start_off + i) % (PAGE_SIZE as nat))
}

/// The frames form one contiguous physical extent.
pub open spec fn spec_frames_contiguous(frames: Seq<u64>) -> bool {
    forall|k: int| 0 <= k < frames.len() - 1 ==> #[trigger] frames[k + 1] == frames[k] + PAGE_SIZE
}

/// Whether the buffer's page frames are physically consecutive; the
/// allocator retries until this holds.
pub fn frames_contiguous(frames: &Vec<u64>) -> (r: bool)
    ensures
        r <==> spec_frames_contiguous(frames@),
{
    let n = frames.len();
    if n == 0 {
        return true;
    }
    let mut k: usize = 0;
    while k < n - 1
        invariant
            n == frames@.len(),
            n >= 1,
            k <= n - 1,
            forall|j: int| 0 <= j < k ==> #[trigger] frames@[j + 1] == frames@[j] + PAGE_SIZE,
        decreases n - 1 - k,
    {
        let cur = frames[k];
        let next = frames[k + 1];
        if !(next >= PAGE_SIZE as u64 && cur == next - PAGE_SIZE as u64) {
            return false;
        }
        k = k + 1;
    }
    true
}

/// Each accepted frame is a fixed stride from the first.
proof fn lemma_frames_linear(frames: Seq<u64>, k: int)
    requires
        spec_frames_contiguous(frames),
        0 <= k < frames.len(),
    ensures
        frames[k] == frames[0] + (PAGE_SIZE as int) * k,
    decreases k,
{
    if k > 0 {
        lemma_frames_linear(frames, k - 1);
        assert(frames[(k - 1) + 1] == frames[k - 1] + PAGE_SIZE);
    }
}

/// Contiguity of an accepted buffer: the physical address of byte `i`
/// differs from that of byte 0 by exactly `i`, for every byte of the
/// buffer.
pub proof fn lemma_physbuf_contiguity(frames: Seq<u64>, start_off: nat, i: nat)
    requires
        spec_frames_contiguous(frames),
        frames.len() > 0,
        start_off < PAGE_SIZE,
        start_off + i < frames.len() * (PAGE_SIZE as nat),
    ensures
        spec_phys_addr(frames, start_off, i) == spec_phys_addr(frames, start_off, 0) + i,
{
    let p = PAGE_SIZE as int;
    let s = start_off as int;
    let x = s + i;
    let q = x / p;
    let r = x % p;
    lemma_fundamental_div_mod(x, p);
    assert(0 <= q) by {
        vstd::arithmetic::div_mod::lemma_div_pos_is_pos(x, p);
    }
    assert(q < frames.len()) by {
        if q >= frames.len() {
            lemma_mul_inequality(frames.len() as int, q, p);
            assert(frames.len() as int * p <= q * p);
            vstd::arithmetic::div_mod::lemma_mod_bound(x, p);
            assert(x == p * q + r);
        }
    }
    lemma_frames_linear(frames, q);
    lemma_basic_div(s, p);
    lemma_small_mod(start_off, PAGE_SIZE as nat);
    assert(spec_phys_addr(frames, start_off, 0) == frames[0] + s);
    assert(spec_phys_addr(frames, start_off, i) == frames[0] + p * q + r);
    assert(p * q == q * p) by {
        vstd::arithmetic::mul::lemma_mul_is_commutative(p, q);
    }
}

} // verus!
