//! Boot-time memory initialisation: the initialised data is copied from its
//! load image, the uninitialised data is cleared. With them stand the two
//! memory routines that compiled code calls by name.

use vstd::prelude::*;

verus! {

/// Clears every byte of `bss`.
pub fn zero_out_bss(bss: &mut [u8])
    ensures
        final(bss)@.len() == old(bss)@.len(),
        forall|i: int| 0 <= i < final(bss)@.len() ==> final(bss)@[i] == 0,
{
    let len = bss.len();
    let mut at: usize = 0;
    while at < len
        invariant
            at <= len,
            bss@.len() == len,
            forall|i: int| 0 <= i < at ==> bss@[i] == 0,
        decreases len - at,
    {
        bss[at] = 0;
        at = at + 1;
    }
}

/// Fills `data` from the start of its load image `data_load`, which holds at
/// least as many bytes as `data`.
pub fn load_data(data: &mut [u8], data_load: &[u8])
    requires
        old(data)@.len() <= data_load@.len(),
    ensures
        final(data)@ == data_load@.subrange(0, old(data)@.len() as int),
{
    let len = data.len();
    let mut at: usize = 0;
    while at < len
        invariant
            at <= len,
            len <= data_load@.len(),
            data@.len() == len,
            forall|i: int| 0 <= i < at ==> data@[i] == data_load@[i],
        decreases len - at,
    {
        data[at] = data_load[at];
        at = at + 1;
    }
    assert(data@ =~= data_load@.subrange(0, len as int));
}

/// Initialises memory at boot: `data` from its load image, `bss` to zero.
pub fn memory(data: &mut [u8], data_load: &[u8], bss: &mut [u8])
    requires
        old(data)@.len() <= data_load@.len(),
    ensures
        final(data)@ == data_load@.subrange(0, old(data)@.len() as int),
        final(bss)@.len() == old(bss)@.len(),
        forall|i: int| 0 <= i < final(bss)@.len() ==> final(bss)@[i] == 0,
{
    load_data(data, data_load);
    zero_out_bss(bss);
}

/// The lengths of the initialised and of the uninitialised data, from the
/// addresses at which each starts and ends.
pub fn info(data_start: usize, data_end: usize, bss_start: usize, bss_end: usize) -> (lens: (
    usize,
    usize,
))
    requires
        data_start <= data_end,
        bss_start <= bss_end,
    ensures
        lens.0 == data_end - data_start,
        lens.1 == bss_end - bss_start,
{
    (data_end - data_start, bss_end - bss_start)
}

/// Copies the first `n` bytes of `src` over the first `n` bytes of `dst` and
/// leaves the rest of `dst` as it was.
pub fn memcpy(dst: &mut [u8], src: &[u8], n: usize)
    requires
        n <= old(dst)@.len(),
        n <= src@.len(),
    ensures
        final(dst)@ == src@.subrange(0, n as int) + old(dst)@.subrange(n as int, old(dst)@.len() as int),
{
    let ghost before = dst@;
    let mut at: usize = 0;
    while at < n
        invariant
            at <= n,
            n <= src@.len(),
            dst@.len() == before.len(),
            n <= dst@.len(),
            forall|i: int| 0 <= i < at ==> dst@[i] == src@[i],
            forall|i: int| at <= i < dst@.len() ==> dst@[i] == before[i],
        decreases n - at,
    {
        dst[at] = src[at];
        at = at + 1;
    }
    assert(dst@ =~= src@.subrange(0, n as int) + before.subrange(n as int, before.len() as int));
}

/// Stores `desired` in `cell` and returns what it held.
pub fn __sync_lock_test_and_set_1(cell: &mut u8, desired: u8) -> (held: u8)
    ensures
        held == *old(cell),
        *final(cell) == desired,
{
    let held = *cell;
    *cell = desired;
    held
}

} // verus!
