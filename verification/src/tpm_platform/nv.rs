//! NV storage of the TPM, held in RAM.

use vstd::prelude::*;

use crate::tpm_platform::{PlatformState, TpmPlatform, NV_RAM_SIZE};

verus! {

/// Whether the NV storage can take a write.
#[derive(Clone, Copy, PartialEq, Eq, Structural, Debug)]
pub enum NvReadyState {
    Ready,
    WriteFailure,
    RateLimit,
}

/// How a region of NV compares with given bytes.
#[derive(Clone, Copy, PartialEq, Eq, Structural, Debug)]
pub enum NvCompare {
    Same,
    Different,
    Invalid,
}

/// `[offset, offset + size)` lies inside the NV storage.
pub open spec fn nv_in_range(offset: int, size: int) -> bool {
    0 <= offset && 0 <= size && offset + size <= NV_RAM_SIZE
}

/// Whether `[offset, offset + size)` lies inside the NV storage.
pub fn region_in_range(offset: u32, size: u32) -> (r: bool)
    ensures
        r == nv_in_range(offset as int, size as int),
{
    offset as u64 + size as u64 <= NV_RAM_SIZE as u64
}

/// The bytes of `ram` in `[offset, offset + size)`.
pub open spec fn spec_nv_read(ram: Seq<u8>, offset: int, size: int) -> Seq<u8> {
    ram.subrange(offset, offset + size)
}

/// `ram` with `data` written at `offset`.
pub open spec fn spec_nv_write(ram: Seq<u8>, offset: int, data: Seq<u8>) -> Seq<u8> {
    Seq::new(
        ram.len(),
        |i: int|
            if offset <= i < offset + data.len() {
                data[i - offset]
            } else {
                ram[i]
            },
    )
}

/// `ram` with `[offset, offset + size)` set to `value`.
pub open spec fn spec_nv_fill(ram: Seq<u8>, offset: int, size: int, value: u8) -> Seq<u8> {
    Seq::new(ram.len(), |i: int| if offset <= i < offset + size { value } else { ram[i] })
}

/// `ram` with the `size` bytes at `src` copied to `dest` (the ranges may overlap).
pub open spec fn spec_nv_move(ram: Seq<u8>, src: int, dest: int, size: int) -> Seq<u8> {
    Seq::new(ram.len(), |i: int| if dest <= i < dest + size { ram[src + (i - dest)] } else { ram[i] })
}

/// What comparing `data` with the region `[offset, offset + size)` gives.
pub open spec fn spec_nv_compare(ram: Seq<u8>, offset: int, size: int, data: Seq<u8>) -> NvCompare {
    if !nv_in_range(offset, size) {
        NvCompare::Invalid
    } else if spec_nv_read(ram, offset, size) == data {
        NvCompare::Same
    } else {
        NvCompare::Different
    }
}

/// Every field but the NV contents and the manufacturing flag is equal.
pub open spec fn same_flags(a: PlatformState, b: PlatformState) -> bool {
    &&& a.power_lost == b.power_lost
    &&& a.timer_reset == b.timer_reset
    &&& a.timer_stopped == b.timer_stopped
    &&& a.nv_enabled == b.nv_enabled
    &&& a.locality == b.locality
}

/// NV storage operations.
pub trait TpmNv {
    /// Enables NV access. Returns 0.
    fn enable(state: &mut PlatformState) -> i32;

    /// Disables NV access.
    fn disable(state: &mut PlatformState);

    /// Copies `size` bytes at `offset` into `data`; false where the range
    /// is outside the storage.
    fn read(state: &PlatformState, offset: u32, size: u32, data: &mut [u8]) -> bool
        requires
            state.wf(),
            nv_in_range(offset as int, size as int) ==> old(data)@.len() == size,
    ;

    /// Writes `data` (of `size` bytes) at `offset`; false where the range
    /// is outside the storage.
    fn write(state: &mut PlatformState, offset: u32, size: u32, data: &[u8]) -> (r: bool)
        requires
            old(state).wf(),
            nv_in_range(offset as int, size as int) ==> data@.len() == size,
        ensures
            final(state).wf(),
    ;

    /// Makes writes durable. Returns 0.
    fn commit() -> i32;

    /// Erases `size` bytes at `offset` to 0xff. Returns 0, or -1 where the
    /// range is outside the storage.
    fn clear(state: &mut PlatformState, offset: u32, size: u32) -> (r: i32)
        requires
            old(state).wf(),
        ensures
            final(state).wf(),
    ;

    /// Copies `size` bytes from `src_offset` to `dest_offset`. Returns 0, or
    /// -1 where either range is outside the storage.
    fn move_block(state: &mut PlatformState, src_offset: u32, dest_offset: u32, size: u32) -> (r: i32)
        requires
            old(state).wf(),
        ensures
            final(state).wf(),
    ;

    /// Whether the storage can take a write.
    fn get_ready_state() -> NvReadyState;

    /// Compares the region `[offset, offset + size)` with `data`.
    fn get_changed_status(state: &PlatformState, offset: u32, size: u32, data: &[u8]) -> NvCompare
        requires
            state.wf(),
    ;

    /// Whether the TPM still has to be manufactured.
    fn needs_manufacture(state: &PlatformState) -> bool;
}

impl TpmNv for TpmPlatform {
    fn enable(state: &mut PlatformState) -> (r: i32)
        ensures
            r == 0,
            final(state).nv_enabled,
            final(state).nv_ram@ == old(state).nv_ram@,
            final(state).manufacture_needed == old(state).manufacture_needed,
            final(state).power_lost == old(state).power_lost,
            final(state).timer_reset == old(state).timer_reset,
            final(state).timer_stopped == old(state).timer_stopped,
            final(state).locality == old(state).locality,
    {
        state.nv_enabled = true;
        0
    }

    fn disable(state: &mut PlatformState)
        ensures
            !final(state).nv_enabled,
            final(state).nv_ram@ == old(state).nv_ram@,
            final(state).manufacture_needed == old(state).manufacture_needed,
            final(state).power_lost == old(state).power_lost,
            final(state).timer_reset == old(state).timer_reset,
            final(state).timer_stopped == old(state).timer_stopped,
            final(state).locality == old(state).locality,
    {
        state.nv_enabled = false;
    }

    fn read(state: &PlatformState, offset: u32, size: u32, data: &mut [u8]) -> (r: bool)
        ensures
            r == nv_in_range(offset as int, size as int),
            r ==> final(data)@ == spec_nv_read(state.nv_ram@, offset as int, size as int),
            !r ==> final(data)@ == old(data)@,
    {
        let end: u64 = offset as u64 + size as u64;
        if end > NV_RAM_SIZE as u64 {
            return false;
        }
        let start: usize = offset as usize;
        let n: usize = size as usize;
        let mut i: usize = 0;
        while i < n
            invariant
                i <= n,
                n == size,
                start == offset,
                start + n <= state.nv_ram@.len(),
                state.nv_ram@.len() == NV_RAM_SIZE,
                data@.len() == n,
                forall|j: int| 0 <= j < i ==> data@[j] == state.nv_ram@[start + j],
            decreases n - i,
        {
            data[i] = state.nv_ram[start + i];
            i += 1;
        }
        assert(data@ =~= spec_nv_read(state.nv_ram@, offset as int, size as int));
        true
    }

    fn write(state: &mut PlatformState, offset: u32, size: u32, data: &[u8]) -> (r: bool)
        ensures
            r == nv_in_range(offset as int, size as int),
            r ==> final(state).nv_ram@ == spec_nv_write(old(state).nv_ram@, offset as int, data@),
            r ==> !final(state).manufacture_needed,
            r ==> same_flags(*final(state), *old(state)),
            !r ==> *final(state) == *old(state),
    {
        let end: u64 = offset as u64 + size as u64;
        if end > NV_RAM_SIZE as u64 {
            return false;
        }
        let start: usize = offset as usize;
        let n: usize = size as usize;
        let ghost ram0 = state.nv_ram@;
        let mut i: usize = 0;
        while i < n
            invariant
                i <= n,
                n == size,
                start == offset,
                start + n <= ram0.len(),
                ram0.len() == NV_RAM_SIZE,
                data@.len() == n,
                state.nv_ram@.len() == ram0.len(),
                forall|j: int|
                    0 <= j < ram0.len() ==> state.nv_ram@[j] == (if start <= j < start + i {
                        data@[j - start]
                    } else {
                        ram0[j]
                    }),
                same_flags(*state, *old(state)),
                state.manufacture_needed == old(state).manufacture_needed,
            decreases n - i,
        {
            state.nv_ram.set(start + i, data[i]);
            i += 1;
        }
        state.manufacture_needed = false;
        assert(state.nv_ram@ =~= spec_nv_write(ram0, offset as int, data@));
        true
    }

    fn commit() -> (r: i32)
        ensures
            r == 0,
    {
        0
    }

    fn clear(state: &mut PlatformState, offset: u32, size: u32) -> (r: i32)
        ensures
            r == (if nv_in_range(offset as int, size as int) { 0i32 } else { -1i32 }),
            r == 0 ==> final(state).nv_ram@ == spec_nv_fill(
                old(state).nv_ram@,
                offset as int,
                size as int,
                0xff,
            ),
            r == 0 ==> same_flags(*final(state), *old(state)),
            r == 0 ==> final(state).manufacture_needed == old(state).manufacture_needed,
            r != 0 ==> *final(state) == *old(state),
    {
        let end: u64 = offset as u64 + size as u64;
        if end > NV_RAM_SIZE as u64 {
            return -1;
        }
        let start: usize = offset as usize;
        let n: usize = size as usize;
        let ghost ram0 = state.nv_ram@;
        let mut i: usize = 0;
        while i < n
            invariant
                i <= n,
                n == size,
                start == offset,
                start + n <= ram0.len(),
                ram0.len() == NV_RAM_SIZE,
                state.nv_ram@.len() == ram0.len(),
                forall|j: int|
                    0 <= j < ram0.len() ==> state.nv_ram@[j] == (if start <= j < start + i {
                        0xffu8
                    } else {
                        ram0[j]
                    }),
                same_flags(*state, *old(state)),
                state.manufacture_needed == old(state).manufacture_needed,
            decreases n - i,
        {
            state.nv_ram.set(start + i, 0xff);
            i += 1;
        }
        assert(state.nv_ram@ =~= spec_nv_fill(ram0, offset as int, size as int, 0xff));
        0
    }

    fn move_block(state: &mut PlatformState, src_offset: u32, dest_offset: u32, size: u32) -> (r: i32)
        ensures
            r == (if nv_in_range(src_offset as int, size as int) && nv_in_range(
                dest_offset as int,
                size as int,
            ) {
                0i32
            } else {
                -1i32
            }),
            r == 0 ==> final(state).nv_ram@ == spec_nv_move(
                old(state).nv_ram@,
                src_offset as int,
                dest_offset as int,
                size as int,
            ),
            r == 0 ==> same_flags(*final(state), *old(state)),
            r == 0 ==> final(state).manufacture_needed == old(state).manufacture_needed,
            r != 0 ==> *final(state) == *old(state),
    {
        let src_end: u64 = src_offset as u64 + size as u64;
        let dest_end: u64 = dest_offset as u64 + size as u64;
        if src_end > NV_RAM_SIZE as u64 || dest_end > NV_RAM_SIZE as u64 {
            return -1;
        }
        let src: usize = src_offset as usize;
        let dest: usize = dest_offset as usize;
        let n: usize = size as usize;
        let ghost ram0 = state.nv_ram@;
        let mut tmp: Vec<u8> = Vec::new();
        let mut i: usize = 0;
        while i < n
            invariant
                i <= n,
                src + n <= ram0.len(),
                ram0.len() == NV_RAM_SIZE,
                state.nv_ram@ == ram0,
                tmp@.len() == i,
                forall|j: int| 0 <= j < i ==> tmp@[j] == ram0[src + j],
            decreases n - i,
        {
            tmp.push(state.nv_ram[src + i]);
            i += 1;
        }
        let mut k: usize = 0;
        while k < n
            invariant
                k <= n,
                n == size,
                src == src_offset,
                dest == dest_offset,
                dest + n <= ram0.len(),
                src + n <= ram0.len(),
                ram0.len() == NV_RAM_SIZE,
                tmp@.len() == n,
                forall|j: int| 0 <= j < n ==> tmp@[j] == ram0[src + j],
                state.nv_ram@.len() == ram0.len(),
                forall|j: int|
                    0 <= j < ram0.len() ==> state.nv_ram@[j] == (if dest <= j < dest + k {
                        ram0[src + (j - dest)]
                    } else {
                        ram0[j]
                    }),
                same_flags(*state, *old(state)),
                state.manufacture_needed == old(state).manufacture_needed,
            decreases n - k,
        {
            state.nv_ram.set(dest + k, tmp[k]);
            k += 1;
        }
        assert(state.nv_ram@ =~= spec_nv_move(
            ram0,
            src_offset as int,
            dest_offset as int,
            size as int,
        ));
        0
    }

    /// RAM storage is always ready.
    fn get_ready_state() -> (r: NvReadyState)
        ensures
            r == NvReadyState::Ready,
    {
        NvReadyState::Ready
    }

    fn get_changed_status(state: &PlatformState, offset: u32, size: u32, data: &[u8]) -> (r:
        NvCompare)
        ensures
            r == spec_nv_compare(state.nv_ram@, offset as int, size as int, data@),
    {
        let end: u64 = offset as u64 + size as u64;
        if end > NV_RAM_SIZE as u64 {
            return NvCompare::Invalid;
        }
        let start: usize = offset as usize;
        let n: usize = size as usize;
        let ghost region = spec_nv_read(state.nv_ram@, offset as int, size as int);
        if data.len() != n {
            assert(region.len() != data@.len());
            return NvCompare::Different;
        }
        let mut i: usize = 0;
        while i < n
            invariant
                i <= n,
                n == size,
                start == offset,
                start + n <= state.nv_ram@.len(),
                state.nv_ram@.len() == NV_RAM_SIZE,
                nv_in_range(offset as int, size as int),
                data@.len() == n,
                region == state.nv_ram@.subrange(start as int, start + n),
                forall|j: int| 0 <= j < i ==> data@[j] == region[j],
            decreases n - i,
        {
            if data[i] != state.nv_ram[start + i] {
                assert(region[i as int] != data@[i as int]);
                return NvCompare::Different;
            }
            i += 1;
        }
        assert(region =~= data@);
        NvCompare::Same
    }

    fn needs_manufacture(state: &PlatformState) -> (r: bool)
        ensures
            r == state.manufacture_needed,
    {
        state.manufacture_needed
    }
}

/// What a write puts into the storage, a read of the same range gives back;
/// the bytes outside that range keep their values.
pub proof fn lemma_nv_read_after_write(ram: Seq<u8>, offset: int, data: Seq<u8>)
    requires
        ram.len() == NV_RAM_SIZE,
        nv_in_range(offset, data.len() as int),
    ensures
        spec_nv_read(spec_nv_write(ram, offset, data), offset, data.len() as int) == data,
        spec_nv_write(ram, offset, data).len() == ram.len(),
        forall|i: int|
            0 <= i < ram.len() && !(offset <= i < offset + data.len()) ==> spec_nv_write(
                ram,
                offset,
                data,
            )[i] == ram[i],
{
    assert(spec_nv_read(spec_nv_write(ram, offset, data), offset, data.len() as int) =~= data);
}

/// A write leaves every read of a range that it does not touch as it was,
/// so what was written reads back after writes elsewhere.
pub proof fn lemma_nv_read_after_other_write(ram: Seq<u8>, offset: int, size: int, other: int, data: Seq<u8>)
    requires
        ram.len() == NV_RAM_SIZE,
        nv_in_range(offset, size),
        nv_in_range(other, data.len() as int),
        other + data.len() <= offset || offset + size <= other,
    ensures
        spec_nv_read(spec_nv_write(ram, other, data), offset, size) == spec_nv_read(ram, offset, size),
{
    assert(spec_nv_read(spec_nv_write(ram, other, data), offset, size) =~= spec_nv_read(ram, offset, size));
}

/// After a write, comparing the written range with the same bytes reports
/// that nothing changed.
pub proof fn lemma_nv_compare_after_write(ram: Seq<u8>, offset: int, data: Seq<u8>)
    requires
        ram.len() == NV_RAM_SIZE,
        nv_in_range(offset, data.len() as int),
    ensures
        spec_nv_compare(spec_nv_write(ram, offset, data), offset, data.len() as int, data)
            == NvCompare::Same,
{
    lemma_nv_read_after_write(ram, offset, data);
}

/// After a clear, every byte of the cleared range reads as 0xff; the rest
/// is untouched.
pub proof fn lemma_nv_read_after_clear(ram: Seq<u8>, offset: int, size: int)
    requires
        ram.len() == NV_RAM_SIZE,
        nv_in_range(offset, size),
    ensures
        spec_nv_read(spec_nv_fill(ram, offset, size, 0xff), offset, size) == Seq::new(
            size as nat,
            |i: int| 0xffu8,
        ),
        forall|i: int|
            0 <= i < ram.len() && !(offset <= i < offset + size) ==> spec_nv_fill(
                ram,
                offset,
                size,
                0xff,
            )[i] == ram[i],
{
    assert(spec_nv_read(spec_nv_fill(ram, offset, size, 0xff), offset, size) =~= Seq::new(
        size as nat,
        |i: int| 0xffu8,
    ));
}

/// After a move, the destination range holds what the source range held
/// before, also where the two overlap.
pub proof fn lemma_nv_read_after_move(ram: Seq<u8>, src: int, dest: int, size: int)
    requires
        ram.len() == NV_RAM_SIZE,
        nv_in_range(src, size),
        nv_in_range(dest, size),
    ensures
        spec_nv_read(spec_nv_move(ram, src, dest, size), dest, size) == spec_nv_read(
            ram,
            src,
            size,
        ),
{
    assert(spec_nv_read(spec_nv_move(ram, src, dest, size), dest, size) =~= spec_nv_read(
        ram,
        src,
        size,
    ));
}

} // verus!
