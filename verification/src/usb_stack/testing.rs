//! A packet made from a byte slice, for exercising the stack without hardware.

use vstd::prelude::*;

use crate::driver::UsbPacket;
use vstd::math::min;

verus! {

/// A packet whose bytes come from a slice.
#[derive(Debug)]
pub struct FakeUsbPacket<'a> {
    pub data: &'a [u8],
    pub ep: usize,
}

/// Copies as much of `data` as fits into the start of `dest` and returns the copied part.
fn copy_prefix<'b>(data: &[u8], dest: &'b mut [u8]) -> (r: &'b [u8])
    ensures
        r@ == data@.take(min(data@.len() as int, old(dest)@.len() as int)),
        final(dest)@ == r@ + old(dest)@.skip(r@.len() as int),
{
    let copy_len: usize = if data.len() < dest.len() { data.len() } else { dest.len() };
    let ghost d0 = dest@;
    let mut i: usize = 0;
    while i < copy_len
        invariant
            i <= copy_len,
            copy_len <= data@.len(),
            copy_len <= d0.len(),
            dest@.len() == d0.len(),
            dest@ == data@.take(i as int) + d0.skip(i as int),
        decreases copy_len - i,
    {
        dest[i] = data[i];
        assert(dest@ =~= data@.take(i + 1) + d0.skip(i + 1));
        i += 1;
    }
    let out: &'b [u8] = dest;
    let r = vstd::slice::slice_subrange(out, 0, copy_len);
    assert(r@ =~= data@.take(copy_len as int));
    assert(out@ =~= r@ + d0.skip(copy_len as int));
    r
}

impl<'a> UsbPacket for FakeUsbPacket<'a> {
    open spec fn spec_data(&self) -> Seq<u8> {
        self.data@
    }

    open spec fn spec_endpoint(&self) -> usize {
        self.ep
    }

    fn endpoint_index(&self) -> (r: usize) {
        self.ep
    }

    fn len(&self) -> (r: usize) {
        self.data.len()
    }

    fn copy_to(self, dest: &mut [u8]) -> (r: &[u8]) {
        copy_prefix(self.data, dest)
    }

    fn copy_to_unaligned(self, dest: &mut [u8]) -> (r: &[u8]) {
        copy_prefix(self.data, dest)
    }
}

} // verus!
