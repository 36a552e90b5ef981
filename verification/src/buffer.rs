//! Reversal of caller-supplied byte buffers.
//!
//! A buffer arrives as a slice together with the number of leading elements
//! to work on. The slice may be longer than that count; what lies behind the
//! count is never read and never written.

use vstd::prelude::*;

verus! {

/// `data` with its first `len` elements in reverse order and the rest as it
/// was.
pub open spec fn reversed_prefix(data: Seq<u8>, len: int) -> Seq<u8>
    recommends
        0 <= len <= data.len(),
{
    Seq::new(
        data.len(),
        |i: int|
            if i < len {
                data[len - 1 - i]
            } else {
                data[i]
            },
    )
}

/// `output` after the first `len` elements of `input` were written into it
/// in reverse order: element `i` of the input lands at `len - 1 - i`.
pub open spec fn reversed_into(input: Seq<u8>, output: Seq<u8>, len: int) -> Seq<u8>
    recommends
        0 <= len <= input.len(),
        len <= output.len(),
{
    Seq::new(
        output.len(),
        |i: int|
            if i < len {
                input[len - 1 - i]
            } else {
                output[i]
            },
    )
}

/// Writes the first `len` bytes of `data_in` into `data_out` in reverse
/// order. `data_in` is only read; of `data_out` only the first `len` bytes
/// change.
pub fn inverse_with_second_array(data_in: &[u8], data_out: &mut [u8], len: usize)
    requires
        len <= data_in@.len(),
        len <= old(data_out)@.len(),
    ensures
        final(data_out)@ == reversed_into(data_in@, old(data_out)@, len as int),
{
    let mut i: usize = 0;
    while i < len
        invariant
            i <= len,
            len <= data_in@.len(),
            data_out@.len() == old(data_out)@.len(),
            len <= data_out@.len(),
            forall|k: int| len - i <= k < len ==> data_out@[k] == data_in@[len - 1 - k],
            forall|k: int|
                0 <= k < data_out@.len() && !(len - i <= k < len) ==> data_out@[k] == old(
                    data_out,
                )@[k],
        decreases len - i,
    {
        data_out[len - i - 1] = data_in[i];
        i += 1;
    }
    assert(data_out@ =~= reversed_into(data_in@, old(data_out)@, len as int));
}

/// Reverses the first `len` bytes of `data` in place. With `len == 0`
/// nothing is written.
pub fn inverse_in_place(data: &mut [u8], len: usize)
    requires
        len <= old(data)@.len(),
    ensures
        final(data)@ == reversed_prefix(old(data)@, len as int),
{
    let mut lo: usize = 0;
    let mut hi: usize = len;
    while lo + 1 < hi
        invariant
            lo <= hi <= len,
            lo + hi == len,
            len <= data@.len(),
            data@.len() == old(data)@.len(),
            forall|k: int|
                0 <= k < lo || hi <= k < len ==> data@[k] == old(data)@[len - 1 - k],
            forall|k: int| lo <= k < hi || len <= k < data@.len() ==> data@[k] == old(data)@[k],
        decreases hi - lo,
    {
        let front: u8 = data[lo];
        let back: u8 = data[hi - 1];
        data[lo] = back;
        data[hi - 1] = front;
        lo += 1;
        hi -= 1;
    }
    assert(data@ =~= reversed_prefix(old(data)@, len as int));
}

/// Reversing the same prefix twice gives the buffer back.
pub proof fn reversed_prefix_involution(data: Seq<u8>, len: int)
    requires
        0 <= len <= data.len(),
    ensures
        reversed_prefix(reversed_prefix(data, len), len) == data,
{
    assert(reversed_prefix(reversed_prefix(data, len), len) =~= data);
}

/// Reversing a prefix of no elements changes nothing.
pub proof fn reversed_prefix_of_nothing(data: Seq<u8>)
    ensures
        reversed_prefix(data, 0) == data,
{
    assert(reversed_prefix(data, 0) =~= data);
}

/// Reversing a whole buffer is the reversal of the sequence it holds.
pub proof fn reversed_prefix_of_all(data: Seq<u8>)
    ensures
        reversed_prefix(data, data.len() as int) == data.reverse(),
{
    assert(reversed_prefix(data, data.len() as int) =~= data.reverse());
}

/// Reversing `source` into a first buffer, and that buffer into a second one,
/// reproduces the first `len` bytes of `source` at the front of the second
/// buffer, whose remaining bytes stay as they were.
pub proof fn reversed_into_twice(source: Seq<u8>, first: Seq<u8>, second: Seq<u8>, len: int)
    requires
        0 <= len <= source.len(),
        len <= first.len(),
        len <= second.len(),
    ensures
        reversed_into(reversed_into(source, first, len), second, len) == source.subrange(0, len)
            + second.subrange(len, second.len() as int),
{
    assert(reversed_into(reversed_into(source, first, len), second, len) =~= source.subrange(
        0,
        len,
    ) + second.subrange(len, second.len() as int));
}

/// Reversing a buffer into a copy of itself gives what reversing it in place
/// gives.
pub proof fn reversed_into_self(data: Seq<u8>, len: int)
    requires
        0 <= len <= data.len(),
    ensures
        reversed_into(data, data, len) == reversed_prefix(data, len),
{
    assert(reversed_into(data, data, len) =~= reversed_prefix(data, len));
}

} // verus!
