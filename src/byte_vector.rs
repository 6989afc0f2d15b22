//! Owned byte buffers handed across the boundary as opaque handles.
use vstd::prelude::*;

verus! {

/// An owned, contiguous sequence of bytes whose length fits the boundary's
/// unsigned 32-bit element count.
pub struct ByteVector(Vec<u8>);

impl View for ByteVector {
    type V = Seq<u8>;

    closed spec fn view(&self) -> Seq<u8> {
        self.0@
    }
}

impl ByteVector {
    #[verifier::type_invariant]
    closed spec fn fits_count(self) -> bool {
        self.0@.len() <= u32::MAX
    }

    /// Wraps bytes that are already owned.
    pub fn from_vec(bytes: Vec<u8>) -> (r: ByteVector)
        requires
            bytes@.len() <= u32::MAX,
        ensures
            r@ == bytes@,
    {
        ByteVector(bytes)
    }

    /// A copy of the bytes.
    pub fn to_vec(&self) -> (r: Vec<u8>)
        ensures
            r@ == self@,
    {
        self.0.clone()
    }
}

/// The length that a possibly-null buffer handle reports.
pub open spec fn length_of(v: Option<&ByteVector>) -> nat {
    match v {
        Some(b) => b@.len(),
        None => 0,
    }
}

/// The byte that a possibly-null buffer handle reports at `position`.
pub open spec fn byte_at(v: Option<&ByteVector>, position: int) -> u8 {
    match v {
        Some(b) => if 0 <= position < b@.len() {
            b@[position]
        } else {
            0
        },
        None => 0,
    }
}

/// Copies `element_count` bytes out of `byte_array` into a new buffer.
/// A null source, or one that holds fewer than `element_count` bytes, gives a null handle.
pub fn byte_vector_create(byte_array: Option<&[u8]>, element_count: u32) -> (r: Option<ByteVector>)
    ensures
        r is Some <==> (byte_array is Some && element_count <= byte_array->0@.len()),
        r is Some ==> r->0@ == byte_array->0@.subrange(0, element_count as int),
{
    match byte_array {
        None => None,
        Some(source) => {
            if source.len() < element_count as usize {
                return None;
            }
            let mut bytes: Vec<u8> = Vec::new();
            let mut i: usize = 0;
            while i < element_count as usize
                invariant
                    element_count <= source@.len(),
                    i <= element_count,
                    bytes@ == source@.subrange(0, i as int),
                decreases element_count - i,
            {
                bytes.push(source[i]);
                i = i + 1;
            }
            Some(ByteVector(bytes))
        },
    }
}

/// Releases a buffer. A null handle is accepted and nothing happens.
pub fn byte_vector_destroy(bytes: Option<ByteVector>) {
    let _ = bytes;
}

/// The byte at `position`, or zero for a null handle or a position at or past the end.
pub fn byte_vector_get_at(ptr: Option<&ByteVector>, position: u32) -> (r: u8)
    ensures
        r == byte_at(ptr, position as int),
{
    match ptr {
        None => 0,
        Some(v) => {
            if (position as usize) < v.0.len() {
                v.0[position as usize]
            } else {
                0
            }
        },
    }
}

/// The number of bytes in the buffer, or zero for a null handle.
pub fn byte_vector_get_length(vec: Option<&ByteVector>) -> (r: u32)
    ensures
        r == length_of(vec),
{
    match vec {
        None => 0,
        Some(v) => {
            proof {
                use_type_invariant(v);
            }
            v.0.len() as u32
        },
    }
}

/// Whatever bytes a buffer was made from, it reports their number as its
/// length and each of them at its position.
pub proof fn lemma_buffer_reads_back(b: Seq<u8>, v: ByteVector)
    requires
        v@ == b,
    ensures
        length_of(Some(&v)) == b.len(),
        forall|i: int| 0 <= i < b.len() ==> byte_at(Some(&v), i) == b[i],
{
}

/// A read before the start or at or past the end of a buffer, or of a null
/// handle, gives zero.
pub proof fn lemma_out_of_range_reads_zero(v: Option<&ByteVector>, position: int)
    requires
        position < 0 || position >= length_of(v),
    ensures
        byte_at(v, position) == 0,
{
}

} // verus!
