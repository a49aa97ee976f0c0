//! The fixed-width address type of the overlay and its XOR proximity metric.

use crate::wire::{
    lemma_read_bytes_field, lemma_read_u64_field, lemma_u64_field_len, read_bytes_field,
    read_u64_field,
    spec_bytes_field, spec_read_bytes, spec_read_u64, spec_u64_field, write_bytes_field,
    write_u64_field, DecodeError, IDENTIFIER_TAG,
};
use vstd::prelude::*;
use vstd::std_specs::cmp::PartialEqSpec;

verus! {

/// Width, in bytes, of every address in the overlay's address space.
pub const NAME_TYPE_LEN: usize = 64;

/// Returns true if both slices are equal in length, and have equal contents.
pub fn slice_equal<T: PartialEq>(lhs: &[T], rhs: &[T]) -> (r: bool)
    ensures
        T::obeys_eq_spec() ==> (r <==> (lhs@.len() == rhs@.len() && (forall|i: int|
            0 <= i < lhs@.len() ==> #[trigger] lhs@[i].eq_spec(&rhs@[i])))),
{
    if lhs.len() != rhs.len() {
        return false;
    }
    let mut i: usize = 0;
    while i < lhs.len()
        invariant
            lhs@.len() == rhs@.len(),
            i <= lhs@.len(),
            T::obeys_eq_spec() ==> (forall|j: int|
                0 <= j < i ==> #[trigger] lhs@[j].eq_spec(&rhs@[j])),
        decreases lhs@.len() - i,
    {
        if !(lhs[i] == rhs[i]) {
            return false;
        }
        i += 1;
    }
    true
}

/// Relies on `rand::random`: one byte drawn from the process-wide
/// pseudo-random generator. Nothing is promised of the result.
#[verifier::external_body]
fn random_byte() -> u8 {
    rand::random()
}

/// Exact-length conversion of a dynamic collection: hands the elements back
/// unchanged when their number matches `size`, and nothing on a mismatch.
pub fn convert_to_array<T>(container: Vec<T>, size: usize) -> (r: Option<Vec<T>>)
    ensures
        container@.len() == size ==> r == Some(container),
        container@.len() != size ==> r is None,
{
    if container.len() == size {
        Some(container)
    } else {
        None
    }
}

/// A position in the overlay's address space: exactly [`NAME_TYPE_LEN`] bytes.
///
/// Equality is bytewise; the all-zero value is a reserved sentinel and is the
/// only invalid address. There is no total order: addresses are only compared
/// for proximity relative to a target, by [`NameType::closer_to_target`].
#[derive(Clone, Copy, Debug)]
#[verifier::ext_equal]
pub struct NameType(pub [u8; NAME_TYPE_LEN]);

impl View for NameType {
    type V = Seq<u8>;

    open spec fn view(&self) -> Seq<u8> {
        self.0@
    }
}

/// An address is valid unless every one of its bytes is zero.
pub open spec fn is_valid_spec(s: Seq<u8>) -> bool {
    exists|i: int| 0 <= i < s.len() && s[i] != 0
}

/// `i` is the first index at which `a` and `b` differ in XOR distance from `t`.
pub open spec fn first_distance_difference(a: Seq<u8>, b: Seq<u8>, t: Seq<u8>, i: int) -> bool {
    &&& 0 <= i < NAME_TYPE_LEN
    &&& (a[i] ^ t[i]) != (b[i] ^ t[i])
    &&& forall|j: int| 0 <= j < i ==> (a[j] ^ t[j]) == (b[j] ^ t[j])
}

/// The XOR proximity order relative to `t`: `a` is closer than `b` iff, at the
/// first (most significant) byte where their XOR distances from `t` differ,
/// `a`'s distance is the smaller. If every byte ties there is no such index
/// and `a` is not closer.
pub open spec fn closer_to_target_spec(a: Seq<u8>, b: Seq<u8>, t: Seq<u8>) -> bool {
    exists|i: int| #[trigger] first_distance_difference(a, b, t, i) && (a[i] ^ t[i]) < (b[i] ^ t[i])
}

impl NameType {
    /// Proximity comparison used to rank candidates in the overlay: scans the
    /// bytes from most significant to least and decides at the first index
    /// where the XOR distances from `target` differ.
    pub fn closer_to_target(lhs: &NameType, rhs: &NameType, target: &NameType) -> (r: bool)
        ensures
            r == closer_to_target_spec(lhs@, rhs@, target@),
    {
        let mut i: usize = 0;
        while i < NAME_TYPE_LEN
            invariant
                i <= NAME_TYPE_LEN,
                forall|j: int| 0 <= j < i ==> (lhs@[j] ^ target@[j]) == (rhs@[j] ^ target@[j]),
            decreases NAME_TYPE_LEN - i,
        {
            let res_0 = lhs.0[i] ^ target.0[i];
            let res_1 = rhs.0[i] ^ target.0[i];
            if res_0 != res_1 {
                proof {
                    assert(first_distance_difference(lhs@, rhs@, target@, i as int));
                    assert forall|k: int|
                        #[trigger] first_distance_difference(lhs@, rhs@, target@, k)
                        implies k == i as int by {
                        if k < i as int {
                            assert((lhs@[k] ^ target@[k]) == (rhs@[k] ^ target@[k]));
                        }
                    }
                }
                return res_0 < res_1;
            }
            i += 1;
        }
        proof {
            assert forall|k: int| !(#[trigger] first_distance_difference(lhs@, rhs@, target@, k))
                by {
                if 0 <= k < NAME_TYPE_LEN {
                    assert((lhs@[k] ^ target@[k]) == (rhs@[k] ^ target@[k]));
                }
            }
        }
        false
    }

    /// Constructs an address from exactly [`NAME_TYPE_LEN`] raw bytes; the
    /// fixed-size parameter type makes any other width unrepresentable.
    pub fn new(id: [u8; NAME_TYPE_LEN]) -> (r: NameType)
        ensures
            r == NameType(id),
            r@ == id@,
    {
        NameType(id)
    }

    /// Read-only view of the underlying bytes.
    pub fn get_id(&self) -> (r: [u8; NAME_TYPE_LEN])
        ensures
            r@ == self@,
    {
        self.0
    }

    /// A fresh address of [`NAME_TYPE_LEN`] independently drawn random bytes.
    /// Nothing can be promised of the value: two calls may (and almost
    /// always do) return different addresses.
    pub fn generate_random() -> NameType {
        let mut arr = [0u8; NAME_TYPE_LEN];
        let mut i: usize = 0;
        while i < NAME_TYPE_LEN
            decreases NAME_TYPE_LEN - i,
        {
            arr[i] = random_byte();
            i += 1;
        }
        NameType(arr)
    }

    /// False iff every byte is zero (the reserved sentinel address).
    pub fn is_valid(&self) -> (r: bool)
        ensures
            r == is_valid_spec(self@),
    {
        let mut i: usize = 0;
        while i < NAME_TYPE_LEN
            invariant
                i <= NAME_TYPE_LEN,
                forall|j: int| 0 <= j < i ==> self@[j] == 0,
            decreases NAME_TYPE_LEN - i,
        {
            if self.0[i] != 0 {
                return true;
            }
            i += 1;
        }
        false
    }
}

/// An identifier record on the wire: the reserved tag, then the address
/// bytes as one byte-sequence field.
pub open spec fn spec_identifier_record(name: Seq<u8>) -> Seq<u8> {
    spec_u64_field(IDENTIFIER_TAG) + spec_bytes_field(name)
}

/// What decoding an identifier record yields: the address bytes, or the
/// typed failure — a wrong leading tag, a short input, or a byte field that
/// does not hold exactly [`NAME_TYPE_LEN`] bytes.
pub open spec fn spec_decode_identifier(s: Seq<u8>) -> Result<Seq<u8>, DecodeError> {
    match spec_read_u64(s, 0) {
        Err(e) => Err(e),
        Ok((tag, p)) => if tag != IDENTIFIER_TAG {
            Err(DecodeError::TagMismatch)
        } else {
            match spec_read_bytes(s, p) {
                Err(e) => Err(e),
                Ok((b, _end)) => if b.len() != NAME_TYPE_LEN {
                    Err(DecodeError::SizeMismatch)
                } else {
                    Ok(b)
                },
            }
        },
    }
}

impl NameType {
    /// The reusable exact-length copy: an address from a byte slice, or
    /// nothing when the slice does not hold exactly [`NAME_TYPE_LEN`] bytes.
    pub fn new_from_slice(b: &[u8]) -> (r: Option<NameType>)
        ensures
            b@.len() == NAME_TYPE_LEN ==> (r matches Some(n) && n@ == b@),
            b@.len() != NAME_TYPE_LEN ==> r is None,
    {
        if b.len() != NAME_TYPE_LEN {
            return None;
        }
        let mut arr = [0u8; NAME_TYPE_LEN];
        let mut i: usize = 0;
        while i < NAME_TYPE_LEN
            invariant
                i <= NAME_TYPE_LEN,
                b@.len() == NAME_TYPE_LEN,
                forall|j: int| 0 <= j < i ==> arr@[j] == b@[j],
            decreases NAME_TYPE_LEN - i,
        {
            arr[i] = b[i];
            i += 1;
        }
        proof {
            assert(arr@ =~= b@);
        }
        Some(NameType(arr))
    }

    /// Encodes this address as a tagged identifier record.
    pub fn encode(&self) -> (r: Vec<u8>)
        ensures
            r@ == spec_identifier_record(self@),
    {
        let mut out: Vec<u8> = Vec::new();
        write_u64_field(&mut out, IDENTIFIER_TAG);
        write_bytes_field(&mut out, self.0.as_slice());
        proof {
            assert(out@ =~= spec_identifier_record(self@));
        }
        out
    }

    /// Decodes a tagged identifier record; a wrong tag, a short input or a
    /// byte field of any width other than [`NAME_TYPE_LEN`] is reported as a
    /// typed failure.
    pub fn decode(wire: &[u8]) -> (r: Result<NameType, DecodeError>)
        ensures
            (match spec_decode_identifier(wire@) {
                Ok(b) => r matches Ok(n) && n@ == b,
                Err(e) => r matches Err(x) && x == e,
            }),
    {
        let (tag, p) = match read_u64_field(wire, 0) {
            Ok(x) => x,
            Err(e) => { return Err(e) },
        };
        if tag != IDENTIFIER_TAG {
            return Err(DecodeError::TagMismatch);
        }
        let (b, _end) = match read_bytes_field(wire, p) {
            Ok(x) => x,
            Err(e) => { return Err(e) },
        };
        match NameType::new_from_slice(b.as_slice()) {
            Some(n) => Ok(n),
            None => Err(DecodeError::SizeMismatch),
        }
    }
}

/// Law: decoding an encoded identifier record yields exactly the encoded
/// address bytes, for every 64-byte value.
pub proof fn lemma_identifier_round_trip(name: Seq<u8>)
    requires
        name.len() == NAME_TYPE_LEN,
    ensures
        spec_decode_identifier(spec_identifier_record(name)) == Ok::<Seq<u8>, DecodeError>(name),
{
    let s = spec_identifier_record(name);
    lemma_u64_field_len(IDENTIFIER_TAG);
    assert(s =~= Seq::<u8>::empty() + spec_u64_field(IDENTIFIER_TAG) + spec_bytes_field(name));
    lemma_read_u64_field(Seq::<u8>::empty(), IDENTIFIER_TAG, spec_bytes_field(name), s);
    assert(s =~= spec_u64_field(IDENTIFIER_TAG) + spec_bytes_field(name) + Seq::<u8>::empty());
    lemma_read_bytes_field(spec_u64_field(IDENTIFIER_TAG), name, Seq::<u8>::empty(), s);
}

/// Law: an identifier record whose byte field holds any width other than
/// [`NAME_TYPE_LEN`] decodes to the typed size-mismatch failure — and, being
/// a verified total function, the decoder can never panic on it.
pub proof fn lemma_identifier_size_mismatch(name: Seq<u8>)
    requires
        name.len() != NAME_TYPE_LEN,
        name.len() <= u64::MAX,
    ensures
        spec_decode_identifier(spec_identifier_record(name)) == Err::<Seq<u8>, DecodeError>(
            DecodeError::SizeMismatch,
        ),
{
    let s = spec_identifier_record(name);
    lemma_u64_field_len(IDENTIFIER_TAG);
    assert(s =~= Seq::<u8>::empty() + spec_u64_field(IDENTIFIER_TAG) + spec_bytes_field(name));
    lemma_read_u64_field(Seq::<u8>::empty(), IDENTIFIER_TAG, spec_bytes_field(name), s);
    assert(s =~= spec_u64_field(IDENTIFIER_TAG) + spec_bytes_field(name) + Seq::<u8>::empty());
    lemma_read_bytes_field(spec_u64_field(IDENTIFIER_TAG), name, Seq::<u8>::empty(), s);
}

impl PartialEq for NameType {
    /// Bytewise equality of the two addresses.
    fn eq(&self, other: &NameType) -> (r: bool) {
        let a = self.0.as_slice();
        let b = other.0.as_slice();
        let r = slice_equal(a, b);
        proof {
            if r {
                assert forall|i: int| 0 <= i < self.0@.len() implies self.0@[i] == other.0@[i] by {
                    assert(a@[i].eq_spec(&b@[i]));
                }
                assert(self.0@ =~= other.0@);
            } else {
                if self.0@ == other.0@ {
                    assert forall|i: int|
                        0 <= i < a@.len() implies #[trigger] a@[i].eq_spec(&b@[i]) by {
                        assert(a@[i] == b@[i]);
                    }
                }
            }
        }
        r
    }
}

impl vstd::std_specs::cmp::PartialEqSpecImpl for NameType {
    open spec fn obeys_eq_spec() -> bool {
        true
    }

    open spec fn eq_spec(&self, other: &NameType) -> bool {
        self@ == other@
    }
}

/// Law: constructing an address from raw bytes and reading them back is the
/// identity on every 64-byte value.
pub proof fn lemma_construct_raw_bytes_round_trip(id: [u8; NAME_TYPE_LEN])
    ensures
        NameType(id)@ == id@,
{
}

/// Law: two addresses built from identical bytes are equal values.
pub proof fn lemma_identical_bytes_equal(a: NameType, b: NameType)
    requires
        a@ == b@,
    ensures
        a == b,
{
    assert(a.0 =~= b.0);
}

/// Law: the proximity order relative to a target is antisymmetric: `a` and
/// `b` are never each closer than the other, and when `a` and `b` coincide
/// neither is closer.
pub proof fn lemma_closer_to_target_antisymmetric(a: Seq<u8>, b: Seq<u8>, t: Seq<u8>)
    ensures
        !(closer_to_target_spec(a, b, t) && closer_to_target_spec(b, a, t)),
        a == b ==> !closer_to_target_spec(a, b, t),
{
    if closer_to_target_spec(a, b, t) && closer_to_target_spec(b, a, t) {
        let i1 = choose|i: int|
            #[trigger] first_distance_difference(a, b, t, i) && (a[i] ^ t[i]) < (b[i] ^ t[i]);
        let i2 = choose|i: int|
            #[trigger] first_distance_difference(b, a, t, i) && (b[i] ^ t[i]) < (a[i] ^ t[i]);
        if i1 < i2 {
            assert((b[i1] ^ t[i1]) == (a[i1] ^ t[i1]));
        } else if i2 < i1 {
            assert((a[i2] ^ t[i2]) == (b[i2] ^ t[i2]));
        }
        assert(false);
    }
}

/// Finds the first index from `n` on at which two equally long sequences
/// differ, given that they differ somewhere from `n` on.
proof fn lemma_first_difference_from(a: Seq<u8>, b: Seq<u8>, n: int)
    requires
        0 <= n <= a.len(),
        a.len() == b.len(),
        exists|i: int| n <= i < a.len() && a[i] != b[i],
    ensures
        exists|i: int|
            n <= i < a.len() && a[i] != b[i] && (forall|j: int| n <= j < i ==> a[j] == b[j]),
    decreases a.len() - n,
{
    if a[n] != b[n] {
        assert(n <= n < a.len() && a[n] != b[n] && (forall|j: int| n <= j < n ==> a[j] == b[j]));
    } else {
        assert(exists|i: int| n + 1 <= i < a.len() && a[i] != b[i]) by {
            let w = choose|i: int| n <= i < a.len() && a[i] != b[i];
            assert(n + 1 <= w < a.len() && a[w] != b[w]);
        }
        lemma_first_difference_from(a, b, n + 1);
        let w = choose|i: int|
            n + 1 <= i < a.len() && a[i] != b[i] && (forall|j: int| n + 1 <= j < i ==> a[j] == b[j]);
        assert(w <= w < a.len() && a[w] != b[w] && (forall|j: int| n <= j < w ==> a[j] == b[j]));
    }
}

/// Law: every address is at XOR distance zero from itself, so any distinct
/// address `b` is strictly farther: `a` is closer than `b` to the target `a`.
pub proof fn lemma_closer_to_self(a: Seq<u8>, b: Seq<u8>)
    requires
        a.len() == NAME_TYPE_LEN,
        b.len() == NAME_TYPE_LEN,
        a != b,
    ensures
        closer_to_target_spec(a, b, a),
{
    assert(exists|i: int| 0 <= i < a.len() && a[i] != b[i]) by {
        if forall|i: int| 0 <= i < a.len() ==> a[i] == b[i] {
            assert(a =~= b);
        }
    }
    lemma_first_difference_from(a, b, 0);
    let i = choose|i: int|
        0 <= i < a.len() && a[i] != b[i] && (forall|j: int| 0 <= j < i ==> a[j] == b[j]);
    let x: u8 = a[i];
    let y: u8 = b[i];
    assert(x ^ x == 0 && (x != y ==> (y ^ x) != 0)) by (bit_vector);
    assert forall|j: int| 0 <= j < i implies (a[j] ^ a[j]) == (b[j] ^ a[j]) by {
        assert(a[j] == b[j]);
    }
    assert(first_distance_difference(a, b, a, i));
}

} // verus!
