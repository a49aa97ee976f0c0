//! The tagged wire envelope: the binary record format in which every
//! structured value travels preceded by a numeric schema tag.
//!
//! The envelope is built from three primitive fields: an unsigned integer
//! (eight little-endian bytes), a byte sequence (its length, then its bytes)
//! and an optional byte sequence (a presence marker, then the value when
//! present). Each record kind writes its reserved tag as a leading unsigned
//! integer field and its fields after it; decoding reads the tag first and
//! fails with a typed error on any mismatch, never with a crash.

use vstd::bytes::{
    lemma_auto_spec_u64_to_from_le_bytes, spec_u64_from_le_bytes, spec_u64_to_le_bytes,
    u64_from_le_bytes, u64_to_le_bytes,
};
use vstd::prelude::*;
use vstd::slice::slice_to_vec;

verus! {

/// Reserved schema tag of an identifier record.
pub const IDENTIFIER_TAG: u64 = 5483000;

/// Reserved schema tag of a response-message record.
pub const PUT_DATA_RESPONSE_TAG: u64 = 5483001;

/// Reserved schema tag of a response-error record.
pub const RESPONSE_ERROR_TAG: u64 = 5483100;

/// Typed decode failure: malformed input yields one of these, never a panic.
#[derive(Clone, Copy, PartialEq, Eq, Structural, Debug)]
pub enum DecodeError {
    /// The input ends before the record's fields are complete.
    Truncated,
    /// The leading schema tag is not the tag of the expected record kind.
    TagMismatch,
    /// An identifier field does not hold exactly the identifier width.
    SizeMismatch,
    /// An error record carries a kind code outside the taxonomy.
    UnknownVariant,
    /// An error record's kind requires a payload but none is present.
    MissingPayload,
    /// A presence marker holds a value other than zero or one.
    Malformed,
}

/// An unsigned-integer field: eight little-endian bytes.
pub open spec fn spec_u64_field(v: u64) -> Seq<u8> {
    spec_u64_to_le_bytes(v)
}

/// A byte-sequence field: its length as an unsigned-integer field, then its bytes.
pub open spec fn spec_bytes_field(b: Seq<u8>) -> Seq<u8> {
    spec_u64_field(b.len() as u64) + b
}

/// An optional byte-sequence field: a presence marker, then the value if present.
pub open spec fn spec_opt_bytes_field(b: Option<Seq<u8>>) -> Seq<u8> {
    match b {
        Option::None => seq![0u8],
        Option::Some(s) => seq![1u8] + spec_bytes_field(s),
    }
}

/// The view of an optional byte buffer.
pub open spec fn opt_bytes_view(b: Option<Vec<u8>>) -> Option<Seq<u8>> {
    match b {
        Option::None => Option::None,
        Option::Some(v) => Option::Some(v@),
    }
}

/// What reading an unsigned-integer field at `pos` yields.
pub open spec fn spec_read_u64(s: Seq<u8>, pos: int) -> Result<(u64, int), DecodeError> {
    if 0 <= pos && pos + 8 <= s.len() {
        Ok((spec_u64_from_le_bytes(s.subrange(pos, pos + 8)), pos + 8))
    } else {
        Err(DecodeError::Truncated)
    }
}

/// What reading a byte-sequence field at `pos` yields.
pub open spec fn spec_read_bytes(s: Seq<u8>, pos: int) -> Result<(Seq<u8>, int), DecodeError> {
    match spec_read_u64(s, pos) {
        Err(e) => Err(e),
        Ok((n, p)) => if p + n <= s.len() {
            Ok((s.subrange(p, p + n), p + n))
        } else {
            Err(DecodeError::Truncated)
        },
    }
}

/// What reading an optional byte-sequence field at `pos` yields.
pub open spec fn spec_read_opt_bytes(s: Seq<u8>, pos: int) -> Result<
    (Option<Seq<u8>>, int),
    DecodeError,
> {
    if 0 <= pos && pos + 1 <= s.len() {
        if s[pos] == 0 {
            Ok((Option::None, pos + 1))
        } else if s[pos] == 1 {
            match spec_read_bytes(s, pos + 1) {
                Err(e) => Err(e),
                Ok((b, p)) => Ok((Option::Some(b), p)),
            }
        } else {
            Err(DecodeError::Malformed)
        }
    } else {
        Err(DecodeError::Truncated)
    }
}

/// Appends an unsigned-integer field.
pub fn write_u64_field(out: &mut Vec<u8>, v: u64)
    ensures
        final(out)@ == old(out)@ + spec_u64_field(v),
{
    let mut b = u64_to_le_bytes(v);
    out.append(&mut b);
}

/// Appends a byte-sequence field.
pub fn write_bytes_field(out: &mut Vec<u8>, b: &[u8])
    ensures
        final(out)@ == old(out)@ + spec_bytes_field(b@),
{
    write_u64_field(out, b.len() as u64);
    let ghost mid = out@;
    let mut i: usize = 0;
    proof {
        assert(out@ =~= mid + b@.subrange(0, 0));
    }
    while i < b.len()
        invariant
            i <= b@.len(),
            out@ == mid + b@.subrange(0, i as int),
        decreases b@.len() - i,
    {
        out.push(b[i]);
        proof {
            assert(out@ =~= mid + b@.subrange(0, i + 1));
        }
        i += 1;
    }
    proof {
        assert(b@.subrange(0, b@.len() as int) =~= b@);
        assert(out@ =~= old(out)@ + spec_bytes_field(b@));
    }
}

/// Appends an optional byte-sequence field.
pub fn write_opt_bytes_field(out: &mut Vec<u8>, b: &Option<Vec<u8>>)
    ensures
        final(out)@ == old(out)@ + spec_opt_bytes_field(opt_bytes_view(*b)),
{
    match b {
        Option::None => {
            out.push(0);
            proof {
                assert(out@ =~= old(out)@ + seq![0u8]);
            }
        },
        Option::Some(v) => {
            out.push(1);
            proof {
                assert(out@ =~= old(out)@ + seq![1u8]);
            }
            write_bytes_field(out, v.as_slice());
            proof {
                assert(out@ =~= old(out)@ + (seq![1u8] + spec_bytes_field(v@)));
            }
        },
    }
}

/// Reads an unsigned-integer field.
pub fn read_u64_field(bytes: &[u8], pos: usize) -> (r: Result<(u64, usize), DecodeError>)
    ensures
        (match spec_read_u64(bytes@, pos as int) {
            Ok((v, end)) => r matches Ok((rv, re)) && rv == v && re as int == end,
            Err(e) => r matches Err(x) && x == e,
        }),
{
    if bytes.len() < 8 || pos > bytes.len() - 8 {
        return Err(DecodeError::Truncated);
    }
    let v = u64_from_le_bytes(&bytes[pos..pos + 8]);
    Ok((v, pos + 8))
}

/// Reads a byte-sequence field.
pub fn read_bytes_field(bytes: &[u8], pos: usize) -> (r: Result<(Vec<u8>, usize), DecodeError>)
    ensures
        (match spec_read_bytes(bytes@, pos as int) {
            Ok((b, end)) => r matches Ok((rb, re)) && rb@ == b && re as int == end,
            Err(e) => r matches Err(x) && x == e,
        }),
{
    let (n, p) = match read_u64_field(bytes, pos) {
        Ok(x) => x,
        Err(e) => { return Err(e) },
    };
    if n > (bytes.len() - p) as u64 {
        return Err(DecodeError::Truncated);
    }
    let end = p + (n as usize);
    let v = slice_to_vec(&bytes[p..end]);
    Ok((v, end))
}

/// Reads an optional byte-sequence field.
pub fn read_opt_bytes_field(bytes: &[u8], pos: usize) -> (r: Result<
    (Option<Vec<u8>>, usize),
    DecodeError,
>)
    ensures
        (match spec_read_opt_bytes(bytes@, pos as int) {
            Ok((b, end)) => r matches Ok((rb, re)) && opt_bytes_view(rb) == b && re as int == end,
            Err(e) => r matches Err(x) && x == e,
        }),
{
    if pos >= bytes.len() {
        return Err(DecodeError::Truncated);
    }
    let marker = bytes[pos];
    if marker == 0 {
        Ok((Option::None, pos + 1))
    } else if marker == 1 {
        match read_bytes_field(bytes, pos + 1) {
            Ok((b, end)) => Ok((Option::Some(b), end)),
            Err(e) => Err(e),
        }
    } else {
        Err(DecodeError::Malformed)
    }
}

/// Law: an unsigned-integer field is always eight bytes wide.
pub proof fn lemma_u64_field_len(v: u64)
    ensures
        spec_u64_field(v).len() == 8,
{
    lemma_auto_spec_u64_to_from_le_bytes();
}

/// Law: an unsigned-integer field written into a stream reads back as written.
pub proof fn lemma_read_u64_field(prefix: Seq<u8>, v: u64, rest: Seq<u8>, s: Seq<u8>)
    requires
        s == prefix + spec_u64_field(v) + rest,
    ensures
        spec_read_u64(s, prefix.len() as int) == Ok::<(u64, int), DecodeError>(
            (v, prefix.len() as int + 8),
        ),
{
    lemma_auto_spec_u64_to_from_le_bytes();
    assert(spec_u64_field(v).len() == 8);
    assert(s.subrange(prefix.len() as int, prefix.len() as int + 8) =~= spec_u64_field(v));
}

/// Law: a byte-sequence field written into a stream reads back as written.
pub proof fn lemma_read_bytes_field(prefix: Seq<u8>, b: Seq<u8>, rest: Seq<u8>, s: Seq<u8>)
    requires
        s == prefix + spec_bytes_field(b) + rest,
        b.len() <= u64::MAX,
    ensures
        spec_read_bytes(s, prefix.len() as int) == Ok::<(Seq<u8>, int), DecodeError>(
            (b, prefix.len() as int + 8 + b.len() as int),
        ),
{
    lemma_auto_spec_u64_to_from_le_bytes();
    let n: u64 = b.len() as u64;
    assert(s =~= prefix + spec_u64_field(n) + (b + rest));
    lemma_read_u64_field(prefix, n, b + rest, s);
    assert(s.subrange(prefix.len() as int + 8, prefix.len() as int + 8 + b.len() as int) =~= b);
}

/// Law: an optional byte-sequence field written into a stream reads back as
/// written.
pub proof fn lemma_read_opt_bytes_field(prefix: Seq<u8>, ob: Option<Seq<u8>>, rest: Seq<u8>, s: Seq<u8>)
    requires
        s == prefix + spec_opt_bytes_field(ob) + rest,
        ob matches Some(b) ==> b.len() <= u64::MAX,
    ensures
        spec_read_opt_bytes(s, prefix.len() as int) == Ok::<(Option<Seq<u8>>, int), DecodeError>(
            (ob, prefix.len() as int + spec_opt_bytes_field(ob).len() as int),
        ),
{
    match ob {
        Option::None => {
            assert(s[prefix.len() as int] == 0);
        },
        Option::Some(b) => {
            lemma_auto_spec_u64_to_from_le_bytes();
            assert(spec_u64_field(b.len() as u64).len() == 8);
            assert(s[prefix.len() as int] == 1);
            assert(s =~= (prefix + seq![1u8]) + spec_bytes_field(b) + rest);
            lemma_read_bytes_field(prefix + seq![1u8], b, rest, s);
            assert(spec_opt_bytes_field(ob).len() == 1 + 8 + b.len());
        },
    }
}

} // verus!
