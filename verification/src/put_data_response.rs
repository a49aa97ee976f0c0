//! The example network record: one identifier bound to the outcome of an
//! operation addressed at it.

use crate::error::{
    lemma_response_error_round_trip, spec_decode_response_error, spec_error_payload,
    spec_response_error_record, ResponseError, ResponseErrorView,
};
use crate::name_type::{slice_equal, NameType, NAME_TYPE_LEN};
use crate::wire::{
    lemma_read_bytes_field, lemma_read_opt_bytes_field, lemma_read_u64_field, lemma_u64_field_len,
    read_bytes_field, read_opt_bytes_field, read_u64_field, spec_bytes_field, spec_opt_bytes_field,
    spec_read_bytes, spec_read_opt_bytes, spec_read_u64, spec_u64_field, write_bytes_field,
    write_opt_bytes_field, write_u64_field, DecodeError, PUT_DATA_RESPONSE_TAG,
};
use vstd::prelude::*;
use vstd::std_specs::cmp::PartialEqSpec;

verus! {

/// The outcome of a "put data" request: the addressed identifier, and either
/// the stored payload or the response-level failure that was reported.
#[derive(Debug)]
pub struct PutDataResponse {
    pub name: NameType,
    pub data: Result<Vec<u8>, ResponseError>,
}

/// The mathematical model of a [`PutDataResponse`].
#[verifier::ext_equal]
pub struct PutDataResponseView {
    pub name: Seq<u8>,
    pub data: Result<Seq<u8>, ResponseErrorView>,
}

impl View for PutDataResponse {
    type V = PutDataResponseView;

    open spec fn view(&self) -> PutDataResponseView {
        PutDataResponseView {
            name: self.name@,
            data: match &self.data {
                Ok(d) => Ok(d@),
                Err(e) => Err(e@),
            },
        }
    }
}

impl PartialEq for PutDataResponse {
    /// Structural equality: same identifier and same logical outcome.
    fn eq(&self, other: &PutDataResponse) -> (r: bool) {
        if !(self.name == other.name) {
            return false;
        }
        match (&self.data, &other.data) {
            (Ok(a), Ok(b)) => {
                let r = slice_equal(a.as_slice(), b.as_slice());
                proof {
                    if r {
                        assert forall|i: int| 0 <= i < a@.len() implies a@[i] == b@[i] by {
                            assert(a@[i].eq_spec(&b@[i]));
                        }
                        assert(a@ =~= b@);
                    } else {
                        if a@ == b@ {
                            assert forall|i: int|
                                0 <= i < a@.len() implies #[trigger] a@[i].eq_spec(&b@[i]) by {
                                assert(a@[i] == b@[i]);
                            }
                        }
                    }
                }
                r
            },
            (Err(a), Err(b)) => a == b,
            _ => false,
        }
    }
}

impl vstd::std_specs::cmp::PartialEqSpecImpl for PutDataResponse {
    open spec fn obeys_eq_spec() -> bool {
        true
    }

    open spec fn eq_spec(&self, other: &PutDataResponse) -> bool {
        self@ == other@
    }
}

/// The payload slot of the flattened outcome: the real payload on success,
/// an empty placeholder on failure.
pub open spec fn spec_data_slot(m: PutDataResponseView) -> Seq<u8> {
    match m.data {
        Ok(d) => d,
        Err(_) => Seq::<u8>::empty(),
    }
}

/// The error slot of the flattened outcome: absent on success, the wrapped
/// response-error record on failure.
pub open spec fn spec_error_slot(m: PutDataResponseView) -> Option<Seq<u8>> {
    match m.data {
        Ok(_) => None,
        Err(e) => Some(spec_response_error_record(e)),
    }
}

/// A response-message record on the wire: the reserved tag, the identifier
/// field, the payload slot and the error slot.
pub open spec fn spec_put_data_response_record(m: PutDataResponseView) -> Seq<u8> {
    spec_u64_field(PUT_DATA_RESPONSE_TAG) + spec_bytes_field(m.name) + spec_bytes_field(
        spec_data_slot(m),
    ) + spec_opt_bytes_field(spec_error_slot(m))
}

/// What decoding a response-message record yields: the rebuilt message — the
/// failure outcome when the error slot is present, the payload slot
/// otherwise — or the typed decode failure.
pub open spec fn spec_decode_put_data_response(s: Seq<u8>) -> Result<
    PutDataResponseView,
    DecodeError,
> {
    match spec_read_u64(s, 0) {
        Err(e) => Err(e),
        Ok((tag, p)) => if tag != PUT_DATA_RESPONSE_TAG {
            Err(DecodeError::TagMismatch)
        } else {
            match spec_read_bytes(s, p) {
                Err(e) => Err(e),
                Ok((name, p2)) => if name.len() != NAME_TYPE_LEN {
                    Err(DecodeError::SizeMismatch)
                } else {
                    match spec_read_bytes(s, p2) {
                        Err(e) => Err(e),
                        Ok((data, p3)) => match spec_read_opt_bytes(s, p3) {
                            Err(e) => Err(e),
                            Ok((oerr, _p4)) => match oerr {
                                None => Ok(PutDataResponseView { name, data: Ok(data) }),
                                Some(blob) => match spec_decode_response_error(blob) {
                                    Err(e) => Err(e),
                                    Ok(ev) => Ok(PutDataResponseView { name, data: Err(ev) }),
                                },
                            },
                        },
                    }
                },
            }
        },
    }
}

impl PutDataResponse {
    /// Encodes this message as a tagged response-message record, flattening
    /// the outcome into its two slots.
    pub fn encode(&self) -> (r: Vec<u8>)
        ensures
            r@ == spec_put_data_response_record(self@),
    {
        let mut out: Vec<u8> = Vec::new();
        write_u64_field(&mut out, PUT_DATA_RESPONSE_TAG);
        write_bytes_field(&mut out, self.name.0.as_slice());
        match &self.data {
            Ok(d) => {
                write_bytes_field(&mut out, d.as_slice());
                write_opt_bytes_field(&mut out, &None);
            },
            Err(e) => {
                let empty: Vec<u8> = Vec::new();
                write_bytes_field(&mut out, empty.as_slice());
                let blob = e.encode();
                write_opt_bytes_field(&mut out, &Some(blob));
            },
        }
        proof {
            assert(out@ =~= spec_put_data_response_record(self@));
        }
        out
    }

    /// Decodes a tagged response-message record, rebuilding the logical
    /// outcome from the two slots; any malformed input is reported as a
    /// typed failure.
    pub fn decode(wire: &[u8]) -> (r: Result<PutDataResponse, DecodeError>)
        ensures
            (match spec_decode_put_data_response(wire@) {
                Ok(mv) => r matches Ok(m) && m@ == mv,
                Err(e) => r matches Err(x) && x == e,
            }),
    {
        let (tag, p) = match read_u64_field(wire, 0) {
            Ok(x) => x,
            Err(e) => { return Err(e) },
        };
        if tag != PUT_DATA_RESPONSE_TAG {
            return Err(DecodeError::TagMismatch);
        }
        let (name_bytes, p2) = match read_bytes_field(wire, p) {
            Ok(x) => x,
            Err(e) => { return Err(e) },
        };
        let name = match NameType::new_from_slice(name_bytes.as_slice()) {
            Some(n) => n,
            None => { return Err(DecodeError::SizeMismatch) },
        };
        let (data, p3) = match read_bytes_field(wire, p2) {
            Ok(x) => x,
            Err(e) => { return Err(e) },
        };
        let (oerr, _p4) = match read_opt_bytes_field(wire, p3) {
            Ok(x) => x,
            Err(e) => { return Err(e) },
        };
        match oerr {
            None => Ok(PutDataResponse { name, data: Ok(data) }),
            Some(blob) => match ResponseError::decode(blob.as_slice()) {
                Ok(e) => Ok(PutDataResponse { name, data: Err(e) }),
                Err(e) => Err(e),
            },
        }
    }
}

/// Law: decoding an encoded response-message record yields an equal message,
/// for every identifier and every outcome. A success round-trips to the same
/// payload; a failure round-trips to the same failure, its rejected bytes
/// intact, while the payload placeholder is discarded.
pub proof fn lemma_put_data_response_round_trip(m: PutDataResponseView)
    requires
        m.name.len() == NAME_TYPE_LEN,
        m.data matches Ok(d) ==> d.len() <= u64::MAX,
        m.data matches Err(e) ==> (spec_error_payload(e) matches Some(d) ==> d.len() + 32
            <= u64::MAX),
    ensures
        spec_decode_put_data_response(spec_put_data_response_record(m)) == Ok::<
            PutDataResponseView,
            DecodeError,
        >(m),
{
    let s = spec_put_data_response_record(m);
    let tagf = spec_u64_field(PUT_DATA_RESPONSE_TAG);
    let namef = spec_bytes_field(m.name);
    let dataf = spec_bytes_field(spec_data_slot(m));
    let errf = spec_opt_bytes_field(spec_error_slot(m));
    lemma_u64_field_len(PUT_DATA_RESPONSE_TAG);
    lemma_u64_field_len(m.name.len() as u64);
    lemma_u64_field_len(spec_data_slot(m).len() as u64);
    assert(s =~= Seq::<u8>::empty() + tagf + (namef + dataf + errf));
    lemma_read_u64_field(Seq::<u8>::empty(), PUT_DATA_RESPONSE_TAG, namef + dataf + errf, s);
    assert(s =~= tagf + namef + (dataf + errf));
    lemma_read_bytes_field(tagf, m.name, dataf + errf, s);
    assert(s =~= (tagf + namef) + dataf + errf);
    lemma_read_bytes_field(tagf + namef, spec_data_slot(m), errf, s);
    assert(s =~= (tagf + namef + dataf) + errf + Seq::<u8>::empty());
    assert(spec_error_slot(m) matches Some(b) ==> b.len() <= u64::MAX) by {
        if m.data is Err {
            let ev = m.data->Err_0;
            lemma_u64_field_len(crate::wire::RESPONSE_ERROR_TAG);
            lemma_u64_field_len(crate::error::spec_kind_code(ev));
            match spec_error_payload(ev) {
                Some(d) => { lemma_u64_field_len(d.len() as u64); },
                None => {},
            }
        }
    }
    lemma_read_opt_bytes_field(tagf + namef + dataf, spec_error_slot(m), Seq::<u8>::empty(), s);
    match m.data {
        Ok(_) => {
            assert(spec_decode_put_data_response(s) =~= Ok::<PutDataResponseView, DecodeError>(m));
        },
        Err(ev) => {
            lemma_response_error_round_trip(ev);
            assert(spec_decode_put_data_response(s) =~= Ok::<PutDataResponseView, DecodeError>(m));
        },
    }
}

} // verus!
