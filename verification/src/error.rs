//! The three-tier error taxonomy: response-level, interface-level and
//! routing-level failures, with lossless one-directional wrapping.
//!
//! Each error exposes three facets: a short machine-stable description, an
//! optional nested cause (present exactly on the wrapping variants) and a
//! human-readable display string. Response-level errors additionally travel
//! on the wire as tagged records.

use crate::name_type::slice_equal;
use crate::wire::{
    lemma_read_opt_bytes_field, lemma_read_u64_field, lemma_u64_field_len, read_opt_bytes_field,
    read_u64_field, spec_opt_bytes_field, spec_read_opt_bytes, spec_read_u64, spec_u64_field,
    write_bytes_field, write_u64_field, DecodeError, RESPONSE_ERROR_TAG,
};
use vstd::prelude::*;
use vstd::std_specs::cmp::PartialEqSpec;

verus! {

/// Wire kind code of [`ResponseError::NoData`].
pub const KIND_NO_DATA: u64 = 1;

/// Wire kind code of [`ResponseError::InvalidRequest`].
pub const KIND_INVALID_REQUEST: u64 = 2;

/// Wire kind code of [`ResponseError::FailedToStoreData`].
pub const KIND_FAILED_TO_STORE_DATA: u64 = 3;

/// A remote-operation failure reported by a peer: no data found, an invalid
/// request, or a refused store carrying the rejected payload bytes.
#[derive(Clone, Debug)]
pub enum ResponseError {
    NoData,
    InvalidRequest,
    FailedToStoreData(Vec<u8>),
}

/// The mathematical model of a [`ResponseError`]: the rejected payload is a
/// byte sequence.
#[verifier::ext_equal]
pub enum ResponseErrorView {
    NoData,
    InvalidRequest,
    FailedToStoreData(Seq<u8>),
}

impl View for ResponseError {
    type V = ResponseErrorView;

    open spec fn view(&self) -> ResponseErrorView {
        match self {
            ResponseError::NoData => ResponseErrorView::NoData,
            ResponseError::InvalidRequest => ResponseErrorView::InvalidRequest,
            ResponseError::FailedToStoreData(d) => ResponseErrorView::FailedToStoreData(d@),
        }
    }
}

impl PartialEq for ResponseError {
    /// Structural equality; rejected payloads are compared bytewise.
    fn eq(&self, other: &ResponseError) -> (r: bool) {
        match (self, other) {
            (ResponseError::NoData, ResponseError::NoData) => true,
            (ResponseError::InvalidRequest, ResponseError::InvalidRequest) => true,
            (ResponseError::FailedToStoreData(a), ResponseError::FailedToStoreData(b)) => {
                let r = slice_equal(a.as_slice(), b.as_slice());
                proof {
                    if r {
                        assert forall|i: int| 0 <= i < a@.len() implies a@[i] == b@[i] by {
                            assert(a@[i].eq_spec(&b@[i]));
                        }
                        assert(a@ =~= b@);
                    } else {
                        if a@ == b@ {
                            assert forall|i: int|
                                0 <= i < a@.len() implies #[trigger] a@[i].eq_spec(&b@[i]) by {
                                assert(a@[i] == b@[i]);
                            }
                        }
                    }
                }
                r
            },
            _ => false,
        }
    }
}

impl vstd::std_specs::cmp::PartialEqSpecImpl for ResponseError {
    open spec fn obeys_eq_spec() -> bool {
        true
    }

    open spec fn eq_spec(&self, other: &ResponseError) -> bool {
        self@ == other@
    }
}

/// The machine-stable description of a response-level failure.
pub open spec fn spec_response_error_description(e: &ResponseError) -> Seq<char> {
    match e {
        ResponseError::NoData => "No Data"@,
        ResponseError::InvalidRequest => "Invalid request"@,
        ResponseError::FailedToStoreData(_) => "Failed to store data"@,
    }
}

/// The display string of a response-level failure.
pub open spec fn spec_response_error_display(e: &ResponseError) -> Seq<char> {
    match e {
        ResponseError::NoData => "ResponseError::NoData"@,
        ResponseError::InvalidRequest => "ResponseError::InvalidRequest"@,
        ResponseError::FailedToStoreData(_) => "ResponseError::FailedToStoreData"@,
    }
}

impl ResponseError {
    /// Short machine-stable description, one per variant.
    pub fn description(&self) -> (r: &'static str)
        ensures
            r@ == spec_response_error_description(self),
    {
        match self {
            ResponseError::NoData => "No Data",
            ResponseError::InvalidRequest => "Invalid request",
            ResponseError::FailedToStoreData(_) => "Failed to store data",
        }
    }

    /// Human-readable display string, one per variant.
    pub fn display_string(&self) -> (r: &'static str)
        ensures
            r@ == spec_response_error_display(self),
    {
        match self {
            ResponseError::NoData => "ResponseError::NoData",
            ResponseError::InvalidRequest => "ResponseError::InvalidRequest",
            ResponseError::FailedToStoreData(_) => "ResponseError::FailedToStoreData",
        }
    }

    /// A response-level failure is a leaf of the taxonomy: it never wraps a
    /// deeper cause.
    pub fn cause(&self) -> (r: Option<&ResponseError>)
        ensures
            r is None,
    {
        None
    }
}

/// The kind code a response-level failure travels under.
pub open spec fn spec_kind_code(e: ResponseErrorView) -> u64 {
    match e {
        ResponseErrorView::NoData => KIND_NO_DATA,
        ResponseErrorView::InvalidRequest => KIND_INVALID_REQUEST,
        ResponseErrorView::FailedToStoreData(_) => KIND_FAILED_TO_STORE_DATA,
    }
}

/// The optional payload a response-level failure carries on the wire: the
/// rejected bytes, present exactly for the refused-store kind.
pub open spec fn spec_error_payload(e: ResponseErrorView) -> Option<Seq<u8>> {
    match e {
        ResponseErrorView::FailedToStoreData(d) => Some(d),
        _ => None,
    }
}

/// The field tuple of a response-error record: its kind code, then its
/// optional payload.
pub open spec fn spec_response_error_fields(e: ResponseErrorView) -> Seq<u8> {
    spec_u64_field(spec_kind_code(e)) + spec_opt_bytes_field(spec_error_payload(e))
}

/// A response-error record on the wire: the reserved tag, then the fields.
pub open spec fn spec_response_error_record(e: ResponseErrorView) -> Seq<u8> {
    spec_u64_field(RESPONSE_ERROR_TAG) + spec_response_error_fields(e)
}

/// What reading a response-error field tuple at `pos` yields: the rebuilt
/// variant, or the typed failure — an unknown kind code, a missing payload on
/// the refused-store kind, or a short input.
pub open spec fn spec_read_response_error_fields(s: Seq<u8>, pos: int) -> Result<
    (ResponseErrorView, int),
    DecodeError,
> {
    match spec_read_u64(s, pos) {
        Err(e) => Err(e),
        Ok((kind, p)) => match spec_read_opt_bytes(s, p) {
            Err(e) => Err(e),
            Ok((od, p2)) => if kind == KIND_NO_DATA {
                Ok((ResponseErrorView::NoData, p2))
            } else if kind == KIND_INVALID_REQUEST {
                Ok((ResponseErrorView::InvalidRequest, p2))
            } else if kind == KIND_FAILED_TO_STORE_DATA {
                match od {
                    Some(d) => Ok((ResponseErrorView::FailedToStoreData(d), p2)),
                    None => Err(DecodeError::MissingPayload),
                }
            } else {
                Err(DecodeError::UnknownVariant)
            },
        },
    }
}

/// What decoding a whole response-error record yields.
pub open spec fn spec_decode_response_error(s: Seq<u8>) -> Result<ResponseErrorView, DecodeError> {
    match spec_read_u64(s, 0) {
        Err(e) => Err(e),
        Ok((tag, p)) => if tag != RESPONSE_ERROR_TAG {
            Err(DecodeError::TagMismatch)
        } else {
            match spec_read_response_error_fields(s, p) {
                Err(e) => Err(e),
                Ok((ev, _end)) => Ok(ev),
            }
        },
    }
}

/// Reads a response-error field tuple at `pos` and rebuilds the variant.
pub fn read_response_error_fields(bytes: &[u8], pos: usize) -> (r: Result<
    (ResponseError, usize),
    DecodeError,
>)
    ensures
        (match spec_read_response_error_fields(bytes@, pos as int) {
            Ok((ev, end)) => r matches Ok((e, re)) && e@ == ev && re as int == end,
            Err(e) => r matches Err(x) && x == e,
        }),
{
    let (kind, p) = match read_u64_field(bytes, pos) {
        Ok(x) => x,
        Err(e) => { return Err(e) },
    };
    let (od, p2) = match read_opt_bytes_field(bytes, p) {
        Ok(x) => x,
        Err(e) => { return Err(e) },
    };
    if kind == KIND_NO_DATA {
        Ok((ResponseError::NoData, p2))
    } else if kind == KIND_INVALID_REQUEST {
        Ok((ResponseError::InvalidRequest, p2))
    } else if kind == KIND_FAILED_TO_STORE_DATA {
        match od {
            Some(d) => Ok((ResponseError::FailedToStoreData(d), p2)),
            None => Err(DecodeError::MissingPayload),
        }
    } else {
        Err(DecodeError::UnknownVariant)
    }
}

impl ResponseError {
    /// Appends this failure's kind and payload fields.
    pub fn write_fields(&self, out: &mut Vec<u8>)
        ensures
            final(out)@ == old(out)@ + spec_response_error_fields(self@),
    {
        match self {
            ResponseError::NoData => {
                write_u64_field(out, KIND_NO_DATA);
                out.push(0);
                proof {
                    assert(out@ =~= old(out)@ + spec_response_error_fields(self@));
                }
            },
            ResponseError::InvalidRequest => {
                write_u64_field(out, KIND_INVALID_REQUEST);
                out.push(0);
                proof {
                    assert(out@ =~= old(out)@ + spec_response_error_fields(self@));
                }
            },
            ResponseError::FailedToStoreData(d) => {
                write_u64_field(out, KIND_FAILED_TO_STORE_DATA);
                out.push(1);
                write_bytes_field(out, d.as_slice());
                proof {
                    assert(out@ =~= old(out)@ + spec_response_error_fields(self@));
                }
            },
        }
    }

    /// Encodes this failure as a tagged response-error record.
    pub fn encode(&self) -> (r: Vec<u8>)
        ensures
            r@ == spec_response_error_record(self@),
    {
        let mut out: Vec<u8> = Vec::new();
        write_u64_field(&mut out, RESPONSE_ERROR_TAG);
        self.write_fields(&mut out);
        proof {
            assert(out@ =~= spec_response_error_record(self@));
        }
        out
    }

    /// Decodes a tagged response-error record; any malformed input is
    /// reported as a typed failure.
    pub fn decode(wire: &[u8]) -> (r: Result<ResponseError, DecodeError>)
        ensures
            (match spec_decode_response_error(wire@) {
                Ok(ev) => r matches Ok(e) && e@ == ev,
                Err(e) => r matches Err(x) && x == e,
            }),
    {
        let (tag, p) = match read_u64_field(wire, 0) {
            Ok(x) => x,
            Err(e) => { return Err(e) },
        };
        if tag != RESPONSE_ERROR_TAG {
            return Err(DecodeError::TagMismatch);
        }
        match read_response_error_fields(wire, p) {
            Ok((e, _end)) => Ok(e),
            Err(e) => Err(e),
        }
    }
}

/// Law: a response-error field tuple written into a stream reads back as the
/// same variant.
pub proof fn lemma_read_response_error_fields(
    prefix: Seq<u8>,
    ev: ResponseErrorView,
    rest: Seq<u8>,
    s: Seq<u8>,
)
    requires
        s == prefix + spec_response_error_fields(ev) + rest,
        spec_error_payload(ev) matches Some(d) ==> d.len() <= u64::MAX,
    ensures
        spec_read_response_error_fields(s, prefix.len() as int) == Ok::<
            (ResponseErrorView, int),
            DecodeError,
        >((ev, prefix.len() as int + spec_response_error_fields(ev).len() as int)),
{
    let code = spec_kind_code(ev);
    let payload = spec_error_payload(ev);
    lemma_u64_field_len(code);
    assert(s =~= prefix + spec_u64_field(code) + (spec_opt_bytes_field(payload) + rest));
    lemma_read_u64_field(prefix, code, spec_opt_bytes_field(payload) + rest, s);
    assert(s =~= (prefix + spec_u64_field(code)) + spec_opt_bytes_field(payload) + rest);
    lemma_read_opt_bytes_field(prefix + spec_u64_field(code), payload, rest, s);
}

/// Law: decoding an encoded response-error record yields exactly the encoded
/// failure, for every variant and payload.
pub proof fn lemma_response_error_round_trip(ev: ResponseErrorView)
    requires
        spec_error_payload(ev) matches Some(d) ==> d.len() <= u64::MAX,
    ensures
        spec_decode_response_error(spec_response_error_record(ev)) == Ok::<
            ResponseErrorView,
            DecodeError,
        >(ev),
{
    let s = spec_response_error_record(ev);
    lemma_u64_field_len(RESPONSE_ERROR_TAG);
    assert(s =~= Seq::<u8>::empty() + spec_u64_field(RESPONSE_ERROR_TAG)
        + spec_response_error_fields(ev));
    lemma_read_u64_field(Seq::<u8>::empty(), RESPONSE_ERROR_TAG, spec_response_error_fields(ev), s);
    assert(s =~= spec_u64_field(RESPONSE_ERROR_TAG) + spec_response_error_fields(ev)
        + Seq::<u8>::empty());
    lemma_read_response_error_fields(
        spec_u64_field(RESPONSE_ERROR_TAG),
        ev,
        Seq::<u8>::empty(),
        s,
    );
}

/// A boundary-level failure: an explicit abort with no underlying cause, or a
/// wrapped response-level failure.
#[derive(Clone, Debug)]
pub enum InterfaceError {
    Abort,
    Response(ResponseError),
}

impl PartialEq for InterfaceError {
    /// Structural equality.
    fn eq(&self, other: &InterfaceError) -> (r: bool) {
        match (self, other) {
            (InterfaceError::Abort, InterfaceError::Abort) => true,
            (InterfaceError::Response(a), InterfaceError::Response(b)) => a == b,
            _ => false,
        }
    }
}

impl vstd::std_specs::cmp::PartialEqSpecImpl for InterfaceError {
    open spec fn obeys_eq_spec() -> bool {
        true
    }

    open spec fn eq_spec(&self, other: &InterfaceError) -> bool {
        match (self, other) {
            (InterfaceError::Abort, InterfaceError::Abort) => true,
            (InterfaceError::Response(a), InterfaceError::Response(b)) => a@ == b@,
            _ => false,
        }
    }
}

impl From<ResponseError> for InterfaceError {
    /// A response-level failure wraps losslessly into the boundary level.
    fn from(e: ResponseError) -> (r: InterfaceError) {
        InterfaceError::Response(e)
    }
}

impl vstd::std_specs::convert::FromSpecImpl<ResponseError> for InterfaceError {
    open spec fn obeys_from_spec() -> bool {
        true
    }

    open spec fn from_spec(e: ResponseError) -> InterfaceError {
        InterfaceError::Response(e)
    }
}

/// The machine-stable description of a boundary-level failure.
pub open spec fn spec_interface_error_description(e: &InterfaceError) -> Seq<char> {
    match e {
        InterfaceError::Abort => "Aborted"@,
        InterfaceError::Response(_) => "Invalid response"@,
    }
}

/// The display string of a boundary-level failure: the wrapped failure shows
/// itself.
pub open spec fn spec_interface_error_display(e: &InterfaceError) -> Seq<char> {
    match e {
        InterfaceError::Abort => "InterfaceError::Abort"@,
        InterfaceError::Response(r) => spec_response_error_display(r),
    }
}

impl InterfaceError {
    /// Short machine-stable description, one per variant.
    pub fn description(&self) -> (r: &'static str)
        ensures
            r@ == spec_interface_error_description(self),
    {
        match self {
            InterfaceError::Abort => "Aborted",
            InterfaceError::Response(_) => "Invalid response",
        }
    }

    /// Human-readable display string; a wrapped failure displays itself.
    pub fn display_string(&self) -> (r: &'static str)
        ensures
            r@ == spec_interface_error_display(self),
    {
        match self {
            InterfaceError::Abort => "InterfaceError::Abort",
            InterfaceError::Response(e) => e.display_string(),
        }
    }

    /// The wrapped cause: present exactly on the wrapping variant.
    pub fn cause(&self) -> (r: Option<&ResponseError>)
        ensures
            (match self {
                InterfaceError::Response(e) => r matches Some(c) && c == e,
                InterfaceError::Abort => r is None,
            }),
    {
        match self {
            InterfaceError::Response(e) => Some(e),
            InterfaceError::Abort => None,
        }
    }
}

/// Relies on `std::io::Error` as an opaque value: the routing level carries
/// it as a wrapped cause and never looks inside it.
#[verifier::external_type_specification]
#[verifier::external_body]
pub struct ExIoError(std::io::Error);

/// The umbrella failure type of the routing engine: direct protocol faults,
/// and wrapping variants that losslessly carry a lower-tier cause.
#[derive(Debug)]
pub enum RoutingError {
    BadAuthority,
    AlreadyConnected,
    UnknownMessageType,
    FilterCheckFailed,
    FailedToBootstrap,
    RoutingTableEmpty,
    Interface(InterfaceError),
    Io(std::io::Error),
    Serialisation(DecodeError),
    Response(ResponseError),
}

impl From<ResponseError> for RoutingError {
    /// A response-level failure wraps directly, skipping the interface level.
    fn from(e: ResponseError) -> (r: RoutingError) {
        RoutingError::Response(e)
    }
}

impl vstd::std_specs::convert::FromSpecImpl<ResponseError> for RoutingError {
    open spec fn obeys_from_spec() -> bool {
        true
    }

    open spec fn from_spec(e: ResponseError) -> RoutingError {
        RoutingError::Response(e)
    }
}

impl From<InterfaceError> for RoutingError {
    /// A boundary-level failure wraps losslessly into the routing level.
    fn from(e: InterfaceError) -> (r: RoutingError) {
        RoutingError::Interface(e)
    }
}

impl vstd::std_specs::convert::FromSpecImpl<InterfaceError> for RoutingError {
    open spec fn obeys_from_spec() -> bool {
        true
    }

    open spec fn from_spec(e: InterfaceError) -> RoutingError {
        RoutingError::Interface(e)
    }
}

impl From<std::io::Error> for RoutingError {
    /// An I/O failure is wrapped opaquely, the cause preserved.
    fn from(e: std::io::Error) -> (r: RoutingError) {
        RoutingError::Io(e)
    }
}

impl vstd::std_specs::convert::FromSpecImpl<std::io::Error> for RoutingError {
    open spec fn obeys_from_spec() -> bool {
        true
    }

    open spec fn from_spec(e: std::io::Error) -> RoutingError {
        RoutingError::Io(e)
    }
}

impl From<DecodeError> for RoutingError {
    /// A serialisation failure is wrapped opaquely, the cause preserved.
    fn from(e: DecodeError) -> (r: RoutingError) {
        RoutingError::Serialisation(e)
    }
}

impl vstd::std_specs::convert::FromSpecImpl<DecodeError> for RoutingError {
    open spec fn obeys_from_spec() -> bool {
        true
    }

    open spec fn from_spec(e: DecodeError) -> RoutingError {
        RoutingError::Serialisation(e)
    }
}

/// A reference to the cause a routing-level failure directly wraps.
pub enum RoutingCause<'a> {
    Interface(&'a InterfaceError),
    Io(&'a std::io::Error),
    Serialisation(&'a DecodeError),
    Response(&'a ResponseError),
}

/// The machine-stable description of a routing-level failure.
pub open spec fn spec_routing_error_description(e: &RoutingError) -> Seq<char> {
    match e {
        RoutingError::BadAuthority => "Invalid authority"@,
        RoutingError::AlreadyConnected => "Already connected"@,
        RoutingError::UnknownMessageType => "Invalid message type"@,
        RoutingError::FilterCheckFailed => "Filter check failure"@,
        RoutingError::FailedToBootstrap => "Could not bootstrap"@,
        RoutingError::RoutingTableEmpty => "Routing table empty"@,
        RoutingError::Interface(_) => "Interface error"@,
        RoutingError::Io(_) => "I/O error"@,
        RoutingError::Serialisation(_) => "Serialisation error"@,
        RoutingError::Response(_) => "Response error"@,
    }
}

/// The display string of a routing-level failure: a wrapped boundary-level or
/// response-level failure displays itself; an opaque wrap shows its tier.
pub open spec fn spec_routing_error_display(e: &RoutingError) -> Seq<char> {
    match e {
        RoutingError::BadAuthority => "Invalid authority"@,
        RoutingError::AlreadyConnected => "Already connected"@,
        RoutingError::UnknownMessageType => "Invalid message type"@,
        RoutingError::FilterCheckFailed => "Filter check failure"@,
        RoutingError::FailedToBootstrap => "Could not bootstrap"@,
        RoutingError::RoutingTableEmpty => "Routing table empty"@,
        RoutingError::Interface(i) => spec_interface_error_display(i),
        RoutingError::Io(_) => "I/O error"@,
        RoutingError::Serialisation(_) => "Serialisation error"@,
        RoutingError::Response(r) => spec_response_error_display(r),
    }
}

/// The response-level failure at the bottom of a routing-level failure's
/// cause chain, if any: wrapped directly, or through a boundary-level failure.
pub open spec fn spec_nested_response(e: &RoutingError) -> Option<ResponseError> {
    match e {
        RoutingError::Response(r) => Some(*r),
        RoutingError::Interface(i) => match i {
            InterfaceError::Response(r) => Some(*r),
            InterfaceError::Abort => None,
        },
        _ => None,
    }
}

impl RoutingError {
    /// Short machine-stable description, one per variant.
    pub fn description(&self) -> (r: &'static str)
        ensures
            r@ == spec_routing_error_description(self),
    {
        match self {
            RoutingError::BadAuthority => "Invalid authority",
            RoutingError::AlreadyConnected => "Already connected",
            RoutingError::UnknownMessageType => "Invalid message type",
            RoutingError::FilterCheckFailed => "Filter check failure",
            RoutingError::FailedToBootstrap => "Could not bootstrap",
            RoutingError::RoutingTableEmpty => "Routing table empty",
            RoutingError::Interface(_) => "Interface error",
            RoutingError::Io(_) => "I/O error",
            RoutingError::Serialisation(_) => "Serialisation error",
            RoutingError::Response(_) => "Response error",
        }
    }

    /// Human-readable display string; wrapped failures display themselves.
    pub fn display_string(&self) -> (r: &'static str)
        ensures
            r@ == spec_routing_error_display(self),
    {
        match self {
            RoutingError::BadAuthority => "Invalid authority",
            RoutingError::AlreadyConnected => "Already connected",
            RoutingError::UnknownMessageType => "Invalid message type",
            RoutingError::FilterCheckFailed => "Filter check failure",
            RoutingError::FailedToBootstrap => "Could not bootstrap",
            RoutingError::RoutingTableEmpty => "Routing table empty",
            RoutingError::Interface(i) => i.display_string(),
            RoutingError::Io(_) => "I/O error",
            RoutingError::Serialisation(_) => "Serialisation error",
            RoutingError::Response(r) => r.display_string(),
        }
    }

    /// The directly wrapped cause: present exactly on the wrapping variants.
    pub fn cause<'a>(&'a self) -> (r: Option<RoutingCause<'a>>)
        ensures
            (match self {
                RoutingError::Interface(e) => r matches Some(RoutingCause::Interface(x)) && x
                    == e,
                RoutingError::Io(e) => r matches Some(RoutingCause::Io(x)) && x == e,
                RoutingError::Serialisation(e) => r matches Some(RoutingCause::Serialisation(x))
                    && x == e,
                RoutingError::Response(e) => r matches Some(RoutingCause::Response(x)) && x == e,
                _ => r is None,
            }),
    {
        match self {
            RoutingError::Interface(e) => Some(RoutingCause::Interface(e)),
            RoutingError::Io(e) => Some(RoutingCause::Io(e)),
            RoutingError::Serialisation(e) => Some(RoutingCause::Serialisation(e)),
            RoutingError::Response(e) => Some(RoutingCause::Response(e)),
            _ => None,
        }
    }

    /// Walks the cause chain down to the response-level failure at its
    /// bottom, if there is one.
    pub fn nested_response(&self) -> (r: Option<&ResponseError>)
        ensures
            (match spec_nested_response(self) {
                Some(c) => r matches Some(x) && *x == c,
                None => r is None,
            }),
    {
        match self {
            RoutingError::Response(e) => Some(e),
            RoutingError::Interface(i) => match i {
                InterfaceError::Response(e) => Some(e),
                InterfaceError::Abort => None,
            },
            _ => None,
        }
    }
}

/// Law: wrapping is lossless. A response-level failure carried into the
/// routing level — directly, or through a boundary-level failure — is still
/// the nested cause of the result.
pub proof fn lemma_error_chain_preserved(e: ResponseError)
    ensures
        spec_nested_response(&RoutingError::Interface(InterfaceError::Response(e))) == Some(e),
        spec_nested_response(&RoutingError::Response(e)) == Some(e),
{
}

} // verus!
