use vstd::prelude::*;

verus! {

/// The encoding of a payload's bytes.
#[derive(PartialEq, Eq, Structural, Clone, Copy, Debug)]
pub enum PayloadFormat {
    /// A protobuf message packed into `google.protobuf.Any`.
    ProtobufWrappedInAny,
    /// Uninterpreted bytes.
    Raw,
}

/// The mathematical value of a [`UPayload`].
pub struct PayloadView {
    pub data: Seq<u8>,
    pub format: PayloadFormat,
}

/// The bytes carried by a message, with the tag that says how to read them.
pub struct UPayload {
    pub data: Vec<u8>,
    pub format: PayloadFormat,
}

/// Why a payload could not be built.
#[derive(PartialEq, Eq, Structural, Clone, Copy, Debug)]
pub enum PayloadError {
    /// The value could not be serialized.
    Serialization,
}

impl View for UPayload {
    type V = PayloadView;

    open spec fn view(&self) -> PayloadView {
        PayloadView { data: self.data@, format: self.format }
    }
}

/// The bytes of `google.protobuf.Any` holding a `StringValue` whose value is `s`.
pub uninterp spec fn packed_text(s: Seq<char>) -> Seq<u8>;

/// The value of the `StringValue` packed into the `google.protobuf.Any` that `b`
/// encodes, or `None` where `b` encodes no such message.
pub uninterp spec fn unpacked_text(b: Seq<u8>) -> Option<Seq<char>>;

/// The view of an optional string.
pub open spec fn opt_string_view(s: Option<String>) -> Option<Seq<char>> {
    match s {
        Some(x) => Some(x@),
        None => None,
    }
}

/// The view of an optional payload.
pub open spec fn opt_payload_view(p: Option<UPayload>) -> Option<PayloadView> {
    match p {
        Some(x) => Some(x@),
        None => None,
    }
}

/// The text that a payload holds: only a packed `StringValue` holds one.
pub open spec fn payload_text(p: PayloadView) -> Option<Seq<char>> {
    if p.format == PayloadFormat::ProtobufWrappedInAny {
        unpacked_text(p.data)
    } else {
        None
    }
}

/// The text held by an optional payload; no payload holds no text.
pub open spec fn opt_payload_text(p: Option<PayloadView>) -> Option<Seq<char>> {
    match p {
        Some(x) => payload_text(x),
        None => None,
    }
}

/// Relies on `up_rust::communication::UPayload::try_from_protobuf`, applied to a
/// protobuf `StringValue`: it packs the message into `google.protobuf.Any` and
/// serializes that, and `Any::unpack` gives the message back. Serializing fails
/// only for an encoding over `i32::MAX` bytes, which a string of fewer than
/// 2^28 characters (at most 4 bytes each in UTF-8) cannot reach.
#[verifier::external_body]
fn pack_string_value(s: String) -> (r: Option<Vec<u8>>)
    ensures
        r matches Some(b) ==> b@ == packed_text(s@) && unpacked_text(b@) == Some(s@),
        s@.len() < 0x1000_0000 ==> r is Some,
{
    let mut v = protobuf::well_known_types::wrappers::StringValue::new();
    v.value = s;
    up_rust::communication::UPayload::try_from_protobuf(v).ok().map(|p| p.payload().to_vec())
}

/// Relies on `up_rust::communication::UPayload::extract_protobuf` for a payload
/// in the `UPAYLOAD_FORMAT_PROTOBUF_WRAPPED_IN_ANY` format: it parses the bytes
/// as `google.protobuf.Any` and unpacks a `StringValue` from it.
#[verifier::external_body]
fn unpack_string_value(b: &Vec<u8>) -> (r: Option<String>)
    ensures
        opt_string_view(r) == unpacked_text(b@),
{
    let p = up_rust::communication::UPayload::new(
        b.clone(),
        up_rust::UPayloadFormat::UPAYLOAD_FORMAT_PROTOBUF_WRAPPED_IN_ANY,
    );
    p.extract_protobuf::<protobuf::well_known_types::wrappers::StringValue>().ok().map(|v| v.value)
}

impl UPayload {
    /// A payload that holds `value` as a packed protobuf `StringValue`. It fails
    /// only where the encoding would exceed protobuf's message size limit.
    pub fn from_string(value: String) -> (r: Result<UPayload, PayloadError>)
        ensures
            r matches Ok(p) ==> p@.format == PayloadFormat::ProtobufWrappedInAny && p@.data
                == packed_text(value@) && payload_text(p@) == Some(value@),
            r matches Err(e) ==> e == PayloadError::Serialization,
            value@.len() < 0x1000_0000 ==> r is Ok,
    {
        match pack_string_value(value) {
            Some(data) => Ok(UPayload { data, format: PayloadFormat::ProtobufWrappedInAny }),
            None => Err(PayloadError::Serialization),
        }
    }

    /// A payload that holds `data` as uninterpreted bytes; it holds no text.
    pub fn from_bytes(data: Vec<u8>) -> (r: UPayload)
        ensures
            r@ == (PayloadView { data: data@, format: PayloadFormat::Raw }),
            payload_text(r@) == None::<Seq<char>>,
    {
        UPayload { data, format: PayloadFormat::Raw }
    }

    /// The text that this payload holds, or `None` where it holds none.
    pub fn extract_string(&self) -> (r: Option<String>)
        ensures
            opt_string_view(r) == payload_text(self@),
    {
        match self.format {
            PayloadFormat::ProtobufWrappedInAny => unpack_string_value(&self.data),
            PayloadFormat::Raw => None,
        }
    }

    /// An independent copy of this payload.
    pub fn duplicate(&self) -> (r: UPayload)
        ensures
            r@ == self@,
    {
        UPayload { data: self.data.clone(), format: self.format }
    }
}

/// Copies an optional payload.
pub fn duplicate_payload(p: &Option<UPayload>) -> (r: Option<UPayload>)
    ensures
        opt_payload_view(r) == opt_payload_view(*p),
{
    match p {
        Some(x) => Some(x.duplicate()),
        None => None,
    }
}

} // verus!
