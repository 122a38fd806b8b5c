//! Transaction-string encodings: which encodings the bundle methods
//! support, how a request's encoding choice is resolved, and the base-58 /
//! base-64 codecs behind them.

use vstd::prelude::*;
use vstd::string::StringExecFns;
use base64::Engine;
use crate::bundle_id::comma_free;
use crate::errors::ErrorCode;
use crate::errors::RpcError;

verus! {

/// An encoding the bundle methods support for transaction strings.
#[derive(Clone, Copy, Debug, PartialEq, Eq)]
pub enum TxEncoding {
    Base58,
    Base64,
}

/// An encoding named in a request config. Only `Base58` and `Base64` are
/// supported for bundle transactions; the others are rejected with an
/// error that names them.
#[derive(Clone, Copy, Debug, PartialEq, Eq)]
pub enum RequestedEncoding {
    Base58,
    Base64,
    Json,
    JsonParsed,
}

/// The wire name of a requested encoding.
pub open spec fn encoding_name(e: RequestedEncoding) -> Seq<char> {
    match e {
        RequestedEncoding::Base58 => "base58"@,
        RequestedEncoding::Base64 => "base64"@,
        RequestedEncoding::Json => "json"@,
        RequestedEncoding::JsonParsed => "jsonParsed"@,
    }
}

/// How a request's encoding choice resolves: absent means the base-58
/// default, the two binary encodings resolve to themselves, and the rest
/// are unsupported.
pub open spec fn spec_resolve_encoding(e: Option<RequestedEncoding>) -> Option<TxEncoding> {
    match e {
        None => Some(TxEncoding::Base58),
        Some(RequestedEncoding::Base58) => Some(TxEncoding::Base58),
        Some(RequestedEncoding::Base64) => Some(TxEncoding::Base64),
        Some(RequestedEncoding::Json) => None,
        Some(RequestedEncoding::JsonParsed) => None,
    }
}

/// The message that rejects an unsupported encoding, naming the offending
/// value.
pub open spec fn unsupported_encoding_msg(e: RequestedEncoding) -> Seq<char> {
    "unsupported encoding: "@ + encoding_name(e) + ". Supported encodings: base58, base64"@
}

impl RequestedEncoding {
    /// The wire name of this encoding.
    pub fn wire_name(&self) -> (r: &'static str)
        ensures
            r@ == encoding_name(*self),
    {
        match self {
            RequestedEncoding::Base58 => "base58",
            RequestedEncoding::Base64 => "base64",
            RequestedEncoding::Json => "json",
            RequestedEncoding::JsonParsed => "jsonParsed",
        }
    }
}

/// Resolves the requested encoding to a supported one, rejecting an
/// unsupported value with an invalid-params error that names it.
pub fn resolve_encoding<D>(requested: Option<RequestedEncoding>) -> (r: Result<
    TxEncoding,
    RpcError<D>,
>)
    ensures
        r matches Ok(enc) ==> spec_resolve_encoding(requested) == Some(enc),
        r matches Err(e) ==> ({
            &&& spec_resolve_encoding(requested) is None
            &&& e.code == ErrorCode::InvalidParams
            &&& e.data is None
            &&& requested matches Some(re) && e.message@ == unsupported_encoding_msg(re)
        }),
        r is Ok <==> spec_resolve_encoding(requested) is Some,
{
    match requested {
        None => Ok(TxEncoding::Base58),
        Some(RequestedEncoding::Base58) => Ok(TxEncoding::Base58),
        Some(RequestedEncoding::Base64) => Ok(TxEncoding::Base64),
        Some(other) => {
            let mut m = "unsupported encoding: ".to_owned();
            m.append(other.wire_name());
            m.append(". Supported encodings: base58, base64");
            proof {
                assert(m@ =~= unsupported_encoding_msg(other));
            }
            Err(RpcError::invalid_params(m))
        },
    }
}

/// What bs58 decoding returns for a given string, when it succeeds.
pub uninterp spec fn b58_decoded(s: Seq<char>) -> Option<Seq<u8>>;

/// What base64 decoding (standard alphabet, canonical padding) returns for
/// a given string, when it succeeds.
pub uninterp spec fn b64_decoded(s: Seq<char>) -> Option<Seq<u8>>;

/// What base64 encoding (standard alphabet, padded) returns for given
/// bytes.
pub uninterp spec fn b64_encoded(bytes: Seq<u8>) -> Seq<char>;

/// What bs58 decoding guarantees of its result: it agrees with the named
/// result, succeeds only on strings of the (comma-free) alphabet, and
/// accepts the empty string as no bytes.
pub open spec fn b58_decode_post(s: Seq<char>, r: Option<Seq<u8>>) -> bool {
    &&& r is Some <==> b58_decoded(s) is Some
    &&& (r matches Some(v) ==> b58_decoded(s) == Some(v) && comma_free(s))
    &&& (s.len() == 0 ==> (r matches Some(v) && v.len() == 0))
}

/// Relies on bs58::decode with its default (Bitcoin) alphabet: success and
/// result depend on the input string alone; every accepted character is in
/// the alphabet, which holds no comma; the empty string decodes to no
/// bytes.
#[verifier::external_body]
pub(crate) fn b58_decode(s: &str) -> (r: Option<Vec<u8>>)
    ensures
        r is Some <==> b58_decoded(s@) is Some,
        b58_decode_post(s@, r.deep_view()),
{
    match bs58::decode(s).into_vec() {
        Ok(v) => Some(v),
        Err(_) => None,
    }
}

/// Relies on base64's standard-alphabet engine: success and result depend
/// on the input string alone.
#[verifier::external_body]
pub(crate) fn b64_decode(s: &str) -> (r: Option<Vec<u8>>)
    ensures
        r is Some <==> b64_decoded(s@) is Some,
        r matches Some(v) ==> b64_decoded(s@) == Some(v@),
{
    match base64::engine::general_purpose::STANDARD.decode(s) {
        Ok(v) => Some(v),
        Err(_) => None,
    }
}

/// Relies on base64's standard-alphabet engine with padding: the encoded
/// form depends on the input bytes alone; no bytes encode to the empty
/// string.
#[verifier::external_body]
pub(crate) fn b64_encode(bytes: &Vec<u8>) -> (r: String)
    ensures
        r@ == b64_encoded(bytes@),
        bytes@.len() == 0 ==> r@.len() == 0,
{
    base64::engine::general_purpose::STANDARD.encode(bytes)
}

/// The byte form of an encoded transaction string under an encoding.
pub open spec fn decoded_of(s: Seq<char>, e: TxEncoding) -> Option<Seq<u8>> {
    match e {
        TxEncoding::Base58 => b58_decoded(s),
        TxEncoding::Base64 => b64_decoded(s),
    }
}

/// Decodes one encoded transaction string under the given encoding.
pub fn decode_transaction_bytes(s: &str, encoding: TxEncoding) -> (r: Option<Vec<u8>>)
    ensures
        r is Some <==> decoded_of(s@, encoding) is Some,
        r matches Some(v) ==> decoded_of(s@, encoding) == Some(v@),
{
    match encoding {
        TxEncoding::Base58 => b58_decode(s),
        TxEncoding::Base64 => b64_decode(s),
    }
}

} // verus!
