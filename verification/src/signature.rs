//! The string form of a submission signature. The single-transaction
//! submission primitive answers with a signature string; this module
//! validates it (base-58 text of the 64 signature bytes) before it feeds
//! the bundle identifier.

use vstd::prelude::*;
use crate::bundle_id::comma_free;
use crate::encoding::b58_decode;
use crate::encoding::b58_decoded;
use crate::errors::ErrorCode;
use crate::errors::RpcError;

verus! {

/// A validated signature string.
#[derive(Debug)]
pub struct SignatureText {
    text: String,
}

/// A string is signature text when it base-58 decodes to exactly the 64
/// signature bytes.
pub open spec fn is_signature_text(s: Seq<char>) -> bool {
    match b58_decoded(s) {
        Some(b) => b.len() == 64,
        None => false,
    }
}

impl View for SignatureText {
    type V = Seq<char>;

    closed spec fn view(&self) -> Seq<char> {
        self.text@
    }
}

impl DeepView for SignatureText {
    type V = Seq<char>;

    open spec fn deep_view(&self) -> Seq<char> {
        self.view()
    }
}

impl SignatureText {
    /// What every parsed signature carries: a non-empty, comma-free string,
    /// which keeps the comma-joined digest input unambiguous.
    pub open spec fn wf(&self) -> bool {
        self@.len() > 0 && comma_free(self@)
    }

    /// The signature string.
    pub fn text(&self) -> (r: &String)
        ensures
            r@ == self@,
    {
        &self.text
    }

    /// Gives the signature string up.
    pub fn into_text(self) -> (r: String)
        ensures
            r@ == self@,
    {
        self.text
    }
}

/// Parses the signature string a submission returned. Succeeds exactly
/// when the string is base-58 text of the 64 signature bytes; anything
/// else signals a protocol-level adapter fault and is reported as an
/// invalid-params error, since the primitive is expected to always answer
/// with a well-formed signature.
pub fn parse_signature<D>(s: String) -> (r: Result<SignatureText, RpcError<D>>)
    ensures
        r matches Ok(sig) ==> is_signature_text(s@) && sig@ == s@ && sig.wf(),
        r matches Err(e) ==> !is_signature_text(s@) && e.code == ErrorCode::InvalidParams
            && e.message@ == "Failed to parse signature"@ && e.data is None,
        r is Ok <==> is_signature_text(s@),
{
    match b58_decode(s.as_str()) {
        Some(bytes) => {
            if bytes.len() == 64 {
                Ok(SignatureText { text: s })
            } else {
                Err(RpcError::invalid_params("Failed to parse signature".to_owned()))
            }
        },
        None => Err(RpcError::invalid_params("Failed to parse signature".to_owned())),
    }
}

} // verus!
