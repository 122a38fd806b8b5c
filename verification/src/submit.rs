//! Sequential, fail-fast bundle submission. A `SubmitRun` owns one
//! in-progress sendBundle call: it hands out one member at a time, with the
//! caller's config overridden to force-disable preflight, collects the
//! signature each successful submission answers with, aborts on the first
//! failure with an index-annotated error, and finally derives the bundle
//! identifier from the collected signatures.

use vstd::prelude::*;
use vstd::string::StringExecFns;
use crate::bundle_id::bundle_id_of;
use crate::bundle_id::derive_bundle_id;
use crate::bundle_id::plain_signature_list;
use crate::encoding::RequestedEncoding;
use crate::errors::dec_of;
use crate::errors::usize_to_dec;
use crate::errors::RpcError;
use crate::signature::is_signature_text;
use crate::signature::parse_signature;
use crate::signature::SignatureText;

verus! {

/// Commitment level a submission config may ask preflight to use.
#[derive(Clone, Copy, Debug, PartialEq, Eq)]
pub enum CommitmentLevel {
    Processed,
    Confirmed,
    Finalized,
}

/// Settings for transaction submission. For bundle submission,
/// `skip_preflight` is forced true whatever the caller asked, mirroring
/// the block engine, which does not preflight bundle members.
#[derive(Clone, Copy, Debug, PartialEq, Eq)]
pub struct SubmissionConfig {
    pub skip_preflight: bool,
    pub preflight_commitment: Option<CommitmentLevel>,
    pub encoding: Option<RequestedEncoding>,
    pub max_retries: Option<u64>,
    pub min_context_slot: Option<u64>,
}

/// The submission settings used when the caller sent none.
pub open spec fn spec_default_submission_config() -> SubmissionConfig {
    SubmissionConfig {
        skip_preflight: false,
        preflight_commitment: None,
        encoding: None,
        max_retries: None,
        min_context_slot: None,
    }
}

impl Default for SubmissionConfig {
    fn default() -> (r: Self)
        ensures
            r == spec_default_submission_config(),
    {
        SubmissionConfig {
            skip_preflight: false,
            preflight_commitment: None,
            encoding: None,
            max_retries: None,
            min_context_slot: None,
        }
    }
}

/// The caller's config, or the default, with preflight forced off.
pub open spec fn forced_bundle_config(c: Option<SubmissionConfig>) -> SubmissionConfig {
    match c {
        Some(given) => SubmissionConfig { skip_preflight: true, ..given },
        None => SubmissionConfig { skip_preflight: true, ..spec_default_submission_config() },
    }
}

/// The message of the error that aborts a bundle at member `index`: the
/// member's error message, prefixed with the position that failed.
pub open spec fn bundle_fail_msg(index: nat, message: Seq<char>) -> Seq<char> {
    "Bundle transaction "@ + dec_of(index) + " failed: "@ + message
}

/// Rewrites a member's submission error for the bundle response: code and
/// data pass through unchanged, the message is prefixed with the 0-based
/// index of the failing member.
pub fn annotate_bundle_failure<D>(index: usize, error: RpcError<D>) -> (r: RpcError<D>)
    ensures
        r.code == error.code,
        r.data == error.data,
        r.message@ == bundle_fail_msg(index as nat, error.message@),
{
    let RpcError { code, message, data } = error;
    let mut m = "Bundle transaction ".to_owned();
    let idx = usize_to_dec(index);
    m.append(idx.as_str());
    m.append(" failed: ");
    m.append(message.as_str());
    proof {
        assert(m@ =~= bundle_fail_msg(index as nat, message@));
    }
    RpcError { code, message: m, data }
}

/// One in-progress sendBundle call: the ordered members, the forced
/// config, how many members have gone out, and the signatures collected so
/// far, in submission order.
pub struct SubmitRun {
    transactions: Vec<String>,
    config: SubmissionConfig,
    next_index: usize,
    signatures: Vec<SignatureText>,
}

impl SubmitRun {
    /// The encoded member strings, in order.
    pub closed spec fn spec_transactions(&self) -> Seq<Seq<char>> {
        self.transactions.deep_view()
    }

    /// The forced per-member submission config.
    pub closed spec fn spec_config(&self) -> SubmissionConfig {
        self.config
    }

    /// The index of the next member to submit.
    pub closed spec fn spec_next_index(&self) -> int {
        self.next_index as int
    }

    /// The signature strings collected so far, in submission order.
    pub closed spec fn spec_signatures(&self) -> Seq<Seq<char>> {
        self.signatures.deep_view()
    }

    /// What holds of every run: one collected signature per submitted
    /// member, every signature a non-empty comma-free string, and
    /// preflight forced off.
    pub open spec fn wf(&self) -> bool {
        &&& 0 <= self.spec_next_index() <= self.spec_transactions().len()
        &&& self.spec_signatures().len() == self.spec_next_index()
        &&& plain_signature_list(self.spec_signatures())
        &&& self.spec_config().skip_preflight
    }

    /// Every member has been submitted.
    pub open spec fn spec_done(&self) -> bool {
        self.spec_next_index() == self.spec_transactions().len()
    }

    /// Starts a run over the given members with the caller's config (or
    /// the default), preflight forced off.
    pub(crate) fn new(transactions: Vec<String>, config: Option<SubmissionConfig>) -> (r: Self)
        ensures
            r.wf(),
            r.spec_transactions() == transactions.deep_view(),
            r.spec_config() == forced_bundle_config(config),
            r.spec_next_index() == 0,
            r.spec_signatures() == Seq::<Seq<char>>::empty(),
    {
        let base = match config {
            Some(given) => given,
            None => SubmissionConfig::default(),
        };
        let forced = SubmissionConfig {
            skip_preflight: true,
            preflight_commitment: base.preflight_commitment,
            encoding: base.encoding,
            max_retries: base.max_retries,
            min_context_slot: base.min_context_slot,
        };
        let r = SubmitRun { transactions, config: forced, next_index: 0, signatures: Vec::new() };
        proof {
            assert(r.spec_signatures() =~= Seq::<Seq<char>>::empty());
        }
        r
    }

    /// The next member to submit: its 0-based index, its encoded string,
    /// and the forced config. `None` once every member has gone out.
    pub fn next_request(&self) -> (r: Option<(usize, String, SubmissionConfig)>)
        requires
            self.wf(),
        ensures
            r is None <==> self.spec_done(),
            r matches Some(t) ==> ({
                &&& t.0 as int == self.spec_next_index()
                &&& t.1@ == self.spec_transactions()[t.0 as int]
                &&& t.2 == self.spec_config()
                &&& t.2.skip_preflight
            }),
    {
        if self.next_index < self.transactions.len() {
            let tx = self.transactions[self.next_index].clone();
            Some((self.next_index, tx, self.config))
        } else {
            None
        }
    }

    /// Takes the signature string a successful submission answered with:
    /// it is validated and collected, and the run advances to the next
    /// member. A malformed signature signals an adapter fault: the run is
    /// left unchanged and an invalid-params error is returned.
    pub fn on_submit_ok<D>(&mut self, signature: String) -> (r: Result<(), RpcError<D>>)
        requires
            old(self).wf(),
            !old(self).spec_done(),
        ensures
            final(self).wf(),
            final(self).spec_transactions() == old(self).spec_transactions(),
            final(self).spec_config() == old(self).spec_config(),
            r is Ok <==> is_signature_text(signature@),
            r matches Ok(u) ==> ({
                &&& final(self).spec_next_index() == old(self).spec_next_index() + 1
                &&& final(self).spec_signatures() == old(self).spec_signatures().push(signature@)
            }),
            r matches Err(e) ==> ({
                &&& final(self).spec_next_index() == old(self).spec_next_index()
                &&& final(self).spec_signatures() == old(self).spec_signatures()
                &&& e.code == crate::errors::ErrorCode::InvalidParams
                &&& e.message@ == "Failed to parse signature"@
                &&& e.data is None
            }),
    {
        match parse_signature(signature) {
            Ok(sig) => {
                let ghost sv = sig@;
                let ghost before = self.signatures.deep_view();
                let member_count = self.transactions.len();
                proof {
                    assert(self.next_index < member_count);
                }
                self.signatures.push(sig);
                self.next_index = self.next_index + 1;
                proof {
                    assert(self.signatures.deep_view() =~= before.push(sv));
                }
                Ok(())
            },
            Err(e) => Err(e),
        }
    }

    /// Ends a completed run: the bundle identifier over the collected
    /// signatures, in submission order.
    pub fn finish(self) -> (r: String)
        requires
            self.wf(),
            self.spec_done(),
        ensures
            r@ == bundle_id_of(self.spec_signatures()),
            r@.len() == 64,
    {
        let mut texts: Vec<String> = Vec::new();
        let mut i: usize = 0;
        while i < self.signatures.len()
            invariant
                0 <= i <= self.signatures@.len(),
                texts@.len() == i,
                forall|k: int|
                    0 <= k < i ==> texts.deep_view()[k] == self.signatures.deep_view()[k],
            decreases self.signatures@.len() - i,
        {
            let t = self.signatures[i].text().clone();
            proof {
                assert(self.signatures.deep_view()[i as int] == self.signatures@[i as int].deep_view());
                assert(t@ == self.signatures.deep_view()[i as int]);
            }
            let ghost before = texts.deep_view();
            let ghost tv = t@;
            texts.push(t);
            proof {
                assert(texts.deep_view() =~= before.push(tv));
            }
            i = i + 1;
        }
        proof {
            assert(texts.deep_view() =~= self.spec_signatures());
        }
        derive_bundle_id(&texts)
    }
}

} // verus!
