//! Sequential bundle simulation: the decode phase, which must succeed for
//! every member before any simulation happens, and the shaping of the
//! engine's per-member outcomes for the wire. The chained simulation
//! itself — member `k` observing the effects of members `0..k-1` without
//! any of them persisting — is the execution engine's contract; this
//! module prepares its input and shapes its output, strictly in member
//! order.

use vstd::prelude::*;
use vstd::string::StringExecFns;
use crate::encoding::b64_encode;
use crate::encoding::b64_encoded;
use crate::encoding::decode_transaction_bytes;
use crate::encoding::decoded_of;
use crate::encoding::RequestedEncoding;
use crate::encoding::TxEncoding;
use crate::errors::dec_of;
use crate::errors::usize_to_dec;
use crate::errors::ErrorCode;
use crate::errors::RpcError;

verus! {

/// Settings for bundle simulation; defaults apply when the caller sent
/// none.
#[derive(Clone, Copy, Debug, PartialEq, Eq)]
pub struct SimulationConfig {
    pub encoding: Option<RequestedEncoding>,
    pub sig_verify: bool,
}

/// The simulation settings used when the caller sent none: default
/// encoding, no signature verification.
pub open spec fn spec_default_simulation_config() -> SimulationConfig {
    SimulationConfig { encoding: None, sig_verify: false }
}

impl Default for SimulationConfig {
    fn default() -> (r: Self)
        ensures
            r == spec_default_simulation_config(),
    {
        SimulationConfig { encoding: None, sig_verify: false }
    }
}

/// The caller's simulation config, or the default.
pub open spec fn effective_simulation_config(c: Option<SimulationConfig>) -> SimulationConfig {
    match c {
        Some(given) => given,
        None => spec_default_simulation_config(),
    }
}

/// A member decoded from its wire string: the transaction bytes handed to
/// the execution engine, owned by one simulate call.
#[derive(Debug)]
pub struct DecodedTransaction {
    pub bytes: Vec<u8>,
}

/// What the decode phase produces: every member decoded, in order, and the
/// signature-verification toggle for the engine.
#[derive(Debug)]
pub struct SimulationPlan {
    pub transactions: Vec<DecodedTransaction>,
    pub sig_verify: bool,
}

/// The message of the error that rejects a bundle whose member `index`
/// does not decode.
pub open spec fn decode_fail_msg(index: nat) -> Seq<char> {
    "Bundle transaction "@ + dec_of(index) + " failed to decode"@
}

/// Every member string decodes under the encoding.
pub open spec fn all_decode(txs: Seq<Seq<char>>, e: TxEncoding) -> bool {
    forall|i: int| 0 <= i < txs.len() ==> decoded_of(txs[i], e) is Some
}

/// `d` is the member-by-member decoding of `txs`, in order.
pub open spec fn decoded_list_of(txs: Seq<Seq<char>>, e: TxEncoding, d: Seq<DecodedTransaction>) -> bool {
    &&& d.len() == txs.len()
    &&& forall|i: int| 0 <= i < d.len() ==> Some((#[trigger] d[i]).bytes@) == decoded_of(txs[i], e)
}

/// `err` reports the first member of `txs` that does not decode: every
/// earlier member decodes, and the message names the failing index.
pub open spec fn first_decode_failure<D>(txs: Seq<Seq<char>>, e: TxEncoding, err: RpcError<D>) -> bool {
    exists|i: int|
        #![auto]
        {
            &&& 0 <= i < txs.len()
            &&& decoded_of(txs[i], e) is None
            &&& (forall|j: int| 0 <= j < i ==> decoded_of(txs[j], e) is Some)
            &&& err.code == ErrorCode::InvalidParams
            &&& err.message@ == decode_fail_msg(i as nat)
            &&& err.data is None
        }
}

/// Decodes every member before any simulation may happen: fail-fast on the
/// first member that does not decode, so that callers never see partial
/// simulation results mixed with decode errors.
pub fn decode_bundle<D>(transactions: &Vec<String>, encoding: TxEncoding) -> (r: Result<
    Vec<DecodedTransaction>,
    RpcError<D>,
>)
    ensures
        r is Ok <==> all_decode(transactions.deep_view(), encoding),
        r matches Ok(d) ==> decoded_list_of(transactions.deep_view(), encoding, d@),
        r matches Err(e) ==> first_decode_failure(transactions.deep_view(), encoding, e),
{
    let ghost txs = transactions.deep_view();
    let mut decoded: Vec<DecodedTransaction> = Vec::new();
    let mut i: usize = 0;
    while i < transactions.len()
        invariant
            txs == transactions.deep_view(),
            txs.len() == transactions@.len(),
            0 <= i <= txs.len(),
            decoded@.len() == i,
            forall|k: int|
                0 <= k < i ==> Some((#[trigger] decoded@[k]).bytes@) == decoded_of(txs[k], encoding),
        decreases txs.len() - i,
    {
        proof {
            assert(txs[i as int] == transactions@[i as int]@);
        }
        match decode_transaction_bytes(transactions[i].as_str(), encoding) {
            Some(bytes) => {
                decoded.push(DecodedTransaction { bytes });
                i = i + 1;
            },
            None => {
                let mut m = "Bundle transaction ".to_owned();
                let idx = usize_to_dec(i);
                m.append(idx.as_str());
                m.append(" failed to decode");
                proof {
                    assert(m@ =~= decode_fail_msg(i as nat));
                }
                let err = RpcError::invalid_params(m);
                proof {
                    let fi = i as int;
                    assert forall|j: int| 0 <= j < fi implies decoded_of(
                        txs[j],
                        encoding,
                    ) is Some by {
                        assert(Some(decoded@[j].bytes@) == decoded_of(txs[j], encoding));
                    }
                    assert(decoded_of(txs[fi], encoding) is None);
                    assert(first_decode_failure(txs, encoding, err));
                    assert(!all_decode(txs, encoding));
                }
                return Err(err);
            },
        }
    }
    proof {
        assert forall|k: int| 0 <= k < txs.len() implies decoded_of(txs[k], encoding) is Some by {
            assert(Some(decoded@[k].bytes@) == decoded_of(txs[k], encoding));
        }
        assert(all_decode(txs, encoding));
    }
    Ok(decoded)
}

/// Per-member outcome the execution engine reports: the error payload on
/// failure, the execution logs, the compute units consumed, and the raw
/// return data, if any.
#[derive(Debug)]
pub struct SimOutcome<E> {
    pub err: Option<E>,
    pub logs: Vec<String>,
    pub units_consumed: u64,
    pub return_data: Option<ReturnData>,
}

/// Raw return data of one simulated member.
#[derive(Debug)]
pub struct ReturnData {
    pub program_id: String,
    pub data: Vec<u8>,
}

/// Return data as the wire reports it: always base64-encoded, whatever the
/// transaction's own encoding was.
#[derive(Debug)]
pub struct WireReturnData {
    pub program_id: String,
    pub data_base64: String,
    pub encoding: TxEncoding,
}

/// One member's simulation result as the wire reports it.
#[derive(Debug)]
pub struct SimStepResult<E> {
    pub err: Option<E>,
    pub logs: Vec<String>,
    pub units_consumed: u64,
    pub return_data: Option<WireReturnData>,
}

/// A response envelope carrying the slot observed at call time. One
/// simulate call is a single point-in-time sweep, so every member's result
/// carries the same slot.
#[derive(Debug)]
pub struct RpcResponse<T> {
    pub slot: u64,
    pub value: T,
}

/// How one engine outcome is shaped for the wire: the error payload moved
/// through unchanged, logs and compute units carried unconditionally, and
/// return data re-encoded as base64.
pub open spec fn step_shaped<E>(o: SimOutcome<E>, s: SimStepResult<E>) -> bool {
    &&& s.err == o.err
    &&& s.logs.deep_view() == o.logs.deep_view()
    &&& s.units_consumed == o.units_consumed
    &&& match o.return_data {
        None => s.return_data is None,
        Some(rd) => s.return_data matches Some(w) && w.program_id@ == rd.program_id@
            && w.data_base64@ == b64_encoded(rd.data@) && w.encoding == TxEncoding::Base64,
    }
}

/// Shapes the engine's outcomes for the wire, in order, one result per
/// member, each wrapped with the same observed slot.
pub fn shape_simulation_results<E>(outcomes: Vec<SimOutcome<E>>, slot: u64) -> (r: Vec<
    RpcResponse<SimStepResult<E>>,
>)
    ensures
        r@.len() == outcomes@.len(),
        forall|i: int|
            0 <= i < r@.len() ==> (#[trigger] r@[i]).slot == slot && step_shaped(
                outcomes@[i],
                r@[i].value,
            ),
{
    let ghost orig = outcomes@;
    let mut rest = outcomes;
    let mut r: Vec<RpcResponse<SimStepResult<E>>> = Vec::new();
    while rest.len() > 0
        invariant
            orig.len() == r@.len() + rest@.len(),
            rest@ == orig.skip(r@.len() as int),
            forall|i: int|
                0 <= i < r@.len() ==> (#[trigger] r@[i]).slot == slot && step_shaped(
                    orig[i],
                    r@[i].value,
                ),
        decreases rest@.len(),
    {
        let ghost n = r@.len() as int;
        let o = rest.remove(0);
        proof {
            assert(o == orig[n]);
            assert(rest@ =~= orig.skip(n + 1));
        }
        let SimOutcome { err, logs, units_consumed, return_data } = o;
        let shaped_rd = match return_data {
            None => None,
            Some(rd) => {
                let encoded = b64_encode(&rd.data);
                Some(
                    WireReturnData {
                        program_id: rd.program_id,
                        data_base64: encoded,
                        encoding: TxEncoding::Base64,
                    },
                )
            },
        };
        let step = SimStepResult { err, logs, units_consumed, return_data: shaped_rd };
        r.push(RpcResponse { slot, value: step });
    }
    r
}

} // verus!
