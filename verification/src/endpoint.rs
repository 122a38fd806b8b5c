//! The bundle endpoint: precondition checks (non-empty bundle, healthy
//! execution context), encoding resolution, and dispatch into the
//! sequential submitter or the simulator's decode phase. The transport
//! layer drives the external submission and simulation primitives and
//! hands their answers back to the types these entry points return.

use vstd::prelude::*;
use crate::encoding::resolve_encoding;
use crate::encoding::spec_resolve_encoding;
use crate::encoding::unsupported_encoding_msg;
use crate::errors::ErrorCode;
use crate::errors::RpcError;
use crate::errors::NODE_UNHEALTHY_CODE;
use crate::simulate::all_decode;
use crate::simulate::decode_bundle;
use crate::simulate::decoded_list_of;
use crate::simulate::effective_simulation_config;
use crate::simulate::first_decode_failure;
use crate::simulate::SimulationConfig;
use crate::simulate::SimulationPlan;
use crate::submit::forced_bundle_config;
use crate::submit::SubmissionConfig;
use crate::submit::SubmitRun;

verus! {

/// The bundle RPC endpoint.
#[derive(Clone, Copy)]
pub struct SurfpoolJitoRpc;

impl SurfpoolJitoRpc {
    /// Opens a sendBundle call. An empty bundle is rejected as invalid
    /// params before anything else; without an active execution context
    /// the node-unhealthy error is returned; otherwise the sequential
    /// submission run starts, with preflight forced off.
    pub fn begin_send_bundle<D>(
        &self,
        ctx_available: bool,
        transactions: Vec<String>,
        config: Option<SubmissionConfig>,
    ) -> (r: Result<SubmitRun, RpcError<D>>)
        ensures
            transactions@.len() == 0 ==> (r matches Err(e) && ({
                &&& e.code == ErrorCode::InvalidParams
                &&& e.message@ == "Bundle cannot be empty"@
                &&& e.data is None
            })),
            transactions@.len() > 0 && !ctx_available ==> (r matches Err(e) && ({
                &&& e.code == ErrorCode::ServerError(NODE_UNHEALTHY_CODE)
                &&& e.message@ == "Node is unhealthy"@
                &&& e.data is None
            })),
            transactions@.len() > 0 && ctx_available ==> (r matches Ok(run) && ({
                &&& run.wf()
                &&& run.spec_transactions() == transactions.deep_view()
                &&& run.spec_config() == forced_bundle_config(config)
                &&& run.spec_next_index() == 0
                &&& run.spec_signatures() == Seq::<Seq<char>>::empty()
            })),
    {
        if transactions.len() == 0 {
            return Err(RpcError::invalid_params("Bundle cannot be empty".to_owned()));
        }
        if !ctx_available {
            return Err(RpcError::node_unhealthy());
        }
        Ok(SubmitRun::new(transactions, config))
    }

    /// Opens a simulateBundle call. An empty bundle is rejected as invalid
    /// params before anything else; without an active execution context
    /// the node-unhealthy error is returned; an unsupported encoding is
    /// rejected naming the value; then every member must decode before any
    /// simulation may happen, fail-fast on the first that does not. On
    /// success the plan holds every member decoded, in order, and the
    /// signature-verification toggle for the engine.
    pub fn prepare_simulate_bundle<D>(
        &self,
        ctx_available: bool,
        transactions: &Vec<String>,
        config: Option<SimulationConfig>,
    ) -> (r: Result<SimulationPlan, RpcError<D>>)
        ensures
            transactions@.len() == 0 ==> (r matches Err(e) && ({
                &&& e.code == ErrorCode::InvalidParams
                &&& e.message@ == "Bundle cannot be empty"@
                &&& e.data is None
            })),
            transactions@.len() > 0 && !ctx_available ==> (r matches Err(e) && ({
                &&& e.code == ErrorCode::ServerError(NODE_UNHEALTHY_CODE)
                &&& e.message@ == "Node is unhealthy"@
                &&& e.data is None
            })),
            transactions@.len() > 0 && ctx_available && spec_resolve_encoding(
                effective_simulation_config(config).encoding,
            ) is None ==> (r matches Err(e) && ({
                &&& e.code == ErrorCode::InvalidParams
                &&& effective_simulation_config(config).encoding matches Some(re)
                    && e.message@ == unsupported_encoding_msg(re)
                &&& e.data is None
            })),
            transactions@.len() > 0 && ctx_available ==> (spec_resolve_encoding(
                effective_simulation_config(config).encoding,
            ) matches Some(enc) ==> ({
                &&& r is Ok <==> all_decode(transactions.deep_view(), enc)
                &&& (r matches Ok(plan) ==> decoded_list_of(
                    transactions.deep_view(),
                    enc,
                    plan.transactions@,
                ) && plan.sig_verify == effective_simulation_config(config).sig_verify)
                &&& (r matches Err(e) ==> first_decode_failure(transactions.deep_view(), enc, e))
            })),
    {
        if transactions.len() == 0 {
            return Err(RpcError::invalid_params("Bundle cannot be empty".to_owned()));
        }
        if !ctx_available {
            return Err(RpcError::node_unhealthy());
        }
        let effective = match config {
            Some(given) => given,
            None => SimulationConfig::default(),
        };
        let encoding = match resolve_encoding(effective.encoding) {
            Ok(enc) => enc,
            Err(e) => {
                return Err(e);
            },
        };
        let decoded = match decode_bundle(transactions, encoding) {
            Ok(d) => d,
            Err(e) => {
                return Err(e);
            },
        };
        Ok(SimulationPlan { transactions: decoded, sig_verify: effective.sig_verify })
    }
}

} // verus!
