//! The simulateBundle path: precondition errors, the all-before-any decode
//! phase, chained simulation through a toy engine, and the wire shape of
//! the results.

use base64::Engine;
use surfpool_bundle::encoding::RequestedEncoding;
use surfpool_bundle::encoding::TxEncoding;
use surfpool_bundle::endpoint::SurfpoolJitoRpc;
use surfpool_bundle::errors::ErrorCode;
use surfpool_bundle::simulate::shape_simulation_results;
use surfpool_bundle::simulate::DecodedTransaction;
use surfpool_bundle::simulate::ReturnData;
use surfpool_bundle::simulate::SimOutcome;
use surfpool_bundle::simulate::SimulationConfig;

fn b64(data: &[u8]) -> String {
    base64::engine::general_purpose::STANDARD.encode(data)
}

fn config(encoding: Option<RequestedEncoding>) -> SimulationConfig {
    SimulationConfig { encoding, sig_verify: false }
}

/// A toy chained engine: account state is one byte, initially 0. A
/// one-byte transaction `[v]` sets the state to `v`; a two-byte
/// transaction `[v, _]` succeeds only if the state already equals `v`.
/// Later members observe earlier members' effects; nothing persists.
fn toy_engine(decoded: &[DecodedTransaction]) -> Vec<SimOutcome<String>> {
    let mut state: u8 = 0;
    let mut outcomes = Vec::new();
    for tx in decoded {
        let outcome = if tx.bytes.len() == 1 {
            state = tx.bytes[0];
            SimOutcome {
                err: None,
                logs: vec![format!("set {}", state)],
                units_consumed: 10,
                return_data: None,
            }
        } else if !tx.bytes.is_empty() && tx.bytes[0] == state {
            SimOutcome {
                err: None,
                logs: vec!["check ok".to_string()],
                units_consumed: 5,
                return_data: Some(ReturnData {
                    program_id: "toyprogram".to_string(),
                    data: tx.bytes.clone(),
                }),
            }
        } else {
            SimOutcome {
                err: Some("state mismatch".to_string()),
                logs: vec!["check failed".to_string()],
                units_consumed: 5,
                return_data: None,
            }
        };
        outcomes.push(outcome);
    }
    outcomes
}

#[test]
fn empty_simulation_bundle_is_invalid_params() {
    let rpc = SurfpoolJitoRpc;
    let e = rpc.prepare_simulate_bundle::<String>(true, &Vec::new(), None).err().unwrap();
    assert_eq!(e.code, ErrorCode::InvalidParams);
    assert_eq!(e.message, "Bundle cannot be empty");
}

#[test]
fn simulation_without_context_is_node_unhealthy() {
    let rpc = SurfpoolJitoRpc;
    let txs = vec![b64(&[1])];
    let e = rpc.prepare_simulate_bundle::<String>(false, &txs, None).err().unwrap();
    assert_eq!(e.code, ErrorCode::ServerError(-32005));
    assert_eq!(e.message, "Node is unhealthy");
}

#[test]
fn base64_and_base58_round_trip() {
    let rpc = SurfpoolJitoRpc;
    let payload: Vec<u8> = vec![1, 2, 3, 4, 250];

    let tx_b64 = vec![b64(&payload)];
    let plan = rpc
        .prepare_simulate_bundle::<String>(true, &tx_b64, Some(config(Some(RequestedEncoding::Base64))))
        .unwrap();
    assert_eq!(plan.transactions.len(), 1);
    assert_eq!(plan.transactions[0].bytes, payload);

    let tx_b58 = vec![bs58::encode(&payload).into_string()];
    let plan = rpc
        .prepare_simulate_bundle::<String>(true, &tx_b58, Some(config(Some(RequestedEncoding::Base58))))
        .unwrap();
    assert_eq!(plan.transactions[0].bytes, payload);
}

#[test]
fn default_encoding_is_base58() {
    let rpc = SurfpoolJitoRpc;
    let payload: Vec<u8> = vec![9, 8, 7];
    let txs = vec![bs58::encode(&payload).into_string()];
    let plan = rpc.prepare_simulate_bundle::<String>(true, &txs, None).unwrap();
    assert_eq!(plan.transactions[0].bytes, payload);
    assert!(!plan.sig_verify);
}

#[test]
fn unsupported_encoding_is_named_in_the_error() {
    let rpc = SurfpoolJitoRpc;
    let txs = vec![b64(&[1])];
    let e = rpc
        .prepare_simulate_bundle::<String>(true, &txs, Some(config(Some(RequestedEncoding::Json))))
        .err()
        .unwrap();
    assert_eq!(e.code, ErrorCode::InvalidParams);
    assert_eq!(e.message, "unsupported encoding: json. Supported encodings: base58, base64");

    let e = rpc
        .prepare_simulate_bundle::<String>(
            true,
            &txs,
            Some(config(Some(RequestedEncoding::JsonParsed))),
        )
        .err()
        .unwrap();
    assert_eq!(e.message, "unsupported encoding: jsonParsed. Supported encodings: base58, base64");
}

#[test]
fn fail_fast_decode_names_failing_index() {
    let rpc = SurfpoolJitoRpc;
    let txs = vec![b64(&[1]), "*** not base64 ***".to_string(), b64(&[2])];
    let mut simulations = 0usize;
    let r = rpc.prepare_simulate_bundle::<String>(
        true,
        &txs,
        Some(config(Some(RequestedEncoding::Base64))),
    );
    if let Ok(plan) = &r {
        simulations += toy_engine(&plan.transactions).len();
    }
    assert_eq!(simulations, 0);
    let e = r.err().unwrap();
    assert_eq!(e.code, ErrorCode::InvalidParams);
    assert_eq!(e.message, "Bundle transaction 1 failed to decode");
}

#[test]
fn chained_simulation_sees_earlier_effects() {
    let rpc = SurfpoolJitoRpc;
    // Member 1 sets the toy state to 7; member 2 succeeds only if it
    // already reads 7.
    let txs = vec![b64(&[7]), b64(&[7, 0])];
    let plan = rpc
        .prepare_simulate_bundle::<String>(true, &txs, Some(config(Some(RequestedEncoding::Base64))))
        .unwrap();
    let outcomes = toy_engine(&plan.transactions);
    let shaped = shape_simulation_results(outcomes, 1234);
    assert_eq!(shaped.len(), 2);
    assert!(shaped[0].value.err.is_none());
    assert!(shaped[1].value.err.is_none());
    assert_eq!(shaped[0].slot, 1234);
    assert_eq!(shaped[1].slot, 1234);

    // The same dependent member alone fails: the success above came from
    // the chained state, not from the member itself.
    let alone = vec![b64(&[7, 0])];
    let plan = rpc
        .prepare_simulate_bundle::<String>(true, &alone, Some(config(Some(RequestedEncoding::Base64))))
        .unwrap();
    let outcomes = toy_engine(&plan.transactions);
    assert_eq!(outcomes[0].err, Some("state mismatch".to_string()));
}

#[test]
fn return_data_is_always_base64_on_the_wire() {
    let outcomes = vec![SimOutcome::<String> {
        err: None,
        logs: vec!["log line".to_string()],
        units_consumed: 42,
        return_data: Some(ReturnData { program_id: "toyprogram".to_string(), data: vec![1, 2, 3] }),
    }];
    let shaped = shape_simulation_results(outcomes, 99);
    assert_eq!(shaped.len(), 1);
    assert_eq!(shaped[0].slot, 99);
    let step = &shaped[0].value;
    assert_eq!(step.logs, vec!["log line".to_string()]);
    assert_eq!(step.units_consumed, 42);
    let wire = step.return_data.as_ref().unwrap();
    assert_eq!(wire.program_id, "toyprogram");
    assert_eq!(wire.data_base64, "AQID");
    assert!(matches!(wire.encoding, TxEncoding::Base64));
}

#[test]
fn return_data_is_base64_even_for_base58_members() {
    let rpc = SurfpoolJitoRpc;
    let payload: Vec<u8> = vec![7];
    let check: Vec<u8> = vec![7, 0];
    let txs = vec![
        bs58::encode(&payload).into_string(),
        bs58::encode(&check).into_string(),
    ];
    let plan = rpc
        .prepare_simulate_bundle::<String>(true, &txs, Some(config(Some(RequestedEncoding::Base58))))
        .unwrap();
    let shaped = shape_simulation_results(toy_engine(&plan.transactions), 5);
    let wire = shaped[1].value.return_data.as_ref().unwrap();
    assert_eq!(
        wire.data_base64,
        base64::engine::general_purpose::STANDARD.encode(&check)
    );
    assert!(matches!(wire.encoding, TxEncoding::Base64));
}

#[test]
fn failure_outcome_carries_error_logs_and_units() {
    let outcomes = vec![SimOutcome::<String> {
        err: Some("custom failure".to_string()),
        logs: vec!["a".to_string(), "b".to_string()],
        units_consumed: 7,
        return_data: None,
    }];
    let shaped = shape_simulation_results(outcomes, 3);
    let step = &shaped[0].value;
    assert_eq!(step.err, Some("custom failure".to_string()));
    assert_eq!(step.logs, vec!["a".to_string(), "b".to_string()]);
    assert_eq!(step.units_consumed, 7);
    assert!(step.return_data.is_none());
}
