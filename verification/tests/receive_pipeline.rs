use std::collections::HashMap;
use std::str::FromStr;

use payjoin_receive::bridge::{BtcAddress, RawTransaction};
use payjoin_receive::error::PayjoinError;
use payjoin_receive::receive::{
    decide_broadcast_answer, decide_screening_answers, decide_receiver_outputs, Headers,
    PayjoinProposal, UncheckedProposal,
};
use payjoin_receive::types::{IsOutputKnown, IsScriptOwned, OutPoint, ScriptBuf, TxOut};

// OriginalPSBT test vector from BIP78:
// | InputScriptType | Original PSBT fee rate | maxadditionalfeecontribution | additionalfeeoutputindex |
// | P2SH-P2WPKH     | 2 sat/vbyte            | 0.00000182                   | 0                        |
const ORIGINAL_PSBT: &str = "cHNidP8BAHMCAAAAAY8nutGgJdyYGXWiBEb45Hoe9lWGbkxh/6bNiOJdCDuDAAAAAAD+////AtyVuAUAAAAAF6kUHehJ8GnSdBUOOv6ujXLrWmsJRDCHgIQeAAAAAAAXqRR3QJbbz0hnQ8IvQ0fptGn+votneofTAAAAAAEBIKgb1wUAAAAAF6kU3k4ekGHKWRNbA1rV5tR5kEVDVNCHAQcXFgAUx4pFclNVgo1WWAdN1SYNX8tphTABCGsCRzBEAiB8Q+A6dep+Rz92vhy26lT0AjZn4PRLi8Bf9qoB/CMk0wIgP/Rj2PWZ3gEjUkTlhDRNAQ0gXwTO7t9n+V14pZ6oljUBIQMVmsAaoNWHVMS02LfTSe0e388LNitPa1UQZyOihY+FFgABABYAFEb2Giu6c4KO5YW0pfw3lGp9jMUUAAA=";

const QUERY: &str = "?maxadditionalfeecontribution=182?additionalfeeoutputindex=0";

const RECEIVER_ADDRESS: &str = "3CZZi7aWFugaCdUCS15dgrUUViupmB8bVM";

struct RequestHeaders {
    map: HashMap<String, String>,
}

impl payjoin::receive::Headers for RequestHeaders {
    fn get_header(&self, key: &str) -> Option<&str> {
        self.map.get(key).map(|v| v.as_str())
    }
}

fn request_headers(headers: &Headers) -> RequestHeaders {
    let mut map = HashMap::new();
    for (name, value) in headers.get_map() {
        map.insert(name, value);
    }
    RequestHeaders { map }
}

fn get_proposal_from_test_vector() -> Result<UncheckedProposal, PayjoinError> {
    let body = ORIGINAL_PSBT.as_bytes().to_vec();
    let headers = Headers::from_vec(body.clone());
    UncheckedProposal::from_request(body, QUERY.to_string(), request_headers(&headers))
}

fn receiver_script_bytes() -> Vec<u8> {
    payjoin::bitcoin::Address::from_str(RECEIVER_ADDRESS)
        .unwrap()
        .assume_checked()
        .script_pubkey()
        .to_bytes()
}

struct MockScriptOwned {
    owned_script: Vec<u8>,
}

impl IsScriptOwned for MockScriptOwned {
    fn is_owned(&self, script: &ScriptBuf) -> Result<bool, PayjoinError> {
        Ok(script.bytes == self.owned_script)
    }
}

struct MockOutputOwned {}

impl IsOutputKnown for MockOutputOwned {
    fn is_known(&self, _: &OutPoint) -> Result<bool, PayjoinError> {
        Ok(false)
    }
}

struct OwnsEverything {}

impl IsScriptOwned for OwnsEverything {
    fn is_owned(&self, _: &ScriptBuf) -> Result<bool, PayjoinError> {
        Ok(true)
    }
}

struct FailingScriptPort {}

impl IsScriptOwned for FailingScriptPort {
    fn is_owned(&self, _: &ScriptBuf) -> Result<bool, PayjoinError> {
        Err(PayjoinError::RequestMalformed)
    }
}

struct SeenEverything {}

impl IsOutputKnown for SeenEverything {
    fn is_known(&self, _: &OutPoint) -> Result<bool, PayjoinError> {
        Ok(true)
    }
}

struct FailingSeenPort {}

impl IsOutputKnown for FailingSeenPort {
    fn is_known(&self, _: &OutPoint) -> Result<bool, PayjoinError> {
        Err(PayjoinError::RequestMalformed)
    }
}

/// Drive the test-vector proposal through all checks to the builder.
fn checked_builder() -> PayjoinProposal {
    let mut proposal = get_proposal_from_test_vector().unwrap();
    let mock = MockScriptOwned { owned_script: receiver_script_bytes() };
    let mut stage1 = proposal.assume_interactive_receiver().unwrap();
    let mut stage2 = stage1.check_inputs_not_owned(&mock).expect("No inputs should be owned");
    let mut stage3 = stage2.check_no_mixed_input_scripts().expect("No mixed input scripts");
    let mut stage4 = stage3
        .check_no_inputs_seen_before(&MockOutputOwned {})
        .expect("No inputs should be seen before");
    stage4.identify_receiver_outputs(&mock).expect("Receiver output should be identified")
}

fn txid_a() -> String {
    "1111111111111111111111111111111111111111111111111111111111111111".to_string()
}

fn txid_b() -> String {
    "2222222222222222222222222222222222222222222222222222222222222222".to_string()
}

#[test]
fn can_get_proposal_from_request() {
    let proposal = get_proposal_from_test_vector();
    assert!(proposal.is_ok(), "OriginalPSBT should be a valid request");
}

#[test]
fn unchecked_proposal_unlocks_after_checks() {
    let mut payjoin = checked_builder();
    let payjoin = payjoin.apply_fee(None);
    assert!(payjoin.is_ok(), "Payjoin should be a valid PSBT");
}

#[test]
fn malformed_request_is_rejected() {
    let body = b"definitely not a PSBT".to_vec();
    let headers = Headers::from_vec(body.clone());
    let r = UncheckedProposal::from_request(body, QUERY.to_string(), request_headers(&headers));
    assert!(matches!(r, Err(PayjoinError::RequestMalformed)));
}

#[test]
fn original_transaction_round_trips() {
    let proposal = get_proposal_from_test_vector().unwrap();
    let tx = proposal.get_transaction_to_schedule_broadcast().unwrap();
    let bytes = tx.serialize();
    let tx_again = RawTransaction::deserialize(&bytes).unwrap();
    assert_eq!(bytes, tx_again.serialize());
    assert_eq!(tx.output_count(), 2);
}

#[test]
fn consuming_twice_reports_illegal_reuse() {
    let mut proposal = get_proposal_from_test_vector().unwrap();
    assert!(proposal.assume_interactive_receiver().is_ok());
    assert!(matches!(
        proposal.assume_interactive_receiver(),
        Err(PayjoinError::IllegalReuse)
    ));
    assert!(matches!(
        proposal.get_transaction_to_schedule_broadcast(),
        Err(PayjoinError::IllegalReuse)
    ));
}

#[test]
fn owned_input_is_rejected() {
    let mut proposal = get_proposal_from_test_vector().unwrap();
    let mut stage1 = proposal.assume_interactive_receiver().unwrap();
    let r = stage1.check_inputs_not_owned(&OwnsEverything {});
    assert!(matches!(r, Err(PayjoinError::ValidationRejected)));
    // The failed handle is consumed for good.
    assert!(matches!(
        stage1.check_inputs_not_owned(&OwnsEverything {}),
        Err(PayjoinError::IllegalReuse)
    ));
}

#[test]
fn failing_ownership_callback_is_surfaced() {
    let mut proposal = get_proposal_from_test_vector().unwrap();
    let mut stage1 = proposal.assume_interactive_receiver().unwrap();
    let r = stage1.check_inputs_not_owned(&FailingScriptPort {});
    assert!(matches!(r, Err(PayjoinError::CallbackFailed)));
}

#[test]
fn seen_input_is_rejected() {
    let mock = MockScriptOwned { owned_script: receiver_script_bytes() };
    let mut proposal = get_proposal_from_test_vector().unwrap();
    let mut stage1 = proposal.assume_interactive_receiver().unwrap();
    let mut stage2 = stage1.check_inputs_not_owned(&mock).unwrap();
    let mut stage3 = stage2.check_no_mixed_input_scripts().unwrap();
    let r = stage3.check_no_inputs_seen_before(&SeenEverything {});
    assert!(matches!(r, Err(PayjoinError::ValidationRejected)));
}

#[test]
fn failing_seen_callback_is_surfaced() {
    let mock = MockScriptOwned { owned_script: receiver_script_bytes() };
    let mut proposal = get_proposal_from_test_vector().unwrap();
    let mut stage1 = proposal.assume_interactive_receiver().unwrap();
    let mut stage2 = stage1.check_inputs_not_owned(&mock).unwrap();
    let mut stage3 = stage2.check_no_mixed_input_scripts().unwrap();
    let r = stage3.check_no_inputs_seen_before(&FailingSeenPort {});
    assert!(matches!(r, Err(PayjoinError::CallbackFailed)));
}

#[test]
fn proposal_without_receiver_output_is_rejected() {
    let mock = MockScriptOwned { owned_script: receiver_script_bytes() };
    let mut proposal = get_proposal_from_test_vector().unwrap();
    let mut stage1 = proposal.assume_interactive_receiver().unwrap();
    let mut stage2 = stage1.check_inputs_not_owned(&mock).unwrap();
    let mut stage3 = stage2.check_no_mixed_input_scripts().unwrap();
    let mut stage4 = stage3.check_no_inputs_seen_before(&MockOutputOwned {}).unwrap();
    let r = stage4.identify_receiver_outputs(&MockScriptOwned { owned_script: vec![0x51] });
    assert!(matches!(r, Err(PayjoinError::ValidationRejected)));
}

#[test]
fn fee_barrier_refuses_mutation() {
    let mut builder = checked_builder();
    assert!(builder.apply_fee(None).is_ok());
    let txout = TxOut { value: 5_000_000, script_pubkey: ScriptBuf { bytes: vec![0x51] } };
    let outpoint = OutPoint { txid: txid_a(), vout: 0 };
    assert!(matches!(
        builder.contribute_witness_input(txout, outpoint),
        Err(PayjoinError::RequestMalformed)
    ));
    let address = BtcAddress::new(RECEIVER_ADDRESS.to_string()).unwrap();
    assert!(matches!(
        builder.substitute_output_address(&address),
        Err(PayjoinError::RequestMalformed)
    ));
    assert!(matches!(builder.apply_fee(None), Err(PayjoinError::RequestMalformed)));
}

fn p2wpkh_script() -> Vec<u8> {
    let mut script: Vec<u8> = vec![0x00, 0x14];
    script.extend_from_slice(&[0xab; 20]);
    script
}

#[test]
fn builder_accepts_contributions_before_fee() {
    let mut builder = checked_builder();
    assert_eq!(builder.is_output_substitution_disabled().unwrap(), false);
    // The negotiated flag is repeatable on a live handle.
    assert_eq!(
        builder.is_output_substitution_disabled().unwrap(),
        builder.is_output_substitution_disabled().unwrap()
    );
    let txout = TxOut { value: 5_000_000, script_pubkey: ScriptBuf { bytes: p2wpkh_script() } };
    let outpoint = OutPoint { txid: txid_a(), vout: 0 };
    assert!(builder.contribute_witness_input(txout, outpoint).is_ok());
    let address = BtcAddress::new(RECEIVER_ADDRESS.to_string()).unwrap();
    assert!(builder.substitute_output_address(&address).is_ok());
    assert!(builder.apply_fee(None).is_ok());
}

#[test]
fn non_witness_contribution_checks_the_outpoint() {
    let mut builder = checked_builder();
    let original_tx = get_proposal_from_test_vector()
        .unwrap()
        .get_transaction_to_schedule_broadcast()
        .unwrap();
    let bad = OutPoint { txid: txid_a(), vout: 9 };
    let r = builder.contribute_non_witness_input(
        RawTransaction::deserialize(&original_tx.serialize()).unwrap(),
        bad,
    );
    assert!(matches!(r, Err(PayjoinError::RequestMalformed)));
    let good = OutPoint { txid: txid_a(), vout: 1 };
    let r = builder.contribute_non_witness_input(original_tx, good);
    assert!(r.is_ok());
}

#[test]
fn prepare_psbt_is_the_single_consuming_call() {
    let mut builder = checked_builder();
    let psbt = builder.apply_fee(None).unwrap();
    let final_psbt = builder.prepare_psbt(&psbt);
    assert!(final_psbt.is_ok());
    assert!(matches!(builder.prepare_psbt(&psbt), Err(PayjoinError::IllegalReuse)));
    assert!(matches!(
        builder.is_output_substitution_disabled(),
        Err(PayjoinError::IllegalReuse)
    ));
}

#[test]
fn selection_avoids_unnecessary_input() {
    // The test-vector proposal pays the receiver 2_000_000 sat and spends a
    // 97_983_400 sat input: a candidate avoids both unnecessary-input
    // patterns exactly when it exceeds the receiver output.
    let builder = checked_builder();
    let mut candidates: HashMap<u64, OutPoint> = HashMap::new();
    candidates.insert(1_000_000, OutPoint { txid: txid_a(), vout: 0 });
    candidates.insert(5_000_000, OutPoint { txid: txid_b(), vout: 1 });
    let chosen = builder.try_preserving_privacy(candidates).unwrap();
    assert_eq!(chosen.txid, txid_b());
    assert_eq!(chosen.vout, 1);
}

#[test]
fn selection_fails_when_every_candidate_triggers() {
    let builder = checked_builder();
    let mut candidates: HashMap<u64, OutPoint> = HashMap::new();
    candidates.insert(1_000_000, OutPoint { txid: txid_a(), vout: 0 });
    candidates.insert(1_999_999, OutPoint { txid: txid_b(), vout: 1 });
    let r = builder.try_preserving_privacy(candidates);
    assert!(matches!(r, Err(PayjoinError::SelectionExhausted)));
    let empty: HashMap<u64, OutPoint> = HashMap::new();
    assert!(matches!(
        builder.try_preserving_privacy(empty),
        Err(PayjoinError::SelectionExhausted)
    ));
    // The proposal is untouched: the fee step still succeeds afterwards.
    let mut builder = builder;
    assert!(builder.apply_fee(None).is_ok());
}

#[test]
fn headers_report_body_length() {
    let headers = Headers::from_vec(vec![7u8; 123]);
    assert_eq!(headers.content_type, "text/plain");
    assert_eq!(headers.content_length, "123");
    let map = headers.get_map();
    assert_eq!(map.len(), 2);
    assert_eq!(map[0], ("content-type".to_string(), "text/plain".to_string()));
    assert_eq!(map[1], ("content-length".to_string(), "123".to_string()));
    assert_eq!(headers.get_map(), map);
    let empty = Headers::from_vec(Vec::new());
    assert_eq!(empty.content_length, "0");
}

#[test]
fn broadcast_decision_matches_the_answer() {
    assert!(decide_broadcast_answer(Ok(true)).is_ok());
    assert!(matches!(
        decide_broadcast_answer(Ok(false)),
        Err(PayjoinError::ValidationRejected)
    ));
    assert!(matches!(
        decide_broadcast_answer(Err(PayjoinError::RequestMalformed)),
        Err(PayjoinError::CallbackFailed)
    ));
}

#[test]
fn seen_decision_rejects_the_first_hit() {
    assert!(decide_screening_answers(&vec![Ok(false), Ok(false)]).is_ok());
    assert!(decide_screening_answers(&Vec::new()).is_ok());
    assert!(matches!(
        decide_screening_answers(&vec![Ok(false), Ok(true)]),
        Err(PayjoinError::ValidationRejected)
    ));
    assert!(matches!(
        decide_screening_answers(&vec![Err(PayjoinError::RequestMalformed), Ok(true)]),
        Err(PayjoinError::CallbackFailed)
    ));
}

#[test]
fn receiver_output_decision_requires_one_owned() {
    assert!(decide_receiver_outputs(&vec![Ok(false), Ok(true)]).is_ok());
    assert!(matches!(
        decide_receiver_outputs(&vec![Ok(false), Ok(false)]),
        Err(PayjoinError::ValidationRejected)
    ));
    assert!(matches!(
        decide_receiver_outputs(&Vec::new()),
        Err(PayjoinError::ValidationRejected)
    ));
    assert!(matches!(
        decide_receiver_outputs(&vec![Ok(true), Err(PayjoinError::RequestMalformed)]),
        Err(PayjoinError::CallbackFailed)
    ));
}

#[test]
fn bad_address_is_rejected() {
    assert!(matches!(
        BtcAddress::new("not an address".to_string()),
        Err(PayjoinError::RequestMalformed)
    ));
    let good = BtcAddress::new(RECEIVER_ADDRESS.to_string()).unwrap();
    assert_eq!(good.script_pubkey().bytes, receiver_script_bytes());
}

struct AcceptingMempool {}

impl payjoin_receive::types::CanBroadcast for AcceptingMempool {
    fn test_mempool_accept(&self, _tx: &Vec<u8>) -> Result<bool, PayjoinError> {
        Ok(true)
    }
}

struct RefusingMempool {}

impl payjoin_receive::types::CanBroadcast for RefusingMempool {
    fn test_mempool_accept(&self, _tx: &Vec<u8>) -> Result<bool, PayjoinError> {
        Ok(false)
    }
}

#[test]
fn broadcast_check_gates_the_pipeline() {
    let mut proposal = get_proposal_from_test_vector().unwrap();
    assert!(proposal.check_can_broadcast(&AcceptingMempool {}).is_ok());
    assert!(matches!(
        proposal.check_can_broadcast(&AcceptingMempool {}),
        Err(PayjoinError::IllegalReuse)
    ));
    let mut refused = get_proposal_from_test_vector().unwrap();
    assert!(matches!(
        refused.check_can_broadcast(&RefusingMempool {}),
        Err(PayjoinError::ValidationRejected)
    ));
}

fn p2pkh_script() -> Vec<u8> {
    let mut script: Vec<u8> = vec![0x76, 0xa9, 0x14];
    script.extend_from_slice(&[0xcd; 20]);
    script.extend_from_slice(&[0x88, 0xac]);
    script
}

/// A request whose original transaction spends one p2pkh and one p2wpkh
/// previous output.
fn mixed_input_request_body() -> Vec<u8> {
    let txid = payjoin::bitcoin::Txid::from_str(&txid_a()).unwrap();
    let mut input0 = payjoin::bitcoin::TxIn::default();
    input0.previous_output = payjoin::bitcoin::OutPoint { txid, vout: 0 };
    let mut input1 = payjoin::bitcoin::TxIn::default();
    input1.previous_output = payjoin::bitcoin::OutPoint { txid, vout: 1 };
    let tx = payjoin::bitcoin::Transaction {
        version: 2,
        lock_time: payjoin::bitcoin::absolute::LockTime::ZERO,
        input: vec![input0, input1],
        output: vec![
            payjoin::bitcoin::TxOut {
                value: 1_000_000,
                script_pubkey: payjoin::bitcoin::ScriptBuf::from_bytes(p2wpkh_script()),
            },
            payjoin::bitcoin::TxOut {
                value: 2_000_000,
                script_pubkey: payjoin::bitcoin::ScriptBuf::from_bytes(receiver_script_bytes()),
            },
        ],
    };
    let mut psbt = payjoin::bitcoin::psbt::Psbt::from_unsigned_tx(tx).unwrap();
    psbt.inputs[0].witness_utxo = Some(payjoin::bitcoin::TxOut {
        value: 3_000_000,
        script_pubkey: payjoin::bitcoin::ScriptBuf::from_bytes(p2pkh_script()),
    });
    psbt.inputs[1].witness_utxo = Some(payjoin::bitcoin::TxOut {
        value: 3_000_000,
        script_pubkey: payjoin::bitcoin::ScriptBuf::from_bytes(p2wpkh_script()),
    });
    payjoin::bitcoin::base64::encode(psbt.serialize()).into_bytes()
}

#[test]
fn mixed_input_scripts_are_rejected() {
    let body = mixed_input_request_body();
    let headers = Headers::from_vec(body.clone());
    let mut proposal =
        UncheckedProposal::from_request(body, QUERY.to_string(), request_headers(&headers))
            .unwrap();
    let mut stage1 = proposal.assume_interactive_receiver().unwrap();
    let mut stage2 = stage1
        .check_inputs_not_owned(&MockScriptOwned { owned_script: Vec::new() })
        .unwrap();
    let r = stage2.check_no_mixed_input_scripts();
    assert!(matches!(r, Err(PayjoinError::ValidationRejected)));
}

#[test]
fn fee_step_rejects_oversized_feerate() {
    let mut builder = checked_builder();
    let r = builder.apply_fee(Some(u64::MAX));
    assert!(matches!(r, Err(PayjoinError::RequestMalformed)));
    // The barrier fell even though the rate was refused.
    let txout = TxOut { value: 5_000_000, script_pubkey: ScriptBuf { bytes: p2wpkh_script() } };
    let outpoint = OutPoint { txid: txid_a(), vout: 0 };
    assert!(matches!(
        builder.contribute_witness_input(txout, outpoint),
        Err(PayjoinError::RequestMalformed)
    ));
}

fn p2wsh_script() -> Vec<u8> {
    let mut script: Vec<u8> = vec![0x00, 0x20];
    script.extend_from_slice(&[0xef; 32]);
    script
}

#[test]
fn unaccounted_contribution_is_refused() {
    let mut builder = checked_builder();
    let txout = TxOut { value: 5_000_000, script_pubkey: ScriptBuf { bytes: p2wsh_script() } };
    let outpoint = OutPoint { txid: txid_a(), vout: 0 };
    assert!(matches!(
        builder.contribute_witness_input(txout, outpoint),
        Err(PayjoinError::RequestMalformed)
    ));
    let oversized = TxOut {
        value: 2_100_000_000_000_001,
        script_pubkey: ScriptBuf { bytes: p2wpkh_script() },
    };
    let outpoint = OutPoint { txid: txid_a(), vout: 0 };
    assert!(matches!(
        builder.contribute_witness_input(oversized, outpoint),
        Err(PayjoinError::RequestMalformed)
    ));
    // The builder still works afterwards.
    assert!(builder.apply_fee(None).is_ok());
}

#[test]
fn txid_validator_matches_the_precondition() {
    assert!(payjoin_receive::types::is_valid_txid(&txid_a()));
    assert!(!payjoin_receive::types::is_valid_txid("abc"));
    assert!(!payjoin_receive::types::is_valid_txid(
        "111111111111111111111111111111111111111111111111111111111111111G"
    ));
    assert!(!payjoin_receive::types::is_valid_txid(
        "11111111111111111111111111111111111111111111111111111111111111111"
    ));
}
