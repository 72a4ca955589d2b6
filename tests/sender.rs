use cita_cloud_proto::blockchain::Transaction;
use cita_sender::framing::frame;
use cita_sender::sender::{Action, Reply, SendError, SendStage, Sender, SignedEnvelope};
use cita_sender::transaction::{build_tx, UnsignedTransaction};
use prost::Message;

fn scenario_sender() -> Sender {
    Sender::new("test", vec![0x01], 1000, 1, vec![0xAA; 20])
}

fn same_tx(a: &UnsignedTransaction, b: &UnsignedTransaction) -> bool {
    a.version == b.version
        && a.to == b.to
        && a.nonce == b.nonce
        && a.quota == b.quota
        && a.valid_until_block == b.valid_until_block
        && a.data == b.data
        && a.value == b.value
        && a.chain_id == b.chain_id
}

/// Drives a send with stub services and counts the calls each receives.
struct Stubs {
    hash: Option<Vec<u8>>,
    sign: Option<Vec<u8>>,
    submit: Option<Vec<u8>>,
    hash_calls: usize,
    sign_calls: usize,
    submit_calls: usize,
    submitted: Option<SignedEnvelope>,
}

impl Stubs {
    fn new(hash: Option<Vec<u8>>, sign: Option<Vec<u8>>, submit: Option<Vec<u8>>) -> Stubs {
        Stubs { hash, sign, submit, hash_calls: 0, sign_calls: 0, submit_calls: 0, submitted: None }
    }

    fn reply(answer: &Option<Vec<u8>>) -> Reply {
        match answer {
            Some(b) => Reply::Answered(b.clone()),
            None => Reply::Failed,
        }
    }

    fn run(&mut self, sender: &Sender, proposal: &[u8]) -> Result<(), SendError> {
        let (mut stage, mut action) = sender.send(proposal);
        loop {
            let reply = match action {
                Action::Hash { .. } => {
                    self.hash_calls += 1;
                    Stubs::reply(&self.hash)
                }
                Action::Sign { .. } => {
                    self.sign_calls += 1;
                    Stubs::reply(&self.sign)
                }
                Action::Submit(envelope) => {
                    self.submit_calls += 1;
                    self.submitted = Some(envelope);
                    Stubs::reply(&self.submit)
                }
                Action::Complete => return Ok(()),
                Action::Fail(e) => return Err(e),
            };
            let next = sender.advance(stage, reply);
            stage = next.0;
            action = next.1;
        }
    }
}

#[test]
fn frame_prefixes_namespace_length() {
    let framed = frame("ns", &[0x01, 0x02]);
    assert_eq!(framed, vec![0, 0, 0, 0, 0, 0, 0, 2, b'n', b's', 0x01, 0x02]);
    let mut prefix = [0u8; 8];
    prefix.copy_from_slice(&framed[..8]);
    assert_eq!(u64::from_be_bytes(prefix), 2);
}

#[test]
fn frame_empty_namespace_and_proposal() {
    assert_eq!(frame("", &[]), vec![0u8; 8]);
}

#[test]
fn frame_counts_utf8_bytes() {
    let framed = frame("é", &[7]);
    assert_eq!(framed, vec![0, 0, 0, 0, 0, 0, 0, 2, 0xC3, 0xA9, 7]);
}

#[test]
fn build_is_deterministic() {
    let a = build_tx(vec![1, 2, 3], 42, vec![9, 9]);
    let b = build_tx(vec![1, 2, 3], 42, vec![9, 9]);
    assert!(same_tx(&a, &b));
}

#[test]
fn build_fills_fixed_fields() {
    let tx = build_tx(vec![5], 7, vec![3]);
    assert_eq!(tx.version, 0);
    assert_eq!(tx.to, vec![1u8; 21]);
    assert_eq!(tx.nonce, "test");
    assert_eq!(tx.quota, 300_000);
    assert_eq!(tx.valid_until_block, 106);
    assert_eq!(tx.data, vec![5]);
    assert_eq!(tx.value, vec![0u8; 32]);
    assert_eq!(tx.chain_id, vec![3]);
}

#[test]
fn deadline_is_anchor_plus_lookahead() {
    for h in [0u64, 1, 1000, u64::MAX - 99] {
        let tx = build_tx(vec![], h, vec![]);
        assert_eq!(tx.valid_until_block, h + 99);
        assert!(tx.valid_until_block > h);
    }
}

#[test]
fn send_asks_for_hash_of_encoded_transaction() {
    let sender = scenario_sender();
    let (stage, action) = sender.send(b"hello");
    let tx = match stage {
        SendStage::Hashing { tx } => tx,
        _ => panic!("a send starts by hashing"),
    };
    let mut expected_data = vec![0, 0, 0, 0, 0, 0, 0, 4];
    expected_data.extend_from_slice(b"test");
    expected_data.extend_from_slice(b"hello");
    assert_eq!(tx.valid_until_block, 1099);
    assert_eq!(tx.data, expected_data);
    assert_eq!(tx.chain_id, vec![0x01]);
    match action {
        Action::Hash { key_id, data } => {
            assert_eq!(key_id, 1);
            let decoded = Transaction::decode(data.as_slice()).unwrap();
            assert_eq!(decoded.valid_until_block, 1099);
            assert_eq!(decoded.data, expected_data);
            assert_eq!(decoded.chain_id, vec![0x01]);
            assert_eq!(decoded.nonce, "test");
            assert_eq!(decoded.to, vec![1u8; 21]);
        }
        _ => panic!("a send starts by hashing"),
    }
}

#[test]
fn encoding_matches_protobuf_transaction() {
    let expected = Transaction {
        version: 0,
        to: vec![1u8; 21],
        nonce: "test".to_owned(),
        quota: 300_000,
        valid_until_block: 109,
        data: vec![0, 0, 0, 0, 0, 0, 0, 0, 1, 2],
        value: vec![0u8; 32],
        chain_id: vec![7],
    }
    .encode_to_vec();
    let sender = Sender::new("", vec![7], 10, 3, vec![]);
    let (_, action) = sender.send(&[1, 2]);
    match action {
        Action::Hash { data, .. } => {
            assert_eq!(data, expected);
        }
        _ => panic!("a send starts by hashing"),
    }
}

#[test]
fn end_to_end_send_completes() {
    let sender = scenario_sender();
    let mut stubs = Stubs::new(Some(vec![0xDE, 0xAD]), Some(vec![0xBE, 0xEF]), Some(vec![0xDE, 0xAD]));
    assert_eq!(stubs.run(&sender, b"hello"), Ok(()));
    assert_eq!((stubs.hash_calls, stubs.sign_calls, stubs.submit_calls), (1, 1, 1));
    match stubs.submitted {
        Some(SignedEnvelope::NormalTx(u)) => {
            assert_eq!(u.transaction_hash, vec![0xDE, 0xAD]);
            assert_eq!(u.witness.signature, vec![0xBE, 0xEF]);
            assert_eq!(u.witness.sender, vec![0xAA; 20]);
            assert_eq!(u.transaction.valid_until_block, 1099);
        }
        None => panic!("the envelope was not submitted"),
    }
}

#[test]
fn end_to_end_mismatched_hash_is_integrity_error() {
    let sender = scenario_sender();
    let mut stubs = Stubs::new(Some(vec![0xDE, 0xAD]), Some(vec![0xBE, 0xEF]), Some(vec![0xFA, 0xCE]));
    assert_eq!(stubs.run(&sender, b"hello"), Err(SendError::Integrity));
    assert_eq!(stubs.submit_calls, 1);
}

#[test]
fn sign_step_asks_for_signature_over_digest() {
    let sender = scenario_sender();
    let (stage, _) = sender.send(b"hello");
    let (_, action) = sender.advance(stage, Reply::Answered(vec![0xDE, 0xAD]));
    match action {
        Action::Sign { key_id, msg } => {
            assert_eq!(key_id, 1);
            assert_eq!(msg, vec![0xDE, 0xAD]);
        }
        _ => panic!("a digest leads to signing"),
    }
}

#[test]
fn sign_failure_never_submits() {
    let sender = scenario_sender();
    let mut stubs = Stubs::new(Some(vec![0xDE, 0xAD]), None, Some(vec![0xDE, 0xAD]));
    assert_eq!(stubs.run(&sender, b"hello"), Err(SendError::Remote));
    assert_eq!(stubs.sign_calls, 1);
    assert_eq!(stubs.submit_calls, 0);
}

#[test]
fn hash_failure_is_remote_error() {
    let sender = scenario_sender();
    let mut stubs = Stubs::new(None, Some(vec![0xBE, 0xEF]), Some(vec![0xDE, 0xAD]));
    assert_eq!(stubs.run(&sender, b"hello"), Err(SendError::Remote));
    assert_eq!((stubs.sign_calls, stubs.submit_calls), (0, 0));
}

#[test]
fn submit_failure_is_remote_error() {
    let sender = scenario_sender();
    let mut stubs = Stubs::new(Some(vec![0xDE, 0xAD]), Some(vec![0xBE, 0xEF]), None);
    assert_eq!(stubs.run(&sender, b"hello"), Err(SendError::Remote));
    assert_eq!(stubs.submit_calls, 1);
}

#[test]
fn finished_and_aborted_stages_stay_put() {
    let sender = scenario_sender();
    let (stage, action) = sender.advance(SendStage::Finished, Reply::Answered(vec![1]));
    assert!(matches!(stage, SendStage::Finished));
    assert!(matches!(action, Action::Complete));
    let (stage, action) = sender.advance(SendStage::Aborted(SendError::Integrity), Reply::Failed);
    assert!(matches!(stage, SendStage::Aborted(SendError::Integrity)));
    assert!(matches!(action, Action::Fail(SendError::Integrity)));
}
