use vstd::prelude::*;
use cita_cloud_proto::blockchain;
use prost::Message;

verus! {

/// Format version of every transaction built here.
pub const VERSION: u32 = 0;

/// Resource quota granted to every transaction built here.
pub const QUOTA: u64 = 300_000;

/// Number of blocks past the anchor up to which a transaction stays valid.
pub const LOOKAHEAD: u64 = 99;

/// Length of the destination placeholder.
pub const TO_LEN: usize = 21;

/// Byte that fills the destination placeholder.
pub const TO_BYTE: u8 = 1;

/// Length of the value field, which is all zeros.
pub const VALUE_LEN: usize = 32;

/// A transaction before it is hashed and signed.
pub struct UnsignedTransaction {
    pub version: u32,
    pub to: Vec<u8>,
    pub nonce: String,
    pub quota: u64,
    pub valid_until_block: u64,
    pub data: Vec<u8>,
    pub value: Vec<u8>,
    pub chain_id: Vec<u8>,
}

/// The fields of an [`UnsignedTransaction`] as mathematical values.
pub struct TransactionView {
    pub version: u32,
    pub to: Seq<u8>,
    pub nonce: Seq<char>,
    pub quota: u64,
    pub valid_until_block: u64,
    pub data: Seq<u8>,
    pub value: Seq<u8>,
    pub chain_id: Seq<u8>,
}

impl View for UnsignedTransaction {
    type V = TransactionView;

    open spec fn view(&self) -> TransactionView {
        TransactionView {
            version: self.version,
            to: self.to@,
            nonce: self.nonce@,
            quota: self.quota,
            valid_until_block: self.valid_until_block,
            data: self.data@,
            value: self.value@,
            chain_id: self.chain_id@,
        }
    }
}

/// The nonce that every transaction built here carries.
pub open spec fn nonce_spec() -> Seq<char> {
    "test"@
}

/// The transaction that `build` makes from a payload, an anchor height and a chain id.
pub open spec fn built(payload: Seq<u8>, anchor: u64, chain_id: Seq<u8>) -> TransactionView {
    TransactionView {
        version: VERSION,
        to: Seq::new(TO_LEN as nat, |i: int| TO_BYTE),
        nonce: nonce_spec(),
        quota: QUOTA,
        valid_until_block: (anchor + LOOKAHEAD) as u64,
        data: payload,
        value: Seq::new(VALUE_LEN as nat, |i: int| 0u8),
        chain_id,
    }
}

/// The canonical bytes of a transaction: the protobuf encoding shared with the ledger.
pub uninterp spec fn transaction_encoding(tx: TransactionView) -> Seq<u8>;

/// A vector of `n` copies of `byte`.
fn filled(byte: u8, n: usize) -> (r: Vec<u8>)
    ensures
        r@ == Seq::new(n as nat, |i: int| byte),
{
    let mut r: Vec<u8> = Vec::new();
    let mut k: usize = 0;
    while k < n
        invariant
            k <= n,
            r@ == Seq::new(k as nat, |i: int| byte),
        decreases n - k,
    {
        r.push(byte);
        k = k + 1;
        assert(r@ =~= Seq::new(k as nat, |i: int| byte));
    }
    r
}

/// Builds the unsigned transaction that carries `data` on chain `chain_id`,
/// valid until `LOOKAHEAD` blocks past `start_block_number`.
pub fn build_tx(data: Vec<u8>, start_block_number: u64, chain_id: Vec<u8>) -> (r:
    UnsignedTransaction)
    requires
        start_block_number <= u64::MAX - LOOKAHEAD,
    ensures
        r@ == built(data@, start_block_number, chain_id@),
        r.valid_until_block == start_block_number + LOOKAHEAD,
        r.valid_until_block > start_block_number,
{
    UnsignedTransaction {
        version: VERSION,
        to: filled(TO_BYTE, TO_LEN),
        nonce: String::from_str("test"),
        quota: QUOTA,
        valid_until_block: start_block_number + LOOKAHEAD,
        data,
        value: filled(0u8, VALUE_LEN),
        chain_id,
    }
}

/// Building twice from the same payload, anchor and chain id gives the same
/// transaction, down to its canonical bytes.
pub proof fn lemma_build_deterministic(
    a: UnsignedTransaction,
    b: UnsignedTransaction,
    payload: Seq<u8>,
    anchor: u64,
    chain_id: Seq<u8>,
)
    requires
        a@ == built(payload, anchor, chain_id),
        b@ == built(payload, anchor, chain_id),
    ensures
        a@ == b@,
        transaction_encoding(a@) == transaction_encoding(b@),
{
}

/// Relies on prost::Message::encode_to_vec for cita_cloud_proto's
/// blockchain::Transaction: the protobuf encoding of the same field values.
#[verifier::external_body]
pub(crate) fn encode_tx(tx: &UnsignedTransaction) -> (r: Vec<u8>)
    ensures
        r@ == transaction_encoding(tx@),
{
    blockchain::Transaction {
        version: tx.version,
        to: tx.to.clone(),
        nonce: tx.nonce.clone(),
        quota: tx.quota,
        valid_until_block: tx.valid_until_block,
        data: tx.data.clone(),
        value: tx.value.clone(),
        chain_id: tx.chain_id.clone(),
    }.encode_to_vec()
}

} // verus!
