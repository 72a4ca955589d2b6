use vstd::prelude::*;
use vstd::string::StringSliceAdditionalSpecFns;
use vstd::utf8::encode_utf8;
use crate::framing::{frame, framed};
use crate::transaction::{
    build_tx, built, encode_tx, transaction_encoding, LOOKAHEAD, TransactionView,
    UnsignedTransaction,
};

verus! {

/// Signature bytes over a transaction's identity, with the signer's address.
pub struct Witness {
    pub signature: Vec<u8>,
    pub sender: Vec<u8>,
}

/// A transaction with its identity and its witness.
pub struct UnverifiedTransaction {
    pub transaction: UnsignedTransaction,
    pub transaction_hash: Vec<u8>,
    pub witness: Witness,
}

/// What is submitted to the ledger, tagged by the kind of transaction it carries.
pub enum SignedEnvelope {
    NormalTx(UnverifiedTransaction),
}

/// A signed envelope as mathematical values.
pub struct EnvelopeView {
    pub transaction: TransactionView,
    pub transaction_hash: Seq<u8>,
    pub signature: Seq<u8>,
    pub sender: Seq<u8>,
}

impl View for SignedEnvelope {
    type V = EnvelopeView;

    open spec fn view(&self) -> EnvelopeView {
        match self {
            SignedEnvelope::NormalTx(u) => EnvelopeView {
                transaction: u.transaction@,
                transaction_hash: u.transaction_hash@,
                signature: u.witness.signature@,
                sender: u.witness.sender@,
            },
        }
    }
}

/// Why a send did not complete.
#[derive(PartialEq, Eq, Structural, Clone, Copy, Debug)]
pub enum SendError {
    /// A call to the signing service or to the ledger failed.
    Remote,
    /// The ledger's hash of the submitted transaction differs from the one computed here.
    Integrity,
}

/// The answer to the remote call that a send is waiting on.
pub enum Reply {
    /// The call returned these bytes: a digest, a signature or the ledger's hash.
    Answered(Vec<u8>),
    /// The call failed.
    Failed,
}

impl View for Reply {
    type V = Option<Seq<u8>>;

    open spec fn view(&self) -> Option<Seq<u8>> {
        match self {
            Reply::Answered(b) => Some(b@),
            Reply::Failed => None,
        }
    }
}

/// Where a send stands.
pub enum SendStage {
    /// Waiting for the digest of the encoded transaction.
    Hashing { tx: UnsignedTransaction },
    /// Waiting for the signature over the digest.
    Signing { tx: UnsignedTransaction, tx_hash: Vec<u8> },
    /// Waiting for the ledger's hash of the submitted envelope.
    Submitting { tx_hash: Vec<u8> },
    /// The ledger accepted the transaction under the identity computed here.
    Finished,
    /// The send stopped for good.
    Aborted(SendError),
}

/// A send stage as mathematical values.
pub enum StageView {
    Hashing { tx: TransactionView },
    Signing { tx: TransactionView, tx_hash: Seq<u8> },
    Submitting { tx_hash: Seq<u8> },
    Finished,
    Aborted(SendError),
}

impl View for SendStage {
    type V = StageView;

    open spec fn view(&self) -> StageView {
        match self {
            SendStage::Hashing { tx } => StageView::Hashing { tx: tx@ },
            SendStage::Signing { tx, tx_hash } => StageView::Signing { tx: tx@, tx_hash: tx_hash@ },
            SendStage::Submitting { tx_hash } => StageView::Submitting { tx_hash: tx_hash@ },
            SendStage::Finished => StageView::Finished,
            SendStage::Aborted(e) => StageView::Aborted(*e),
        }
    }
}

/// What the caller is to do next on behalf of a send.
pub enum Action {
    /// Ask the signing service for the digest of `data` under key `key_id`.
    Hash { key_id: u64, data: Vec<u8> },
    /// Ask the signing service to sign `msg` under key `key_id`.
    Sign { key_id: u64, msg: Vec<u8> },
    /// Submit the envelope to the ledger.
    Submit(SignedEnvelope),
    /// The send is complete.
    Complete,
    /// The send failed; nothing more is to be done.
    Fail(SendError),
}

/// An action as mathematical values.
pub enum ActionView {
    Hash { key_id: u64, data: Seq<u8> },
    Sign { key_id: u64, msg: Seq<u8> },
    Submit(EnvelopeView),
    Complete,
    Fail(SendError),
}

impl View for Action {
    type V = ActionView;

    open spec fn view(&self) -> ActionView {
        match self {
            Action::Hash { key_id, data } => ActionView::Hash { key_id: *key_id, data: data@ },
            Action::Sign { key_id, msg } => ActionView::Sign { key_id: *key_id, msg: msg@ },
            Action::Submit(e) => ActionView::Submit(e@),
            Action::Complete => ActionView::Complete,
            Action::Fail(e) => ActionView::Fail(*e),
        }
    }
}

/// The session of a sender, fixed when it starts.
pub struct Sender {
    cc_name: String,
    chain_id: Vec<u8>,
    start_block_number: u64,
    key_id: u64,
    address: Vec<u8>,
}

/// A session as mathematical values; the namespace is held as its UTF-8 bytes.
pub struct SenderView {
    pub namespace: Seq<u8>,
    pub chain_id: Seq<u8>,
    pub anchor: u64,
    pub key_id: u64,
    pub address: Seq<u8>,
}

impl View for Sender {
    type V = SenderView;

    closed spec fn view(&self) -> SenderView {
        SenderView {
            namespace: encode_utf8(self.cc_name@),
            chain_id: self.chain_id@,
            anchor: self.start_block_number,
            key_id: self.key_id,
            address: self.address@,
        }
    }
}

/// The transaction that a session builds for `proposal`.
pub open spec fn session_tx(s: SenderView, proposal: Seq<u8>) -> TransactionView {
    built(framed(s.namespace, proposal), s.anchor, s.chain_id)
}

/// How a send starts: it waits for the digest of the encoded transaction.
pub open spec fn start_spec(s: SenderView, proposal: Seq<u8>) -> (StageView, ActionView) {
    let tx = session_tx(s, proposal);
    (StageView::Hashing { tx }, ActionView::Hash { key_id: s.key_id, data: transaction_encoding(tx) })
}

/// A send stopped for good by `e`.
pub open spec fn aborted(e: SendError) -> (StageView, ActionView) {
    (StageView::Aborted(e), ActionView::Fail(e))
}

/// How a send moves on when the call it waits on answers (`None` for a failed call).
pub open spec fn advance_spec(s: SenderView, stage: StageView, reply: Option<Seq<u8>>) -> (
    StageView,
    ActionView,
) {
    match stage {
        StageView::Hashing { tx } => match reply {
            Some(digest) => (
                StageView::Signing { tx, tx_hash: digest },
                ActionView::Sign { key_id: s.key_id, msg: digest },
            ),
            None => aborted(SendError::Remote),
        },
        StageView::Signing { tx, tx_hash } => match reply {
            Some(signature) => (
                StageView::Submitting { tx_hash },
                ActionView::Submit(
                    EnvelopeView { transaction: tx, transaction_hash: tx_hash, signature, sender: s.address },
                ),
            ),
            None => aborted(SendError::Remote),
        },
        StageView::Submitting { tx_hash } => match reply {
            Some(ret_hash) => if ret_hash == tx_hash {
                (StageView::Finished, ActionView::Complete)
            } else {
                aborted(SendError::Integrity)
            },
            None => aborted(SendError::Remote),
        },
        StageView::Finished => (StageView::Finished, ActionView::Complete),
        StageView::Aborted(e) => aborted(e),
    }
}

/// The actions that a send in `stage` emits as `replies` come in, one per reply.
pub open spec fn run(s: SenderView, stage: StageView, replies: Seq<Option<Seq<u8>>>) -> Seq<
    ActionView,
>
    decreases replies.len(),
{
    if replies.len() == 0 {
        Seq::empty()
    } else {
        let (next, action) = advance_spec(s, stage, replies[0]);
        seq![action] + run(s, next, replies.drop_first())
    }
}

/// A send completes exactly when the ledger's hash equals the digest that the
/// signing service gave for the transaction's canonical bytes; any other hash
/// aborts it with an integrity error. The digest asked for is that of the
/// session's transaction, and the envelope submitted carries that digest.
pub proof fn lemma_identity_consistency(
    s: SenderView,
    proposal: Seq<u8>,
    digest: Seq<u8>,
    signature: Seq<u8>,
    ret_hash: Seq<u8>,
)
    ensures
        ({
            let (st0, a0) = start_spec(s, proposal);
            let (st1, a1) = advance_spec(s, st0, Some(digest));
            let (st2, a2) = advance_spec(s, st1, Some(signature));
            let (st3, a3) = advance_spec(s, st2, Some(ret_hash));
            &&& a0 == ActionView::Hash {
                key_id: s.key_id,
                data: transaction_encoding(session_tx(s, proposal)),
            }
            &&& a1 == ActionView::Sign { key_id: s.key_id, msg: digest }
            &&& a2 == ActionView::Submit(
                EnvelopeView {
                    transaction: session_tx(s, proposal),
                    transaction_hash: digest,
                    signature,
                    sender: s.address,
                },
            )
            &&& (a3 == ActionView::Complete <==> ret_hash == digest)
            &&& (ret_hash != digest ==> a3 == ActionView::Fail(SendError::Integrity))
        }),
{
}

/// Only a stage that waits on a signature, answered with one, leads to a submission.
pub proof fn lemma_submit_only_after_signature(
    s: SenderView,
    stage: StageView,
    reply: Option<Seq<u8>>,
)
    ensures
        advance_spec(s, stage, reply).1 is Submit ==> stage is Signing && reply is Some,
{
}

/// An aborted send emits nothing but its failure, whatever answers come in.
pub proof fn lemma_aborted_stays_aborted(
    s: SenderView,
    e: SendError,
    replies: Seq<Option<Seq<u8>>>,
)
    ensures
        run(s, StageView::Aborted(e), replies).len() == replies.len(),
        forall|i: int|
            0 <= i < replies.len() ==> #[trigger] run(s, StageView::Aborted(e), replies)[i]
                == ActionView::Fail(e),
    decreases replies.len(),
{
    if replies.len() > 0 {
        lemma_aborted_stays_aborted(s, e, replies.drop_first());
        let rest = run(s, StageView::Aborted(e), replies.drop_first());
        assert forall|i: int| 0 <= i < replies.len() implies #[trigger] run(
            s,
            StageView::Aborted(e),
            replies,
        )[i] == ActionView::Fail(e) by {
            if i > 0 {
                assert(run(s, StageView::Aborted(e), replies)[i] == rest[i - 1]);
            }
        }
    }
}

/// When signing fails, the send fails with a remote error and nothing is ever
/// submitted to the ledger, whatever answers come in afterwards.
pub proof fn lemma_sign_failure_never_submits(
    s: SenderView,
    proposal: Seq<u8>,
    digest: Seq<u8>,
    later: Seq<Option<Seq<u8>>>,
)
    ensures
        ({
            let actions = run(s, start_spec(s, proposal).0, seq![Some(digest), None] + later);
            &&& actions.len() == 2 + later.len()
            &&& actions[1] == ActionView::Fail(SendError::Remote)
            &&& forall|i: int| 0 <= i < actions.len() ==> !(#[trigger] actions[i] is Submit)
        }),
{
    let st0 = start_spec(s, proposal).0;
    let replies = seq![Some(digest), None] + later;
    let (st1, a1) = advance_spec(s, st0, Some(digest));
    let (st2, a2) = advance_spec(s, st1, None);
    assert(replies.drop_first() =~= seq![None] + later);
    assert((seq![None] + later).drop_first() =~= later);
    lemma_aborted_stays_aborted(s, SendError::Remote, later);
    let tail = run(s, st2, later);
    let actions = run(s, st0, replies);
    assert(replies[0] == Some(digest));
    assert(actions == seq![a1] + run(s, st1, seq![None] + later));
    assert((seq![None] + later)[0] == None::<Seq<u8>>);
    assert(run(s, st1, seq![None] + later) == seq![a2] + tail);
    assert forall|i: int| 0 <= i < actions.len() implies !(#[trigger] actions[i] is Submit) by {
        if i >= 2 {
            assert(actions[i] == tail[i - 2]);
        }
    }
}

/// Copies the bytes of a vector.
fn copy_bytes(v: &Vec<u8>) -> (r: Vec<u8>)
    ensures
        r@ == v@,
{
    let mut r: Vec<u8> = Vec::new();
    let mut k: usize = 0;
    while k < v.len()
        invariant
            k <= v.len(),
            r@ == v@.subrange(0, k as int),
        decreases v.len() - k,
    {
        r.push(v[k]);
        k = k + 1;
        assert(r@ =~= v@.subrange(0, k as int));
    }
    assert(r@ =~= v@);
    r
}

impl Sender {
    /// The session's invariant: transactions built under its anchor get a deadline
    /// that fits in a block height.
    pub closed spec fn wf(&self) -> bool {
        self.start_block_number <= u64::MAX - LOOKAHEAD
    }

    /// Starts a session under namespace `cc_name`, on chain `chain_id`, anchored at
    /// height `start_block_number`, signing with key `key_id` whose address is
    /// `address`.
    pub fn new(
        cc_name: &str,
        chain_id: Vec<u8>,
        start_block_number: u64,
        key_id: u64,
        address: Vec<u8>,
    ) -> (r: Sender)
        requires
            start_block_number <= u64::MAX - LOOKAHEAD,
        ensures
            r.wf(),
            r@ == (SenderView {
                namespace: cc_name.spec_bytes(),
                chain_id: chain_id@,
                anchor: start_block_number,
                key_id,
                address: address@,
            }),
    {
        Sender { cc_name: String::from_str(cc_name), chain_id, start_block_number, key_id, address }
    }

    /// Starts sending `proposal`: frames it under the namespace, builds the
    /// transaction and asks for the digest of its canonical bytes.
    pub fn send(&self, proposal: &[u8]) -> (r: (SendStage, Action))
        requires
            self.wf(),
        ensures
            (r.0@, r.1@) == start_spec(self@, proposal@),
            r.0@ is Hashing,
            r.0@->Hashing_tx.valid_until_block == self@.anchor + LOOKAHEAD,
    {
        let data = frame(self.cc_name.as_str(), proposal);
        let tx = build_tx(data, self.start_block_number, copy_bytes(&self.chain_id));
        let bytes = encode_tx(&tx);
        (SendStage::Hashing { tx }, Action::Hash { key_id: self.key_id, data: bytes })
    }

    /// Moves a send on with the answer to the call it waits on. A failed call or a
    /// ledger hash that differs from the digest aborts the send for good.
    pub fn advance(&self, stage: SendStage, reply: Reply) -> (r: (SendStage, Action))
        ensures
            (r.0@, r.1@) == advance_spec(self@, stage@, reply@),
    {
        match stage {
            SendStage::Finished => (SendStage::Finished, Action::Complete),
            SendStage::Aborted(e) => (SendStage::Aborted(e), Action::Fail(e)),
            SendStage::Hashing { tx } => match reply {
                Reply::Failed => (SendStage::Aborted(SendError::Remote), Action::Fail(SendError::Remote)),
                Reply::Answered(h) => {
                    let msg = copy_bytes(&h);
                    (SendStage::Signing { tx, tx_hash: h }, Action::Sign { key_id: self.key_id, msg })
                },
            },
            SendStage::Signing { tx, tx_hash } => match reply {
                Reply::Failed => (SendStage::Aborted(SendError::Remote), Action::Fail(SendError::Remote)),
                Reply::Answered(signature) => {
                    let witness = Witness { signature, sender: copy_bytes(&self.address) };
                    let hash = copy_bytes(&tx_hash);
                    let envelope = SignedEnvelope::NormalTx(
                        UnverifiedTransaction { transaction: tx, transaction_hash: hash, witness },
                    );
                    (SendStage::Submitting { tx_hash }, Action::Submit(envelope))
                },
            },
            SendStage::Submitting { tx_hash } => match reply {
                Reply::Failed => (SendStage::Aborted(SendError::Remote), Action::Fail(SendError::Remote)),
                Reply::Answered(ret_hash) => {
                    if bytes_eq(&ret_hash, &tx_hash) {
                        (SendStage::Finished, Action::Complete)
                    } else {
                        (SendStage::Aborted(SendError::Integrity), Action::Fail(SendError::Integrity))
                    }
                },
            },
        }
    }
}

/// Whether two byte vectors hold the same bytes.
fn bytes_eq(a: &Vec<u8>, b: &Vec<u8>) -> (r: bool)
    ensures
        r == (a@ == b@),
{
    if a.len() != b.len() {
        return false;
    }
    let mut k: usize = 0;
    while k < a.len()
        invariant
            a.len() == b.len(),
            k <= a.len(),
            a@.subrange(0, k as int) == b@.subrange(0, k as int),
        decreases a.len() - k,
    {
        if a[k] != b[k] {
            assert(a@[k as int] != b@[k as int]);
            return false;
        }
        assert(a@.subrange(0, k + 1) =~= a@.subrange(0, k as int).push(a@[k as int]));
        assert(b@.subrange(0, k + 1) =~= b@.subrange(0, k as int).push(b@[k as int]));
        k = k + 1;
    }
    assert(a@ =~= a@.subrange(0, k as int));
    assert(b@ =~= b@.subrange(0, k as int));
    true
}

} // verus!
