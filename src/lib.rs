//! A client that submits transactions to a permissioned chain: it frames a
//! proposal under a namespace, builds the transaction, has it hashed and signed
//! by a key service, submits the signed envelope to the ledger and checks that
//! the ledger's hash of it is the one computed here.
//!
//! The remote calls are made by the caller: a send is a sequence of stages, and
//! each step names the call to make next and takes its answer.
pub mod framing;
pub mod sender;
pub mod transaction;

pub use framing::frame;
pub use sender::{
    Action, Reply, SendError, SendStage, Sender, SignedEnvelope, UnverifiedTransaction, Witness,
};
pub use transaction::{build_tx, UnsignedTransaction};
