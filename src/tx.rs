//! BCH transactions as plain values, and their ids.
use vstd::prelude::*;

use bitcoincash::{absolute::LockTime, transaction::Version, Amount, ScriptBuf, Sequence, Txid, Witness};

use crate::protocol::OutPoint;

verus! {

/// An input: the output it spends, its unlocking script and its sequence.
#[derive(Clone, Debug)]
pub struct TxIn {
    pub previous_output: OutPoint,
    pub script_sig: Vec<u8>,
    pub sequence: u32,
}

/// An output: an amount in satoshis and its locking script.
#[derive(Clone, Debug)]
pub struct TxOut {
    pub value: u64,
    pub script_pubkey: Vec<u8>,
}

/// A transaction without tokens or witnesses.
#[derive(Clone, Debug)]
pub struct Transaction {
    pub version: i32,
    pub lock_time: u32,
    pub input: Vec<TxIn>,
    pub output: Vec<TxOut>,
}

/// The id (double SHA-256 of the consensus encoding, in internal byte order)
/// of the transaction with these fields; an input is (previous txid, previous
/// index, unlocking script, sequence), an output is (value, locking script).
pub uninterp spec fn txid_of(
    version: int,
    lock_time: int,
    inputs: Seq<(Seq<u8>, int, Seq<u8>, int)>,
    outputs: Seq<(int, Seq<u8>)>,
) -> Seq<u8>;

pub open spec fn input_view(i: TxIn) -> (Seq<u8>, int, Seq<u8>, int) {
    (i.previous_output.txid@, i.previous_output.vout as int, i.script_sig@, i.sequence as int)
}

pub open spec fn output_view(o: TxOut) -> (int, Seq<u8>) {
    (o.value as int, o.script_pubkey@)
}

impl Transaction {
    pub open spec fn inputs_view(&self) -> Seq<(Seq<u8>, int, Seq<u8>, int)> {
        self.input@.map_values(|i: TxIn| input_view(i))
    }

    pub open spec fn outputs_view(&self) -> Seq<(int, Seq<u8>)> {
        self.output@.map_values(|o: TxOut| output_view(o))
    }
}

/// Relies on bitcoincash's `Transaction::compute_txid`.
#[verifier::external_body]
pub(crate) fn txid(tx: &Transaction) -> (r: [u8; 32])
    ensures
        r@ == txid_of(tx.version as int, tx.lock_time as int, tx.inputs_view(), tx.outputs_view()),
{
    let input = tx.input.iter().map(|i| bitcoincash::TxIn {
        previous_output: bitcoincash::OutPoint::new(<Txid as bitcoincash::hashes::Hash>::from_byte_array(i.previous_output.txid), i.previous_output.vout),
        script_sig: ScriptBuf::from_bytes(i.script_sig.clone()), sequence: Sequence(i.sequence), witness: Witness::new(),
    }).collect();
    let output = tx.output.iter().map(|o| bitcoincash::TxOut {
        value: Amount::from_sat(o.value), script_pubkey: ScriptBuf::from_bytes(o.script_pubkey.clone()), token: None,
    }).collect();
    let t = bitcoincash::Transaction { version: Version(tx.version), lock_time: LockTime::from_consensus(tx.lock_time), input, output };
    <Txid as bitcoincash::hashes::Hash>::to_byte_array(t.compute_txid())
}

/// The unlocking scripts of the inputs of a consensus-encoded transaction,
/// in order; `None` when the bytes are not exactly one transaction.
pub uninterp spec fn input_scripts_of(raw: Seq<u8>) -> Option<Seq<Seq<u8>>>;

/// The instructions of a script, in order, up to the first malformed one
/// included: the pushed bytes of a push, `None` for an opcode or for the
/// malformed instruction that ends the sequence.
pub uninterp spec fn script_pushes_of(script: Seq<u8>) -> Seq<Option<Seq<u8>>>;

/// The 64-byte compact form of a DER-encoded ECDSA signature; `None` when
/// the bytes are not a valid strict DER signature.
pub uninterp spec fn compact_of_der(der: Seq<u8>) -> Option<Seq<u8>>;

pub open spec fn push_view(p: Option<Vec<u8>>) -> Option<Seq<u8>> {
    match p {
        Some(v) => Some(v@),
        None => None,
    }
}

/// Relies on bitcoincash's `consensus::deserialize` of a `Transaction`.
#[verifier::external_body]
pub(crate) fn input_scripts(raw: &Vec<u8>) -> (r: Option<Vec<Vec<u8>>>)
    ensures
        match input_scripts_of(raw@) {
            None => r is None,
            Some(s) => r matches Some(v) && v@.map_values(|x: Vec<u8>| x@) == s,
        },
{
    let tx = bitcoincash::consensus::deserialize::<bitcoincash::Transaction>(raw).ok()?;
    Some(tx.input.iter().map(|i| i.script_sig.to_bytes()).collect())
}

/// Relies on bitcoincash's `Script::instructions`.
#[verifier::external_body]
pub(crate) fn script_pushes(script: &Vec<u8>) -> (r: Vec<Option<Vec<u8>>>)
    ensures
        r@.map_values(|p: Option<Vec<u8>>| push_view(p)) == script_pushes_of(script@),
{
    bitcoincash::Script::from_bytes(script).instructions().map(|i| match i {
        Ok(bitcoincash::blockdata::script::Instruction::PushBytes(p)) => Some(p.as_bytes().to_vec()),
        _ => None,
    }).collect()
}

/// Relies on secp256k1's `ecdsa::Signature::from_der` and `serialize_compact`.
#[verifier::external_body]
pub(crate) fn der_to_compact(der: &Vec<u8>) -> (r: Option<Vec<u8>>)
    ensures
        push_view(r) == compact_of_der(der@),
        r matches Some(c) ==> c@.len() == 64,
{
    let sig = bitcoincash::secp256k1::ecdsa::Signature::from_der(der).ok()?;
    Some(sig.serialize_compact().to_vec())
}

/// The plain signature that a transaction discloses: the third instruction
/// of its first input's unlocking script, which must push a DER signature,
/// in compact form.
pub open spec fn disclosed_sig(raw: Seq<u8>) -> Option<Seq<u8>> {
    match input_scripts_of(raw) {
        Some(scripts) => if scripts.len() > 0 && script_pushes_of(scripts[0]).len() > 2 {
            match script_pushes_of(scripts[0])[2] {
                Some(push) => compact_of_der(push),
                None => None,
            }
        } else {
            None
        },
        None => None,
    }
}

/// Reads the plain signature that a transaction discloses.
pub fn disclosed_signature(raw: &Vec<u8>) -> (r: Option<Vec<u8>>)
    ensures
        push_view(r) == disclosed_sig(raw@),
{
    let scripts = match input_scripts(raw) {
        Some(s) => s,
        None => return None,
    };
    if scripts.len() == 0 {
        return None;
    }
    assert(scripts@[0]@ == input_scripts_of(raw@)->0[0]);
    let pushes = script_pushes(&scripts[0]);
    if pushes.len() <= 2 {
        return None;
    }
    assert(push_view(pushes@[2]) == script_pushes_of(scripts@[0]@)[2]);
    match &pushes[2] {
        Some(push) => der_to_compact(push),
        None => None,
    }
}

} // verus!
