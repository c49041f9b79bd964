//! The vocabulary of a swap: its fixed terms, the events that drive it, the
//! actions it asks for and the errors it reports.
use vstd::prelude::*;

use crate::keys::{KeyPrivate, KeyPublic, ViewPair, XmrNetwork};

verus! {

/// The Bitcoin Cash networks.
#[derive(Clone, Copy, Debug, PartialEq, Eq, Structural)]
pub enum BchNetwork {
    Mainnet,
    Testnet,
    Regtest,
}

/// A reference to one output of a BCH transaction.
#[derive(Clone, Copy, Debug)]
pub struct OutPoint {
    pub txid: [u8; 32],
    pub vout: u32,
}

/// How a transaction funds one of the two contracts.
#[derive(Clone, Copy, Debug, PartialEq, Eq, Structural)]
pub enum TxKind {
    ToSwapLock,
    ToRefund,
}

/// One on-chain contract: its cash address, its locking script and the
/// relative timelock of its fallback path.
#[derive(Clone, Debug)]
pub struct Contract {
    pub cash_address: String,
    pub locking_script: Vec<u8>,
    pub timelock: u32,
}

/// The SwapLock and Refund contracts of one swap, and the mining fee that
/// each spend of them pays.
#[derive(Clone, Debug)]
pub struct ContractPair {
    pub swaplock: Contract,
    pub refund: Contract,
    pub mining_fee: u64,
}

/// The fixed terms of one trade attempt.
#[derive(Clone, Debug)]
pub struct Swap {
    pub keys: KeyPrivate,
    /// This node's public keys with their proof, as sent to the counterparty.
    pub public_keys: KeyPublic,
    /// Script that receives this node's BCH.
    pub bch_recv: Vec<u8>,
    /// Amount of BCH, in satoshis.
    pub bch_amount: u64,
    /// Amount of XMR, in piconero.
    pub xmr_amount: u64,
    pub timelock1: u32,
    pub timelock2: u32,
    pub bch_network: BchNetwork,
    pub xmr_network: XmrNetwork,
}

/// The events that move a swap.
#[derive(Clone, Debug)]
pub enum Transition {
    /// The counterparty's keys and receiving script.
    Msg0 { keys: KeyPublic, receiving: Vec<u8> },
    /// The addresses that the counterparty claims for the contract.
    Contract { bch_address: String, xmr_address: Vec<u8> },
    /// The counterparty's encrypted signature.
    EncSig(Vec<u8>),
    /// The amount of XMR seen locked in the shared wallet.
    XmrLockVerified(u64),
    /// A confirmed BCH transaction (raw bytes) and its confirmation count.
    BchConfirmedTx(Vec<u8>, u64),
    /// The height from which the shared view wallet scans.
    SetXmrRestoreHeight(u64),
}

/// Side effects that a step asks of its runner, in order.
#[derive(Clone, Debug)]
pub enum Action {
    /// Abandon the session and delete what it stored.
    SafeDelete,
    /// Create a view-only Monero wallet for the view pair.
    CreateXmrView(ViewPair),
    /// Show the instruction to send this many satoshis to this cash address.
    LockBch(u64, String),
    /// Watch this Monero address (its bytes).
    WatchXmr(Vec<u8>),
    /// Broadcast the two refund transactions.
    UnlockBchFallback,
    /// Report that the trade succeeded.
    TradeSuccess,
}

/// Why a step was refused.
#[derive(Clone, Copy, Debug, PartialEq, Eq, Structural)]
pub enum Error {
    InvalidProof,
    InvalidTimelock,
    InvalidBchAddress,
    InvalidXmrAddress,
    InvalidSignature,
    InvalidXmrAmount,
    InvalidTransaction,
    InvalidStateTransition,
}

/// What the cryptographic and contract collaborators report on the event
/// being stepped. Each step reads only the part that concerns its event.
#[derive(Clone, Debug)]
pub struct Findings {
    /// The key-equality proof of `Msg0`'s keys verifies against them.
    pub proof_valid: bool,
    /// The contract pair built from both parties' keys, the timelocks, the
    /// network and the amount; `None` when the timelocks are rejected.
    pub contract_pair: Option<ContractPair>,
    /// The encrypted signature decrypted with this node's spend secret, when
    /// it verifies against the counterparty's key for the commitment.
    pub dec_sig: Option<Vec<u8>>,
    /// How a confirmed transaction funds the contract pair, if it does.
    pub tx_class: Option<(OutPoint, TxKind)>,
    /// The counterparty's Monero spend secret, recovered from the plain
    /// signature that a confirmed transaction discloses (see
    /// `tx::disclosed_signature`) and this node's encrypted signature;
    /// `None` when the recovery fails.
    pub revealed_spend: Option<Vec<u8>>,
}

impl Findings {
    /// Findings that report nothing.
    pub fn none() -> (r: Findings)
        ensures
            !r.proof_valid,
            r.contract_pair is None,
            r.dec_sig is None,
            r.tx_class is None,
            r.revealed_spend is None,
    {
        Findings {
            proof_valid: false,
            contract_pair: None,
            dec_sig: None,
            tx_class: None,
            revealed_spend: None,
        }
    }
}

/// The balance that counts as locked: the unlocked balance on the main
/// network, the whole balance on test networks, which may not enforce
/// maturity.
pub open spec fn counted_balance(network: XmrNetwork, balance: u64, unlocked: u64) -> u64 {
    if network == XmrNetwork::Mainnet {
        unlocked
    } else {
        balance
    }
}

/// The balance that counts as locked, computed.
pub fn observed_balance(network: XmrNetwork, balance: u64, unlocked: u64) -> (r: u64)
    ensures
        r == counted_balance(network, balance, unlocked),
{
    match network {
        XmrNetwork::Mainnet => unlocked,
        _ => balance,
    }
}

/// The event that a wallet balance reports: the XMR lock when the balance
/// that counts equals the expected amount, nothing otherwise.
pub fn xmr_lock_event(network: XmrNetwork, balance: u64, unlocked: u64, expected: u64) -> (r: Option<Transition>)
    ensures
        r is Some <==> counted_balance(network, balance, unlocked) == expected,
        r matches Some(t) ==> t == Transition::XmrLockVerified(expected),
{
    let seen = observed_balance(network, balance, unlocked);
    if seen == expected {
        Some(Transition::XmrLockVerified(seen))
    } else {
        None
    }
}

impl Transition {
    /// Whether the event may come from the counterparty: the key exchange,
    /// the contract addresses and the encrypted signature. Chain observations
    /// and restore heights are this node's own.
    pub fn is_public(&self) -> (r: bool)
        ensures
            r == (self is Msg0 || self is Contract || self is EncSig),
    {
        match self {
            Transition::Msg0 { .. } => true,
            Transition::Contract { .. } => true,
            Transition::EncSig(_) => true,
            _ => false,
        }
    }
}

} // verus!
