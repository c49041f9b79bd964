//! The responder's swap state machine: a pure step from a state and an event
//! to the next state, the actions it asks for, and an optional error.
use vstd::prelude::*;

use crate::keys::{
    add_secrets, commitment, network_code, point_ok, point_sum, public_of, scalar_sum, secret_ok,
    sha256_of, shared_view_pair, view_pair_address, xmr_address_of, KeyPair, KeyPrivate, KeyPublic,
    KeyPublicWithoutProof, ViewPair,
};
use crate::protocol::{
    Action, ContractPair, Error, Findings, OutPoint, Swap, Transition, TxKind,
};
use crate::tx::{disclosed_sig, disclosed_signature, txid, txid_of, Transaction, TxIn, TxOut};

verus! {

/// What is known once the counterparty's keys are accepted.
#[derive(Clone, Debug)]
pub struct Value0 {
    pub alice_keys: KeyPublicWithoutProof,
    pub alice_bch_recv: Vec<u8>,
    pub contract_pair: ContractPair,
    pub shared_keypair: ViewPair,
    /// Bytes of the Monero address of `shared_keypair`.
    pub xmr_address: Vec<u8>,
    pub xmr_restore_height: u64,
}

/// `Value0` with the verified decrypted signature.
#[derive(Clone, Debug)]
pub struct Value1 {
    pub alice_keys: KeyPublicWithoutProof,
    pub alice_bch_recv: Vec<u8>,
    pub contract_pair: ContractPair,
    pub shared_keypair: ViewPair,
    pub xmr_restore_height: u64,
    pub dec_sig: Vec<u8>,
}

/// What is kept once the XMR is locked: the contract pair is no longer needed.
#[derive(Clone, Debug)]
pub struct Value2 {
    pub alice_keys: KeyPublicWithoutProof,
    pub alice_bch_recv: Vec<u8>,
    pub shared_keypair: ViewPair,
    pub xmr_restore_height: u64,
    pub dec_sig: Vec<u8>,
}

/// `Value1` with the output that the refund spends.
#[derive(Clone, Debug)]
pub struct Value3 {
    pub alice_keys: KeyPublicWithoutProof,
    pub alice_bch_recv: Vec<u8>,
    pub contract_pair: ContractPair,
    pub shared_keypair: ViewPair,
    pub xmr_restore_height: u64,
    pub dec_sig: Vec<u8>,
    pub outpoint: OutPoint,
}

/// The phases of a swap, each with exactly the data it needs.
#[derive(Clone, Debug)]
pub enum State {
    Init,
    WithAliceKey(Value0),
    ContractMatch(Value0),
    VerifiedEncSig(Value1),
    MoneroLocked(Value2),
    ProceedRefund(Value3),
    /// The combined Monero key pair and the restore height of its wallet.
    SwapSuccess(KeyPair, u64),
}

/// The name of a phase, as logs show it.
pub open spec fn state_label(s: State) -> Seq<char> {
    match s {
        State::Init => "BobState::Init"@,
        State::WithAliceKey(_) => "BobState::WithAliceKey"@,
        State::ContractMatch(_) => "BobState::ContractMatch"@,
        State::VerifiedEncSig(_) => "BobState::VerifiedEncSig"@,
        State::MoneroLocked(_) => "BobState::MoneroLocked"@,
        State::ProceedRefund(_) => "BobState::ProceedRefund"@,
        State::SwapSuccess(_, _) => "BobState::SwapSuccess"@,
    }
}

impl State {
    /// The name of the phase.
    pub fn label(&self) -> (r: &'static str)
        ensures
            r@ == state_label(*self),
    {
        match self {
            State::Init => "BobState::Init",
            State::WithAliceKey(_) => "BobState::WithAliceKey",
            State::ContractMatch(_) => "BobState::ContractMatch",
            State::VerifiedEncSig(_) => "BobState::VerifiedEncSig",
            State::MoneroLocked(_) => "BobState::MoneroLocked",
            State::ProceedRefund(_) => "BobState::ProceedRefund",
            State::SwapSuccess(_, _) => "BobState::SwapSuccess",
        }
    }
}

/// One swap session of the responder: its phase and its fixed terms.
#[derive(Clone, Debug)]
pub struct Bob {
    pub state: State,
    pub swap: Swap,
}

/// The outcome of one step.
pub type Step = (Bob, Vec<Action>, Option<Error>);

/// The step refused the event: nothing changed and nothing is to be done.
pub open spec fn refused(b: Bob, r: Step, e: Error) -> bool {
    r.0 == b && r.1@.len() == 0 && r.2 == Some(e)
}

/// The step refused the event and asks to abandon the session.
pub open spec fn aborted(b: Bob, r: Step, e: Error) -> bool {
    r.0 == b && r.1@ == seq![Action::SafeDelete] && r.2 == Some(e)
}

/// The step accepted the event and changed nothing.
pub open spec fn ignored(b: Bob, r: Step) -> bool {
    r.0 == b && r.1@.len() == 0 && r.2 is None
}

/// The step moved to `s` with no action.
pub open spec fn moved(b: Bob, r: Step, s: State) -> bool {
    r.0 == (Bob { state: s, swap: b.swap }) && r.1@.len() == 0 && r.2 is None
}

/// Both parties' Monero keys are well formed, so the shared pair exists.
pub open spec fn keys_combine(own: KeyPrivate, other: KeyPublic) -> bool {
    &&& secret_ok(own.monero_view@)
    &&& secret_ok(other.monero_view@)
    &&& secret_ok(own.monero_spend@)
    &&& point_ok(other.monero_spend@)
}

/// `k` is `other` without its proof.
pub open spec fn same_keys(k: KeyPublicWithoutProof, other: KeyPublic) -> bool {
    &&& k.ves@ == other.ves@
    &&& k.spend_bch@ == other.spend_bch@
    &&& k.monero_view@ == other.monero_view@
    &&& k.monero_spend@ == other.monero_spend@
}

/// The state data made from an accepted key exchange.
pub open spec fn first_contact(
    v: Value0,
    s: Swap,
    keys: KeyPublic,
    receiving: Vec<u8>,
    cp: ContractPair,
) -> bool {
    &&& same_keys(v.alice_keys, keys)
    &&& v.alice_bch_recv@ == receiving@
    &&& v.contract_pair == cp
    &&& v.shared_keypair.view@ == scalar_sum(s.keys.monero_view@, keys.monero_view@)
    &&& v.shared_keypair.spend@ == point_sum(public_of(s.keys.monero_spend@), keys.monero_spend@)
    &&& v.xmr_address@ == xmr_address_of(
        network_code(s.xmr_network),
        v.shared_keypair.view@,
        v.shared_keypair.spend@,
    )
    &&& v.xmr_restore_height == 0
}

/// The key exchange from `Init`. It is accepted when the proof verifies
/// and both parties' Monero keys are well formed (no proof holds of a
/// malformed key), and when the contract pair could be built.
pub open spec fn msg0_post(b: Bob, keys: KeyPublic, receiving: Vec<u8>, f: Findings, r: Step) -> bool {
    if !(f.proof_valid && keys_combine(b.swap.keys, keys)) {
        aborted(b, r, Error::InvalidProof)
    } else {
        match f.contract_pair {
            None => aborted(b, r, Error::InvalidTimelock),
            Some(cp) => {
                &&& r.0.swap == b.swap
                &&& r.2 is None
                &&& r.1@.len() == 1
                &&& r.0.state matches State::WithAliceKey(v) && (first_contact(
                    v,
                    b.swap,
                    keys,
                    receiving,
                    cp,
                ) && (r.1@[0] matches Action::CreateXmrView(vp) && (vp.view@
                    == v.shared_keypair.view@ && vp.spend@ == v.shared_keypair.spend@)))
            },
        }
    }
}

/// The contract confirmation from `WithAliceKey`.
pub open spec fn contract_post(b: Bob, v: Value0, bch_address: String, xmr_address: Vec<u8>, r: Step) -> bool {
    if v.contract_pair.swaplock.cash_address@ != bch_address@ {
        refused(b, r, Error::InvalidBchAddress)
    } else if v.xmr_address@ != xmr_address@ {
        refused(b, r, Error::InvalidXmrAddress)
    } else {
        moved(b, r, State::ContractMatch(v))
    }
}

/// The encrypted signature from `ContractMatch`.
pub open spec fn enc_sig_post(b: Bob, v: Value0, f: Findings, r: Step) -> bool {
    match f.dec_sig {
        None => aborted(b, r, Error::InvalidSignature),
        Some(sig) => {
            &&& r.0 == Bob {
                state: State::VerifiedEncSig(
                    Value1 {
                        alice_keys: v.alice_keys,
                        alice_bch_recv: v.alice_bch_recv,
                        contract_pair: v.contract_pair,
                        shared_keypair: v.shared_keypair,
                        xmr_restore_height: v.xmr_restore_height,
                        dec_sig: sig,
                    },
                ),
                swap: b.swap,
            }
            &&& r.2 is None
            &&& r.1@.len() == 2
            &&& r.1@[0] matches Action::LockBch(amount, address) && (amount == b.swap.bch_amount
                && address@ == v.contract_pair.swaplock.cash_address@)
            &&& r.1@[1] matches Action::WatchXmr(x) && x@ == v.xmr_address@
        },
    }
}

/// The XMR lock report from `VerifiedEncSig`.
pub open spec fn xmr_lock_post(b: Bob, v: Value1, amount: u64, r: Step) -> bool {
    if amount != b.swap.xmr_amount {
        refused(b, r, Error::InvalidXmrAmount)
    } else {
        moved(
            b,
            r,
            State::MoneroLocked(
                Value2 {
                    alice_keys: v.alice_keys,
                    alice_bch_recv: v.alice_bch_recv,
                    shared_keypair: v.shared_keypair,
                    xmr_restore_height: v.xmr_restore_height,
                    dec_sig: v.dec_sig,
                },
            ),
        )
    }
}

/// The refund state reached from `v` through the output `op`.
pub open spec fn refund_state(v: Value1, op: OutPoint) -> State {
    State::ProceedRefund(
        Value3 {
            alice_keys: v.alice_keys,
            alice_bch_recv: v.alice_bch_recv,
            contract_pair: v.contract_pair,
            shared_keypair: v.shared_keypair,
            xmr_restore_height: v.xmr_restore_height,
            dec_sig: v.dec_sig,
            outpoint: op,
        },
    )
}

/// A confirmed BCH transaction seen from `VerifiedEncSig`.
pub open spec fn locked_tx_post(b: Bob, v: Value1, conf: u64, f: Findings, r: Step) -> bool {
    match f.tx_class {
        Some((op, kind)) => if kind == TxKind::ToSwapLock && (conf as int) < (b.swap.timelock1 as int) {
            ignored(b, r)
        } else {
            &&& r.0 == (Bob { state: refund_state(v, op), swap: b.swap })
            &&& r.1@ == seq![Action::UnlockBchFallback]
            &&& r.2 is None
        },
        None => ignored(b, r),
    }
}

/// A confirmed BCH transaction seen from `MoneroLocked`: it must disclose
/// the counterparty's plain signature, from which its spend secret is
/// recovered.
pub open spec fn success_post(b: Bob, v: Value2, tx: Vec<u8>, f: Findings, r: Step) -> bool {
    if disclosed_sig(tx@) is None {
        refused(b, r, Error::InvalidTransaction)
    } else {
    match f.revealed_spend {
        Some(sec) => if secret_ok(b.swap.keys.monero_spend@) && secret_ok(sec@) {
            &&& r.0.swap == b.swap
            &&& r.0.state matches State::SwapSuccess(kp, h) && (kp.view == v.shared_keypair.view
                && kp.spend@ == scalar_sum(b.swap.keys.monero_spend@, sec@) && h
                == v.xmr_restore_height)
            &&& r.1@ == seq![Action::TradeSuccess]
            &&& r.2 is None
        } else {
            refused(b, r, Error::InvalidTransaction)
        },
        None => refused(b, r, Error::InvalidTransaction),
    }
    }
}

/// A new restore height: every state that carries one takes it.
pub open spec fn restore_height_post(b: Bob, h: u64, r: Step) -> bool {
    match b.state {
        State::Init => refused(b, r, Error::InvalidStateTransition),
        State::WithAliceKey(v) => moved(b, r, State::WithAliceKey(Value0 { xmr_restore_height: h, ..v })),
        State::ContractMatch(v) => moved(b, r, State::ContractMatch(Value0 { xmr_restore_height: h, ..v })),
        State::VerifiedEncSig(v) => moved(b, r, State::VerifiedEncSig(Value1 { xmr_restore_height: h, ..v })),
        State::MoneroLocked(v) => moved(b, r, State::MoneroLocked(Value2 { xmr_restore_height: h, ..v })),
        State::ProceedRefund(v) => moved(b, r, State::ProceedRefund(Value3 { xmr_restore_height: h, ..v })),
        State::SwapSuccess(kp, _) => moved(b, r, State::SwapSuccess(kp, h)),
    }
}

/// The transition table: what one step does with state `b.state` and event `t`,
/// given what the collaborators found. Pairs outside the table are refused.
pub open spec fn transition_post(b: Bob, t: Transition, f: Findings, r: Step) -> bool {
    match t {
        Transition::Msg0 { keys, receiving } => match b.state {
            State::Init => msg0_post(b, keys, receiving, f, r),
            _ => refused(b, r, Error::InvalidStateTransition),
        },
        Transition::Contract { bch_address, xmr_address } => match b.state {
            State::WithAliceKey(v) => contract_post(b, v, bch_address, xmr_address, r),
            _ => refused(b, r, Error::InvalidStateTransition),
        },
        Transition::EncSig(_) => match b.state {
            State::ContractMatch(v) => enc_sig_post(b, v, f, r),
            _ => refused(b, r, Error::InvalidStateTransition),
        },
        Transition::XmrLockVerified(amount) => match b.state {
            State::VerifiedEncSig(v) => xmr_lock_post(b, v, amount, r),
            _ => refused(b, r, Error::InvalidStateTransition),
        },
        Transition::BchConfirmedTx(tx, conf) => match b.state {
            State::VerifiedEncSig(v) => locked_tx_post(b, v, conf, f, r),
            State::MoneroLocked(v) => success_post(b, v, tx, f, r),
            _ => refused(b, r, Error::InvalidStateTransition),
        },
        Transition::SetXmrRestoreHeight(h) => restore_height_post(b, h, r),
    }
}

/// A list of one action.
fn one_action(a: Action) -> (r: Vec<Action>)
    ensures
        r@ == seq![a],
{
    let mut r = Vec::new();
    r.push(a);
    r
}

/// A list of two actions, in order.
fn two_actions(a: Action, b: Action) -> (r: Vec<Action>)
    ensures
        r@ == seq![a, b],
{
    let mut r = Vec::new();
    r.push(a);
    r.push(b);
    r
}

/// The data of a state that knows both parties' keys but not yet the signature.
pub open spec fn value0_of(s: State) -> Value0
    recommends
        s is WithAliceKey || s is ContractMatch,
{
    match s {
        State::WithAliceKey(v) => v,
        State::ContractMatch(v) => v,
        _ => arbitrary(),
    }
}

/// The two refund transactions of a session in `ProceedRefund` with data `v`:
/// the first moves the SwapLock output to the Refund contract, the second
/// moves that output to this node's receiving script, each paying the fee.
pub open spec fn refund_pair(
    swap: Swap,
    v: Value3,
    swaplock_unlocker: Seq<u8>,
    refund_unlocker: Seq<u8>,
    t1: Transaction,
    t2: Transaction,
) -> bool {
    let fee = v.contract_pair.mining_fee;
    &&& t1.version == 2 && t1.lock_time == 0
    &&& t1.input@.len() == 1 && t1.output@.len() == 1
    &&& t1.input@[0].previous_output == v.outpoint
    &&& t1.input@[0].script_sig@ == swaplock_unlocker
    &&& t1.input@[0].sequence == v.contract_pair.swaplock.timelock
    &&& t1.output@[0].value == swap.bch_amount - fee
    &&& t1.output@[0].script_pubkey@ == v.contract_pair.refund.locking_script@
    &&& t2.version == 2 && t2.lock_time == 0
    &&& t2.input@.len() == 1 && t2.output@.len() == 1
    &&& t2.input@[0].previous_output.txid@ == txid_of(
        2,
        0,
        t1.inputs_view(),
        t1.outputs_view(),
    )
    &&& t2.input@[0].previous_output.vout == 0
    &&& t2.input@[0].script_sig@ == refund_unlocker
    &&& t2.input@[0].sequence == 0
    &&& t2.output@[0].value == swap.bch_amount - 2 * fee
    &&& t2.output@[0].script_pubkey@ == swap.bch_recv@
}

/// Whether the transition table has a row for this event in this state.
pub open spec fn in_table(s: State, t: Transition) -> bool {
    match t {
        Transition::Msg0 { .. } => s is Init,
        Transition::Contract { .. } => s is WithAliceKey,
        Transition::EncSig(_) => s is ContractMatch,
        Transition::XmrLockVerified(_) => s is VerifiedEncSig,
        Transition::BchConfirmedTx(_, _) => s is VerifiedEncSig || s is MoneroLocked,
        Transition::SetXmrRestoreHeight(_) => !(s is Init),
    }
}

/// An event that the table has no row for in the current state leaves the
/// session unchanged, asks for nothing and reports an invalid transition.
pub proof fn lemma_outside_table_refused(b: Bob, t: Transition, f: Findings, r: Step)
    requires
        !in_table(b.state, t),
        transition_post(b, t, f, r),
    ensures
        r.0 == b,
        r.1@.len() == 0,
        r.2 == Some(Error::InvalidStateTransition),
{
}

/// A key exchange whose proof does not verify leaves a fresh session
/// unchanged, without a contract, asks to abandon it and reports the proof.
pub proof fn lemma_invalid_proof_aborts(b: Bob, keys: KeyPublic, receiving: Vec<u8>, f: Findings, r: Step)
    requires
        b.state is Init,
        !f.proof_valid,
        transition_post(b, Transition::Msg0 { keys, receiving }, f, r),
    ensures
        r.0 == b,
        r.0.state is Init,
        r.1@ == seq![Action::SafeDelete],
        r.2 == Some(Error::InvalidProof),
{
}

/// What a key exchange derives depends on its inputs alone: two steps on
/// the same session, event and findings agree on the shared keys, the
/// Monero address and the contract pair.
pub proof fn lemma_derivation_deterministic(
    b: Bob,
    keys: KeyPublic,
    receiving: Vec<u8>,
    f: Findings,
    r1: Step,
    r2: Step,
)
    requires
        b.state is Init,
        transition_post(b, Transition::Msg0 { keys, receiving }, f, r1),
        transition_post(b, Transition::Msg0 { keys, receiving }, f, r2),
    ensures
        r1.2 == r2.2,
        r1.2 is None ==> (r1.0.state matches State::WithAliceKey(v1) && (r2.0.state matches State::WithAliceKey(
            v2,
        ) && (v1.shared_keypair.view@ == v2.shared_keypair.view@ && v1.shared_keypair.spend@
            == v2.shared_keypair.spend@ && v1.xmr_address@ == v2.xmr_address@ && v1.contract_pair
            == v2.contract_pair))),
{
}

/// Whether two byte strings are equal.
fn bytes_equal(a: &Vec<u8>, b: &Vec<u8>) -> (r: bool)
    ensures
        r == (a@ == b@),
{
    if a.len() != b.len() {
        return false;
    }
    let mut i: usize = 0;
    while i < a.len()
        invariant
            a@.len() == b@.len(),
            i <= a@.len(),
            forall|j: int| 0 <= j < i ==> a@[j] == b@[j],
        decreases a@.len() - i,
    {
        if a[i] != b[i] {
            return false;
        }
        i = i + 1;
    }
    assert(a@ =~= b@);
    true
}

impl Bob {
    /// A fresh session for a trade.
    pub fn new(swap: Swap) -> (r: Bob)
        ensures
            r.state is Init,
            r.swap == swap,
    {
        Bob { state: State::Init, swap }
    }

    fn on_msg0(swap: Swap, keys: KeyPublic, receiving: Vec<u8>, f: Findings) -> (r: Step)
        ensures
            msg0_post(Bob { state: State::Init, swap }, keys, receiving, f, r),
    {
        let alice = keys.without_proof();
        let shared = if f.proof_valid {
            shared_view_pair(&swap.keys, &alice)
        } else {
            None
        };
        let shared = match shared {
            Some(vp) => vp,
            None => {
                return (Bob { state: State::Init, swap }, one_action(Action::SafeDelete), Some(Error::InvalidProof));
            },
        };
        let contract_pair = match f.contract_pair {
            Some(cp) => cp,
            None => {
                return (Bob { state: State::Init, swap }, one_action(Action::SafeDelete), Some(Error::InvalidTimelock));
            },
        };
        let xmr_address = view_pair_address(swap.xmr_network, &shared);
        let announced = ViewPair { view: shared.view.clone(), spend: shared.spend.clone() };
        let v = Value0 {
            alice_keys: alice,
            alice_bch_recv: receiving,
            contract_pair,
            shared_keypair: shared,
            xmr_address,
            xmr_restore_height: 0,
        };
        (Bob { state: State::WithAliceKey(v), swap }, one_action(Action::CreateXmrView(announced)), None)
    }

    fn on_contract(swap: Swap, v: Value0, bch_address: String, xmr_address: Vec<u8>) -> (r: Step)
        ensures
            contract_post(Bob { state: State::WithAliceKey(v), swap }, v, bch_address, xmr_address, r),
    {
        if v.contract_pair.swaplock.cash_address != bch_address {
            return (Bob { state: State::WithAliceKey(v), swap }, Vec::new(), Some(Error::InvalidBchAddress));
        }
        if !bytes_equal(&v.xmr_address, &xmr_address) {
            return (Bob { state: State::WithAliceKey(v), swap }, Vec::new(), Some(Error::InvalidXmrAddress));
        }
        (Bob { state: State::ContractMatch(v), swap }, Vec::new(), None)
    }

    fn on_enc_sig(swap: Swap, v: Value0, f: Findings) -> (r: Step)
        ensures
            enc_sig_post(Bob { state: State::ContractMatch(v), swap }, v, f, r),
    {
        let sig = match f.dec_sig {
            Some(sig) => sig,
            None => {
                return (Bob { state: State::ContractMatch(v), swap }, one_action(Action::SafeDelete), Some(Error::InvalidSignature));
            },
        };
        let lock = Action::LockBch(swap.bch_amount, v.contract_pair.swaplock.cash_address.clone());
        let watch = Action::WatchXmr(v.xmr_address.clone());
        let next = Value1 {
            alice_keys: v.alice_keys,
            alice_bch_recv: v.alice_bch_recv,
            contract_pair: v.contract_pair,
            shared_keypair: v.shared_keypair,
            xmr_restore_height: v.xmr_restore_height,
            dec_sig: sig,
        };
        (Bob { state: State::VerifiedEncSig(next), swap }, two_actions(lock, watch), None)
    }

    fn on_xmr_lock(swap: Swap, v: Value1, amount: u64) -> (r: Step)
        ensures
            xmr_lock_post(Bob { state: State::VerifiedEncSig(v), swap }, v, amount, r),
    {
        if amount != swap.xmr_amount {
            return (Bob { state: State::VerifiedEncSig(v), swap }, Vec::new(), Some(Error::InvalidXmrAmount));
        }
        let next = Value2 {
            alice_keys: v.alice_keys,
            alice_bch_recv: v.alice_bch_recv,
            shared_keypair: v.shared_keypair,
            xmr_restore_height: v.xmr_restore_height,
            dec_sig: v.dec_sig,
        };
        (Bob { state: State::MoneroLocked(next), swap }, Vec::new(), None)
    }

    fn on_locked_tx(swap: Swap, v: Value1, conf: u64, f: Findings) -> (r: Step)
        ensures
            locked_tx_post(Bob { state: State::VerifiedEncSig(v), swap }, v, conf, f, r),
    {
        let op = match f.tx_class {
            Some((op, kind)) => {
                if kind == TxKind::ToSwapLock && conf < swap.timelock1 as u64 {
                    return (Bob { state: State::VerifiedEncSig(v), swap }, Vec::new(), None);
                }
                op
            },
            None => {
                return (Bob { state: State::VerifiedEncSig(v), swap }, Vec::new(), None);
            },
        };
        let next = Value3 {
            alice_keys: v.alice_keys,
            alice_bch_recv: v.alice_bch_recv,
            contract_pair: v.contract_pair,
            shared_keypair: v.shared_keypair,
            xmr_restore_height: v.xmr_restore_height,
            dec_sig: v.dec_sig,
            outpoint: op,
        };
        (Bob { state: State::ProceedRefund(next), swap }, one_action(Action::UnlockBchFallback), None)
    }

    fn on_disclosed(swap: Swap, v: Value2, tx: Vec<u8>, f: Findings) -> (r: Step)
        ensures
            success_post(Bob { state: State::MoneroLocked(v), swap }, v, tx, f, r),
    {
        if disclosed_signature(&tx).is_none() {
            return (Bob { state: State::MoneroLocked(v), swap }, Vec::new(), Some(Error::InvalidTransaction));
        }
        let sec = match f.revealed_spend {
            Some(sec) => sec,
            None => {
                return (Bob { state: State::MoneroLocked(v), swap }, Vec::new(), Some(Error::InvalidTransaction));
            },
        };
        let spend = match add_secrets(&swap.keys.monero_spend, &sec) {
            Some(k) => k,
            None => {
                return (Bob { state: State::MoneroLocked(v), swap }, Vec::new(), Some(Error::InvalidTransaction));
            },
        };
        let key_pair = KeyPair { view: v.shared_keypair.view, spend };
        (Bob { state: State::SwapSuccess(key_pair, v.xmr_restore_height), swap }, one_action(Action::TradeSuccess), None)
    }

    fn on_restore_height(swap: Swap, state: State, h: u64) -> (r: Step)
        ensures
            restore_height_post(Bob { state, swap }, h, r),
    {
        match state {
            State::Init => (Bob { state: State::Init, swap }, Vec::new(), Some(Error::InvalidStateTransition)),
            State::WithAliceKey(mut v) => {
                v.xmr_restore_height = h;
                (Bob { state: State::WithAliceKey(v), swap }, Vec::new(), None)
            },
            State::ContractMatch(mut v) => {
                v.xmr_restore_height = h;
                (Bob { state: State::ContractMatch(v), swap }, Vec::new(), None)
            },
            State::VerifiedEncSig(mut v) => {
                v.xmr_restore_height = h;
                (Bob { state: State::VerifiedEncSig(v), swap }, Vec::new(), None)
            },
            State::MoneroLocked(mut v) => {
                v.xmr_restore_height = h;
                (Bob { state: State::MoneroLocked(v), swap }, Vec::new(), None)
            },
            State::ProceedRefund(mut v) => {
                v.xmr_restore_height = h;
                (Bob { state: State::ProceedRefund(v), swap }, Vec::new(), None)
            },
            State::SwapSuccess(kp, _) => (Bob { state: State::SwapSuccess(kp, h), swap }, Vec::new(), None),
        }
    }

    /// The SwapLock cash address and the shared Monero address (its bytes),
    /// while the contract is being agreed.
    pub fn get_contract(&self) -> (r: Option<(String, Vec<u8>)>)
        ensures
            r is Some <==> (self.state is WithAliceKey || self.state is ContractMatch),
            r matches Some((bch, xmr)) ==> bch@ == value0_of(self.state).contract_pair.swaplock.cash_address@
                && xmr@ == value0_of(self.state).xmr_address@,
    {
        let v = match &self.state {
            State::WithAliceKey(v) => v,
            State::ContractMatch(v) => v,
            _ => return None,
        };
        Some((v.contract_pair.swaplock.cash_address.clone(), v.xmr_address.clone()))
    }

    /// The contract pair, in the states that carry it and watch the chain
    /// for it.
    pub fn get_contract_pair(&self) -> (r: Option<&ContractPair>)
        ensures
            r is Some <==> (self.state is WithAliceKey || self.state is ContractMatch
                || self.state is VerifiedEncSig),
            r matches Some(c) ==> *c == match self.state {
                State::VerifiedEncSig(v) => v.contract_pair,
                _ => value0_of(self.state).contract_pair,
            },
    {
        match &self.state {
            State::WithAliceKey(v) => Some(&v.contract_pair),
            State::ContractMatch(v) => Some(&v.contract_pair),
            State::VerifiedEncSig(v) => Some(&v.contract_pair),
            _ => None,
        }
    }

    /// The message that the counterparty's encrypted signature must commit
    /// to: the double SHA-256 of this node's receiving script.
    pub fn enc_sig_message(&self) -> (r: Vec<u8>)
        ensures
            r@ == sha256_of(sha256_of(self.swap.bch_recv@)),
    {
        commitment(&self.swap.bch_recv)
    }

    /// Once the XMR is locked, what this node's own encrypted signature of
    /// the SwapLock spend is made over: the message (the double SHA-256 of
    /// the counterparty's receiving script) and the encryption key (the
    /// counterparty's BCH spend key).
    pub fn swaplock_enc_sig_input(&self) -> (r: Option<(Vec<u8>, Vec<u8>)>)
        ensures
            r is Some <==> self.state is MoneroLocked,
            r matches Some((msg, key)) ==> msg@ == sha256_of(
                sha256_of(self.state->MoneroLocked_0.alice_bch_recv@),
            ) && key@ == self.state->MoneroLocked_0.alice_keys.spend_bch@,
    {
        match &self.state {
            State::MoneroLocked(v) => Some((commitment(&v.alice_bch_recv), v.alice_keys.spend_bch.clone())),
            _ => None,
        }
    }

    /// The two refund transactions, built in full before either is sent.
    /// `swaplock_unlocker` is the SwapLock contract's refund-path unlocking
    /// script; `refund_unlocker` is the Refund contract's unlocking script
    /// for the decrypted signature. `None` outside `ProceedRefund`, or when
    /// the amount cannot pay two fees.
    pub fn refund(&self, swaplock_unlocker: Vec<u8>, refund_unlocker: Vec<u8>) -> (r: Option<(Transaction, Transaction)>)
        ensures
            r is Some <==> (self.state is ProceedRefund && 2 * self.state->ProceedRefund_0.contract_pair.mining_fee
                <= self.swap.bch_amount),
            r matches Some((t1, t2)) ==> refund_pair(
                self.swap,
                self.state->ProceedRefund_0,
                swaplock_unlocker@,
                refund_unlocker@,
                t1,
                t2,
            ),
    {
        let v = match &self.state {
            State::ProceedRefund(v) => v,
            _ => return None,
        };
        let fee = v.contract_pair.mining_fee;
        let amount = self.swap.bch_amount;
        if amount < fee || amount - fee < fee {
            return None;
        }
        let mut in1: Vec<TxIn> = Vec::new();
        in1.push(TxIn { previous_output: v.outpoint, script_sig: swaplock_unlocker, sequence: v.contract_pair.swaplock.timelock });
        let mut out1: Vec<TxOut> = Vec::new();
        out1.push(TxOut { value: amount - fee, script_pubkey: v.contract_pair.refund.locking_script.clone() });
        let tx1 = Transaction { version: 2, lock_time: 0, input: in1, output: out1 };
        let id = txid(&tx1);
        let mut in2: Vec<TxIn> = Vec::new();
        in2.push(TxIn { previous_output: OutPoint { txid: id, vout: 0 }, script_sig: refund_unlocker, sequence: 0 });
        let mut out2: Vec<TxOut> = Vec::new();
        out2.push(TxOut { value: amount - 2 * fee, script_pubkey: self.swap.bch_recv.clone() });
        let tx2 = Transaction { version: 2, lock_time: 0, input: in2, output: out2 };
        Some((tx1, tx2))
    }

    /// This node's public keys with their proof, as sent in the key exchange.
    pub fn get_public_keys(&self) -> (r: KeyPublic)
        ensures
            r.ves@ == self.swap.public_keys.ves@,
            r.spend_bch@ == self.swap.public_keys.spend_bch@,
            r.monero_view@ == self.swap.public_keys.monero_view@,
            r.monero_spend@ == self.swap.public_keys.monero_spend@,
            r.proof@ == self.swap.public_keys.proof@,
    {
        let k = &self.swap.public_keys;
        KeyPublic {
            ves: k.ves.clone(),
            spend_bch: k.spend_bch.clone(),
            monero_view: k.monero_view.clone(),
            monero_spend: k.monero_spend.clone(),
            proof: k.proof.clone(),
        }
    }

    /// The message that this node sends the counterparty in its current
    /// phase: its keys and receiving script after the key exchange, the
    /// contract addresses once they match, and, once the XMR is locked,
    /// `enc_sig`, its encrypted signature over `swaplock_enc_sig_input`.
    pub fn get_transition(&self, enc_sig: Vec<u8>) -> (r: Option<Transition>)
        ensures
            r is Some <==> (self.state is WithAliceKey || self.state is ContractMatch
                || self.state is MoneroLocked),
            self.state is WithAliceKey ==> (r matches Some(Transition::Msg0 { keys, receiving }) && (
            keys.ves@ == self.swap.public_keys.ves@ && keys.spend_bch@ == self.swap.public_keys.spend_bch@
                && keys.monero_view@ == self.swap.public_keys.monero_view@ && keys.monero_spend@
                == self.swap.public_keys.monero_spend@ && keys.proof@ == self.swap.public_keys.proof@
                && receiving@ == self.swap.bch_recv@)),
            self.state is ContractMatch ==> (r matches Some(Transition::Contract { bch_address, xmr_address }) && (
            bch_address@ == value0_of(self.state).contract_pair.swaplock.cash_address@
                && xmr_address@ == value0_of(self.state).xmr_address@)),
            self.state is MoneroLocked ==> r == Some(Transition::EncSig(enc_sig)),
    {
        match &self.state {
            State::WithAliceKey(_) => Some(
                Transition::Msg0 { keys: self.get_public_keys(), receiving: self.swap.bch_recv.clone() },
            ),
            State::ContractMatch(v) => Some(
                Transition::Contract {
                    bch_address: v.contract_pair.swaplock.cash_address.clone(),
                    xmr_address: v.xmr_address.clone(),
                },
            ),
            State::MoneroLocked(_) => Some(Transition::EncSig(enc_sig)),
            _ => None,
        }
    }

    /// One step of the swap. The session is consumed and handed back, moved
    /// on or unchanged; errors never leave it half updated.
    pub fn transition(self, t: Transition, f: Findings) -> (r: Step)
        ensures
            transition_post(self, t, f, r),
    {
        let Bob { state, swap } = self;
        match t {
            Transition::Msg0 { keys, receiving } => match state {
                State::Init => Bob::on_msg0(swap, keys, receiving, f),
                other => (Bob { state: other, swap }, Vec::new(), Some(Error::InvalidStateTransition)),
            },
            Transition::Contract { bch_address, xmr_address } => match state {
                State::WithAliceKey(v) => Bob::on_contract(swap, v, bch_address, xmr_address),
                other => (Bob { state: other, swap }, Vec::new(), Some(Error::InvalidStateTransition)),
            },
            Transition::EncSig(_) => match state {
                State::ContractMatch(v) => Bob::on_enc_sig(swap, v, f),
                other => (Bob { state: other, swap }, Vec::new(), Some(Error::InvalidStateTransition)),
            },
            Transition::XmrLockVerified(amount) => match state {
                State::VerifiedEncSig(v) => Bob::on_xmr_lock(swap, v, amount),
                other => (Bob { state: other, swap }, Vec::new(), Some(Error::InvalidStateTransition)),
            },
            Transition::BchConfirmedTx(tx, conf) => match state {
                State::VerifiedEncSig(v) => Bob::on_locked_tx(swap, v, conf, f),
                State::MoneroLocked(v) => Bob::on_disclosed(swap, v, tx, f),
                other => (Bob { state: other, swap }, Vec::new(), Some(Error::InvalidStateTransition)),
            },
            Transition::SetXmrRestoreHeight(h) => Bob::on_restore_height(swap, state, h),
        }
    }
}

} // verus!
