use protocol::bob::{Bob, State};
use protocol::keys::{commitment, KeyPrivate, KeyPublic};
use protocol::protocol::{
    observed_balance, xmr_lock_event, Action, BchNetwork, Contract, ContractPair, Error, Findings,
    OutPoint, Swap, Transition, TxKind,
};
use protocol::keys::XmrNetwork;
use protocol::tx::disclosed_signature;

fn scalar(n: u8) -> Vec<u8> {
    let mut b = vec![0u8; 32];
    b[0] = n;
    b
}

fn public(n: u8) -> Vec<u8> {
    let k = monero::PrivateKey::from_slice(&scalar(n)).unwrap();
    monero::PublicKey::from_private_key(&k).to_bytes().to_vec()
}

fn own_public() -> KeyPublic {
    KeyPublic {
        ves: vec![2; 33],
        spend_bch: vec![3; 33],
        monero_view: scalar(1),
        monero_spend: public(3),
        proof: vec![9; 8],
    }
}

fn swap() -> Swap {
    Swap {
        keys: KeyPrivate { ves: vec![4; 32], monero_spend: scalar(3), monero_view: scalar(1) },
        public_keys: own_public(),
        bch_recv: vec![0x76, 0xa9, 0x14, 1, 2, 3],
        bch_amount: 100_000,
        xmr_amount: 5_000,
        timelock1: 6,
        timelock2: 12,
        bch_network: BchNetwork::Regtest,
        xmr_network: XmrNetwork::Stagenet,
    }
}

fn alice_keys() -> KeyPublic {
    KeyPublic {
        ves: vec![5; 33],
        spend_bch: vec![6; 33],
        monero_view: scalar(5),
        monero_spend: public(7),
        proof: vec![8; 8],
    }
}

fn contract_pair() -> ContractPair {
    ContractPair {
        swaplock: Contract {
            cash_address: "bchreg:pswaplock".to_string(),
            locking_script: vec![0xa9, 1],
            timelock: 6,
        },
        refund: Contract {
            cash_address: "bchreg:prefund".to_string(),
            locking_script: vec![0xa9, 2],
            timelock: 12,
        },
        mining_fee: 1_000,
    }
}

fn msg0() -> Transition {
    Transition::Msg0 { keys: alice_keys(), receiving: vec![0x76, 7, 7] }
}

fn key_exchange_findings() -> Findings {
    let mut f = Findings::none();
    f.proof_valid = true;
    f.contract_pair = Some(contract_pair());
    f
}

fn expected_address() -> Vec<u8> {
    let view = monero::PrivateKey::from_slice(&scalar(6)).unwrap();
    let own = monero::PublicKey::from_slice(&public(3)).unwrap();
    let other = monero::PublicKey::from_slice(&public(7)).unwrap();
    let vp = monero::ViewPair { view, spend: own + other };
    monero::Address::from_viewpair(monero::Network::Stagenet, &vp).as_bytes()
}

fn disclosing_tx(pushes: usize) -> Vec<u8> {
    let sig = bitcoincash::secp256k1::ecdsa::Signature::from_compact(&[1u8; 64]).unwrap();
    let der = sig.serialize_der().to_vec();
    let mut script = vec![1, 0xaa, 1, 0xbb];
    script.truncate(2 * pushes.min(2));
    if pushes > 2 {
        script.push(der.len() as u8);
        script.extend_from_slice(&der);
    }
    let tx = bitcoincash::Transaction {
        version: bitcoincash::transaction::Version(2),
        lock_time: bitcoincash::absolute::LockTime::from_consensus(0),
        input: vec![bitcoincash::TxIn {
            previous_output: bitcoincash::OutPoint::new(
                <bitcoincash::Txid as bitcoincash::hashes::Hash>::from_byte_array([7; 32]),
                0,
            ),
            script_sig: bitcoincash::ScriptBuf::from_bytes(script),
            sequence: bitcoincash::Sequence(0),
            witness: bitcoincash::Witness::new(),
        }],
        output: vec![bitcoincash::TxOut {
            value: bitcoincash::Amount::from_sat(1_000),
            script_pubkey: bitcoincash::ScriptBuf::from_bytes(vec![0x76]),
            token: None,
        }],
    };
    bitcoincash::consensus::serialize(&tx)
}

fn with_alice_key() -> Bob {
    let (b, _, e) = Bob::new(swap()).transition(msg0(), key_exchange_findings());
    assert_eq!(e, None);
    b
}

fn contract_match() -> Bob {
    let b = with_alice_key();
    let (bch, xmr) = b.get_contract().unwrap();
    let (b, _, e) = b.transition(Transition::Contract { bch_address: bch, xmr_address: xmr }, Findings::none());
    assert_eq!(e, None);
    b
}

fn verified_enc_sig() -> Bob {
    let mut f = Findings::none();
    f.dec_sig = Some(vec![0x30, 0x44, 1, 2]);
    let (b, _, e) = contract_match().transition(Transition::EncSig(vec![1; 10]), f);
    assert_eq!(e, None);
    b
}

#[test]
fn key_exchange_with_valid_proof_creates_view_wallet() {
    let (b, actions, e) = Bob::new(swap()).transition(msg0(), key_exchange_findings());
    assert_eq!(e, None);
    assert_eq!(actions.len(), 1);
    match &actions[0] {
        Action::CreateXmrView(vp) => {
            assert_eq!(vp.view, scalar(6));
            let own = monero::PublicKey::from_slice(&public(3)).unwrap();
            let other = monero::PublicKey::from_slice(&public(7)).unwrap();
            assert_eq!(vp.spend, (own + other).to_bytes().to_vec());
        }
        a => panic!("unexpected action {:?}", a),
    }
    match b.state {
        State::WithAliceKey(v) => {
            assert_eq!(v.xmr_address, expected_address());
            assert_eq!(v.alice_bch_recv, vec![0x76, 7, 7]);
            assert_eq!(v.xmr_restore_height, 0);
        }
        s => panic!("unexpected state {:?}", s),
    }
}

#[test]
fn key_exchange_with_invalid_proof_aborts() {
    let mut f = key_exchange_findings();
    f.proof_valid = false;
    let (b, actions, e) = Bob::new(swap()).transition(msg0(), f);
    assert!(matches!(b.state, State::Init));
    assert_eq!(actions.len(), 1);
    assert!(matches!(actions[0], Action::SafeDelete));
    assert_eq!(e, Some(Error::InvalidProof));
}

#[test]
fn key_exchange_with_malformed_monero_key_aborts() {
    let mut keys = alice_keys();
    keys.monero_view = vec![0xff; 32];
    let t = Transition::Msg0 { keys, receiving: vec![1] };
    let (b, actions, e) = Bob::new(swap()).transition(t, key_exchange_findings());
    assert!(matches!(b.state, State::Init));
    assert!(matches!(actions[..], [Action::SafeDelete]));
    assert_eq!(e, Some(Error::InvalidProof));
}

#[test]
fn key_exchange_with_rejected_timelocks_aborts() {
    let mut f = key_exchange_findings();
    f.contract_pair = None;
    let (b, actions, e) = Bob::new(swap()).transition(msg0(), f);
    assert!(matches!(b.state, State::Init));
    assert!(matches!(actions[..], [Action::SafeDelete]));
    assert_eq!(e, Some(Error::InvalidTimelock));
}

#[test]
fn derivation_is_deterministic() {
    let a = with_alice_key().get_contract().unwrap();
    let b = with_alice_key().get_contract().unwrap();
    assert_eq!(a, b);
    assert_eq!(a.1, expected_address());
}

#[test]
fn contract_with_wrong_bch_address_is_refused() {
    let b = with_alice_key();
    let (_, xmr) = b.get_contract().unwrap();
    let t = Transition::Contract { bch_address: "bchreg:other".to_string(), xmr_address: xmr };
    let (b, actions, e) = b.transition(t, Findings::none());
    assert!(matches!(b.state, State::WithAliceKey(_)));
    assert!(actions.is_empty());
    assert_eq!(e, Some(Error::InvalidBchAddress));
}

#[test]
fn contract_with_wrong_xmr_address_is_refused() {
    let b = with_alice_key();
    let (bch, mut xmr) = b.get_contract().unwrap();
    xmr[5] ^= 1;
    let (b, actions, e) = b.transition(Transition::Contract { bch_address: bch, xmr_address: xmr }, Findings::none());
    assert!(matches!(b.state, State::WithAliceKey(_)));
    assert!(actions.is_empty());
    assert_eq!(e, Some(Error::InvalidXmrAddress));
}

#[test]
fn invalid_encrypted_signature_aborts() {
    let (b, actions, e) = contract_match().transition(Transition::EncSig(vec![1; 10]), Findings::none());
    assert!(matches!(b.state, State::ContractMatch(_)));
    assert!(matches!(actions[..], [Action::SafeDelete]));
    assert_eq!(e, Some(Error::InvalidSignature));
}

#[test]
fn end_to_end_success() {
    let b = with_alice_key();
    let (b, actions, e) = b.transition(Transition::SetXmrRestoreHeight(1234), Findings::none());
    assert!(actions.is_empty() && e.is_none());
    let (bch, xmr) = b.get_contract().unwrap();
    assert_eq!(bch, "bchreg:pswaplock");
    let (b, actions, e) = b.transition(Transition::Contract { bch_address: bch, xmr_address: xmr }, Findings::none());
    assert!(matches!(b.state, State::ContractMatch(_)) && actions.is_empty() && e.is_none());

    let mut f = Findings::none();
    f.dec_sig = Some(vec![0x30, 0x44, 1, 2]);
    let (b, actions, e) = b.transition(Transition::EncSig(vec![1; 10]), f);
    assert_eq!(e, None);
    assert!(matches!(b.state, State::VerifiedEncSig(_)));
    assert_eq!(actions.len(), 2);
    match (&actions[0], &actions[1]) {
        (Action::LockBch(amount, addr), Action::WatchXmr(x)) => {
            assert_eq!(*amount, 100_000);
            assert_eq!(addr, "bchreg:pswaplock");
            assert_eq!(*x, expected_address());
        }
        a => panic!("unexpected actions {:?}", a),
    }

    let (b, actions, e) = b.transition(Transition::XmrLockVerified(5_000), Findings::none());
    assert!(matches!(b.state, State::MoneroLocked(_)) && actions.is_empty() && e.is_none());

    let mut f = Findings::none();
    f.revealed_spend = Some(scalar(7));
    let (b, actions, e) = b.transition(Transition::BchConfirmedTx(disclosing_tx(3), 1), f);
    assert_eq!(e, None);
    assert!(matches!(actions[..], [Action::TradeSuccess]));
    match b.state {
        State::SwapSuccess(kp, h) => {
            assert_eq!(kp.spend, scalar(10));
            assert_eq!(kp.view, scalar(6));
            assert_eq!(h, 1234);
        }
        s => panic!("unexpected state {:?}", s),
    }
}

#[test]
fn wrong_xmr_amount_is_refused() {
    let (b, actions, e) = verified_enc_sig().transition(Transition::XmrLockVerified(4_999), Findings::none());
    assert!(matches!(b.state, State::VerifiedEncSig(_)) && actions.is_empty());
    assert_eq!(e, Some(Error::InvalidXmrAmount));
}

#[test]
fn young_swaplock_funding_waits() {
    let mut f = Findings::none();
    f.tx_class = Some((OutPoint { txid: [3; 32], vout: 1 }, TxKind::ToSwapLock));
    let (b, actions, e) = verified_enc_sig().transition(Transition::BchConfirmedTx(vec![1], 5), f);
    assert!(matches!(b.state, State::VerifiedEncSig(_)) && actions.is_empty() && e.is_none());
}

#[test]
fn refund_from_swaplock_after_timelock() {
    let mut f = Findings::none();
    f.tx_class = Some((OutPoint { txid: [3; 32], vout: 1 }, TxKind::ToSwapLock));
    let (b, actions, e) = verified_enc_sig().transition(Transition::BchConfirmedTx(vec![1], 6), f);
    assert_eq!(e, None);
    assert!(matches!(actions[..], [Action::UnlockBchFallback]));
    assert!(matches!(b.state, State::ProceedRefund(_)));

    let (t1, t2) = b.refund(vec![0x51], vec![0x52, 0x53]).unwrap();
    assert_eq!(t1.input.len(), 1);
    assert_eq!(t1.input[0].previous_output.txid, [3; 32]);
    assert_eq!(t1.input[0].previous_output.vout, 1);
    assert_eq!(t1.input[0].sequence, 6);
    assert_eq!(t1.output[0].value, 99_000);
    assert_eq!(t1.output[0].script_pubkey, vec![0xa9, 2]);

    let expected = bitcoincash::Transaction {
        version: bitcoincash::transaction::Version(2),
        lock_time: bitcoincash::absolute::LockTime::from_consensus(0),
        input: vec![bitcoincash::TxIn {
            previous_output: bitcoincash::OutPoint::new(
                <bitcoincash::Txid as bitcoincash::hashes::Hash>::from_byte_array([3; 32]),
                1,
            ),
            script_sig: bitcoincash::ScriptBuf::from_bytes(vec![0x51]),
            sequence: bitcoincash::Sequence(6),
            witness: bitcoincash::Witness::new(),
        }],
        output: vec![bitcoincash::TxOut {
            value: bitcoincash::Amount::from_sat(99_000),
            script_pubkey: bitcoincash::ScriptBuf::from_bytes(vec![0xa9, 2]),
            token: None,
        }],
    };
    let id = <bitcoincash::Txid as bitcoincash::hashes::Hash>::to_byte_array(expected.compute_txid());
    assert_eq!(t2.input.len(), 1);
    assert_eq!(t2.input[0].previous_output.txid, id);
    assert_eq!(t2.input[0].previous_output.vout, 0);
    assert_eq!(t2.input[0].script_sig, vec![0x52, 0x53]);
    assert_eq!(t2.output[0].value, 98_000);
    assert_eq!(t2.output[0].script_pubkey, vec![0x76, 0xa9, 0x14, 1, 2, 3]);
}

#[test]
fn refund_after_counterparty_funds_refund() {
    let mut f = Findings::none();
    f.tx_class = Some((OutPoint { txid: [4; 32], vout: 0 }, TxKind::ToRefund));
    let (b, actions, e) = verified_enc_sig().transition(Transition::BchConfirmedTx(vec![1], 1), f);
    assert_eq!(e, None);
    assert!(matches!(actions[..], [Action::UnlockBchFallback]));
    assert!(matches!(b.state, State::ProceedRefund(_)));
}

#[test]
fn refund_outside_proceed_refund_is_none() {
    assert!(verified_enc_sig().refund(vec![], vec![]).is_none());
}

#[test]
fn undisclosed_signature_is_invalid_transaction() {
    let (b, _, e) = verified_enc_sig().transition(Transition::XmrLockVerified(5_000), Findings::none());
    assert_eq!(e, None);
    let mut f = Findings::none();
    f.revealed_spend = Some(scalar(7));
    let (b, actions, e) = b.transition(Transition::BchConfirmedTx(disclosing_tx(2), 3), f.clone());
    assert!(matches!(b.state, State::MoneroLocked(_)) && actions.is_empty());
    assert_eq!(e, Some(Error::InvalidTransaction));
    let (b, _, e) = b.transition(Transition::BchConfirmedTx(vec![1, 2, 3], 3), f);
    assert!(matches!(b.state, State::MoneroLocked(_)));
    assert_eq!(e, Some(Error::InvalidTransaction));
    let (b, _, e) = b.transition(Transition::BchConfirmedTx(disclosing_tx(3), 3), Findings::none());
    assert!(matches!(b.state, State::MoneroLocked(_)));
    assert_eq!(e, Some(Error::InvalidTransaction));
}

#[test]
fn disclosed_signature_is_third_push_in_compact_form() {
    assert_eq!(disclosed_signature(&disclosing_tx(3)), Some(vec![1u8; 64]));
    assert_eq!(disclosed_signature(&disclosing_tx(2)), None);
    assert_eq!(disclosed_signature(&vec![0, 1, 2]), None);
}

#[test]
fn phase_labels() {
    assert_eq!(State::Init.label(), "BobState::Init");
    assert_eq!(with_alice_key().state.label(), "BobState::WithAliceKey");
}

#[test]
fn transitions_outside_the_table_are_refused() {
    let (b, actions, e) = Bob::new(swap()).transition(Transition::XmrLockVerified(5_000), Findings::none());
    assert!(matches!(b.state, State::Init) && actions.is_empty());
    assert_eq!(e, Some(Error::InvalidStateTransition));
    let (b, _, e) = b.transition(Transition::SetXmrRestoreHeight(9), Findings::none());
    assert!(matches!(b.state, State::Init));
    assert_eq!(e, Some(Error::InvalidStateTransition));
    let (b, _, e) = with_alice_key().transition(msg0(), key_exchange_findings());
    assert!(matches!(b.state, State::WithAliceKey(_)));
    assert_eq!(e, Some(Error::InvalidStateTransition));
}

#[test]
fn messages_to_resend_follow_the_phase() {
    assert!(Bob::new(swap()).get_transition(vec![]).is_none());
    match with_alice_key().get_transition(vec![]) {
        Some(Transition::Msg0 { keys, receiving }) => {
            assert_eq!(keys.proof, vec![9; 8]);
            assert_eq!(receiving, swap().bch_recv);
        }
        t => panic!("unexpected {:?}", t),
    }
    assert!(matches!(contract_match().get_transition(vec![]), Some(Transition::Contract { .. })));
}

#[test]
fn commitment_is_double_sha256() {
    let script = vec![0x76, 0xa9, 0x14, 1, 2, 3];
    let once = bitcoin_hashes::sha256::hash(&script).to_byte_array();
    let twice = bitcoin_hashes::sha256::hash(&once).to_byte_array().to_vec();
    assert_eq!(commitment(&script), twice);
    assert_eq!(Bob::new(swap()).enc_sig_message(), twice);
}

#[test]
fn balance_that_counts_depends_on_network() {
    assert_eq!(observed_balance(XmrNetwork::Mainnet, 10, 7), 7);
    assert_eq!(observed_balance(XmrNetwork::Stagenet, 10, 7), 10);
    assert!(matches!(xmr_lock_event(XmrNetwork::Mainnet, 10, 7, 7), Some(Transition::XmrLockVerified(7))));
    assert!(xmr_lock_event(XmrNetwork::Mainnet, 7, 6, 7).is_none());
}

#[test]
fn only_counterparty_events_are_public() {
    assert!(msg0().is_public());
    assert!(Transition::EncSig(vec![]).is_public());
    assert!(!Transition::XmrLockVerified(1).is_public());
    assert!(!Transition::SetXmrRestoreHeight(1).is_public());
    assert!(!Transition::BchConfirmedTx(vec![], 1).is_public());
}
