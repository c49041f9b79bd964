//! Key material of both parties and the Monero and hash primitives that the
//! protocol combines them with. Keys are held as their byte encodings.
use vstd::prelude::*;

verus! {

/// Whether 32 bytes are the canonical encoding of a curve25519 scalar.
pub uninterp spec fn canonical_scalar(b: Seq<u8>) -> bool;

/// Whether 32 bytes are the canonical encoding of an ed25519 point.
pub uninterp spec fn canonical_point(b: Seq<u8>) -> bool;

/// The encoding of the sum of two scalars modulo the group order.
pub uninterp spec fn scalar_sum(a: Seq<u8>, b: Seq<u8>) -> Seq<u8>;

/// The encoding of the sum of two ed25519 points.
pub uninterp spec fn point_sum(a: Seq<u8>, b: Seq<u8>) -> Seq<u8>;

/// The encoding of the public key of a scalar (scalar times the base point).
pub uninterp spec fn public_of(s: Seq<u8>) -> Seq<u8>;

/// The bytes of the standard Monero address of a view pair on a network.
pub uninterp spec fn xmr_address_of(network: int, view: Seq<u8>, spend: Seq<u8>) -> Seq<u8>;

/// The SHA-256 digest of a byte string.
pub uninterp spec fn sha256_of(b: Seq<u8>) -> Seq<u8>;

/// A Monero private key: 32 bytes holding a canonical scalar.
pub open spec fn secret_ok(b: Seq<u8>) -> bool {
    b.len() == 32 && canonical_scalar(b)
}

/// A Monero public key: 32 bytes holding a canonical point.
pub open spec fn point_ok(b: Seq<u8>) -> bool {
    b.len() == 32 && canonical_point(b)
}

/// The Monero networks.
#[derive(Clone, Copy, Debug, PartialEq, Eq, Structural)]
pub enum XmrNetwork {
    Mainnet,
    Stagenet,
    Testnet,
}

pub open spec fn network_code(n: XmrNetwork) -> int {
    match n {
        XmrNetwork::Mainnet => 0,
        XmrNetwork::Stagenet => 1,
        XmrNetwork::Testnet => 2,
    }
}

/// A party's public keys without the proof that binds them.
#[derive(Clone, Debug)]
pub struct KeyPublicWithoutProof {
    /// Verification key of the adaptor signatures (secp256k1, compressed).
    pub ves: Vec<u8>,
    /// Public key that receives BCH (secp256k1, compressed).
    pub spend_bch: Vec<u8>,
    /// Monero private view key.
    pub monero_view: Vec<u8>,
    /// Monero public spend key.
    pub monero_spend: Vec<u8>,
}

/// A party's public keys with the cross-curve proof that `spend_bch` and
/// `monero_spend` share their discrete logarithm.
#[derive(Clone, Debug)]
pub struct KeyPublic {
    pub ves: Vec<u8>,
    pub spend_bch: Vec<u8>,
    pub monero_view: Vec<u8>,
    pub monero_spend: Vec<u8>,
    pub proof: Vec<u8>,
}

impl KeyPublic {
    /// The keys without the proof.
    pub fn without_proof(&self) -> (r: KeyPublicWithoutProof)
        ensures
            r.ves@ == self.ves@,
            r.spend_bch@ == self.spend_bch@,
            r.monero_view@ == self.monero_view@,
            r.monero_spend@ == self.monero_spend@,
    {
        KeyPublicWithoutProof {
            ves: self.ves.clone(),
            spend_bch: self.spend_bch.clone(),
            monero_view: self.monero_view.clone(),
            monero_spend: self.monero_spend.clone(),
        }
    }
}

/// This node's own long-term secrets.
#[derive(Clone, Debug)]
pub struct KeyPrivate {
    /// Secret of the adaptor-signature verification key.
    pub ves: Vec<u8>,
    /// Monero private spend key.
    pub monero_spend: Vec<u8>,
    /// Monero private view key.
    pub monero_view: Vec<u8>,
}

/// A Monero view pair: a private view key and a public spend key.
#[derive(Clone, Debug)]
pub struct ViewPair {
    pub view: Vec<u8>,
    pub spend: Vec<u8>,
}

/// A Monero key pair: private view and private spend keys.
#[derive(Clone, Debug)]
pub struct KeyPair {
    pub view: Vec<u8>,
    pub spend: Vec<u8>,
}

/// Relies on monero's `PrivateKey::from_slice` and `+` on private keys.
#[verifier::external_body]
pub(crate) fn add_secrets(a: &Vec<u8>, b: &Vec<u8>) -> (r: Option<Vec<u8>>)
    ensures
        r is Some <==> ((a@.len() == 32 && canonical_scalar(a@)) && (b@.len() == 32 && canonical_scalar(b@))),
        r matches Some(s) ==> s@ == scalar_sum(a@, b@) && (s@.len() == 32 && canonical_scalar(s@)),
{
    match (monero::PrivateKey::from_slice(a), monero::PrivateKey::from_slice(b)) {
        (Ok(x), Ok(y)) => Some((x + y).to_bytes().to_vec()),
        _ => None,
    }
}

/// Relies on monero's `PublicKey::from_slice` and `+` on public keys.
#[verifier::external_body]
pub(crate) fn add_points(a: &Vec<u8>, b: &Vec<u8>) -> (r: Option<Vec<u8>>)
    ensures
        r is Some <==> ((a@.len() == 32 && canonical_point(a@)) && (b@.len() == 32 && canonical_point(b@))),
        r matches Some(p) ==> p@ == point_sum(a@, b@) && (p@.len() == 32 && canonical_point(p@)),
{
    match (monero::PublicKey::from_slice(a), monero::PublicKey::from_slice(b)) {
        (Ok(x), Ok(y)) => Some((x + y).to_bytes().to_vec()),
        _ => None,
    }
}

/// Relies on monero's `PublicKey::from_private_key`.
#[verifier::external_body]
pub(crate) fn public_spend(s: &Vec<u8>) -> (r: Option<Vec<u8>>)
    ensures
        r is Some <==> (s@.len() == 32 && canonical_scalar(s@)),
        r matches Some(p) ==> p@ == public_of(s@) && (p@.len() == 32 && canonical_point(p@)),
{
    match monero::PrivateKey::from_slice(s) {
        Ok(k) => Some(monero::PublicKey::from_private_key(&k).to_bytes().to_vec()),
        Err(_) => None,
    }
}

/// Relies on monero's `Address::from_viewpair` and `Address::as_bytes`.
#[verifier::external_body]
pub(crate) fn address_bytes(network: XmrNetwork, view: &Vec<u8>, spend: &Vec<u8>) -> (r: Option<
    Vec<u8>,
>)
    ensures
        r is Some <==> ((view@.len() == 32 && canonical_scalar(view@)) && (spend@.len() == 32 && canonical_point(spend@))),
        r matches Some(a) ==> a@ == xmr_address_of(network_code(network), view@, spend@),
{
    let net = match network {
        XmrNetwork::Mainnet => monero::Network::Mainnet,
        XmrNetwork::Stagenet => monero::Network::Stagenet,
        XmrNetwork::Testnet => monero::Network::Testnet,
    };
    match (monero::PrivateKey::from_slice(view), monero::PublicKey::from_slice(spend)) {
        (Ok(v), Ok(s)) => Some(
            monero::Address::from_viewpair(net, &monero::ViewPair { view: v, spend: s }).as_bytes(),
        ),
        _ => None,
    }
}

/// Relies on bitcoin_hashes' `sha256::hash`.
#[verifier::external_body]
pub(crate) fn sha256(b: &Vec<u8>) -> (r: Vec<u8>)
    ensures
        r@ == sha256_of(b@),
        r@.len() == 32,
{
    bitcoin_hashes::sha256::hash(b).to_byte_array().to_vec()
}

/// The message that the counterparty's adaptor signature commits to: the
/// double SHA-256 of a receiving script.
pub fn commitment(script: &Vec<u8>) -> (r: Vec<u8>)
    ensures
        r@ == sha256_of(sha256_of(script@)),
{
    let once = sha256(script);
    sha256(&once)
}

/// The jointly owned Monero view pair: the sum of both private view keys and
/// the sum of both public spend keys. `None` when a key is malformed.
pub fn shared_view_pair(own: &KeyPrivate, other: &KeyPublicWithoutProof) -> (r: Option<ViewPair>)
    ensures
        r is Some <==> (secret_ok(own.monero_view@) && secret_ok(other.monero_view@) && secret_ok(
            own.monero_spend@,
        ) && point_ok(other.monero_spend@)),
        r matches Some(vp) ==> {
            &&& vp.view@ == scalar_sum(own.monero_view@, other.monero_view@)
            &&& vp.spend@ == point_sum(public_of(own.monero_spend@), other.monero_spend@)
            &&& secret_ok(vp.view@)
            &&& point_ok(vp.spend@)
        },
{
    let view = match add_secrets(&own.monero_view, &other.monero_view) {
        Some(v) => v,
        None => return None,
    };
    let own_spend = match public_spend(&own.monero_spend) {
        Some(p) => p,
        None => return None,
    };
    match add_points(&own_spend, &other.monero_spend) {
        Some(spend) => Some(ViewPair { view, spend }),
        None => None,
    }
}

/// The standard Monero address of a view pair, as bytes.
pub fn view_pair_address(network: XmrNetwork, vp: &ViewPair) -> (r: Vec<u8>)
    requires
        secret_ok(vp.view@),
        point_ok(vp.spend@),
    ensures
        r@ == xmr_address_of(network_code(network), vp.view@, vp.spend@),
{
    match address_bytes(network, &vp.view, &vp.spend) {
        Some(a) => a,
        None => Vec::new(),
    }
}

} // verus!
