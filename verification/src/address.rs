//! The native address model and its conversion to and from the byte form
//! used by the EVM-compatible runtime.
//!
//! A secp256k1-style address carries its raw 20-byte payload directly; a
//! delegated address (namespace plus variable-length sub-address) is carried
//! as the ABI encoding of the tuple `(namespace, length, raw bytes)`, in that
//! exact order. Every other address kind is unsupported on that side.

use vstd::prelude::*;
use crate::errors::Error;
use crate::numeric::{be_of, be_val, lemma_be_of_len, lemma_be_of_val, lemma_pow256_8, lemma_pow256_le, pow256};

use ethers_core::abi::{decode, encode, ParamType, Token};
use ethers_core::types::U256;

verus! {

pub const PROTOCOL_ID: u8 = 0;

pub const PROTOCOL_SECP256K1: u8 = 1;

pub const PROTOCOL_BLS: u8 = 3;

pub const PROTOCOL_DELEGATED: u8 = 4;

/// The longest sub-address a delegated address may carry.
pub const MAX_SUBADDRESS_LEN: usize = 54;

/// The namespace of the address manager that issues 20-byte delegated
/// addresses for the EVM-compatible runtime.
pub const EAM_NAMESPACE: u64 = 10;

/// A chain-agnostic account address.
#[derive(Debug, Clone, PartialEq, Eq)]
pub enum NativeAddress {
    /// A secp256k1 public-key address: a 20-byte payload hash.
    Secp256k1 { payload: Vec<u8> },
    /// A delegated address: a namespace and an arbitrary sub-address.
    Delegated { namespace: u64, subaddress: Vec<u8> },
    /// An actor-id address.
    Id { id: u64 },
    /// A BLS public-key address.
    Bls { payload: Vec<u8> },
}

/// The ghost shape of an address: payloads as plain byte sequences.
pub enum AddrV {
    Secp256k1 { payload: Seq<u8> },
    Delegated { namespace: nat, subaddress: Seq<u8> },
    Id { id: nat },
    Bls { payload: Seq<u8> },
}

pub open spec fn addr_view(a: NativeAddress) -> AddrV {
    match a {
        NativeAddress::Secp256k1 { payload } => AddrV::Secp256k1 { payload: payload@ },
        NativeAddress::Delegated { namespace, subaddress } => AddrV::Delegated {
            namespace: namespace as nat,
            subaddress: subaddress@,
        },
        NativeAddress::Id { id } => AddrV::Id { id: id as nat },
        NativeAddress::Bls { payload } => AddrV::Bls { payload: payload@ },
    }
}

/// Domain limits of an address: a secp256k1 payload is exactly 20 bytes, a
/// sub-address at most 54, a namespace fits 64 bits.
pub open spec fn addr_v_wf(a: AddrV) -> bool {
    match a {
        AddrV::Secp256k1 { payload } => payload.len() == 20,
        AddrV::Delegated { namespace, subaddress } => namespace <= u64::MAX && subaddress.len()
            <= 54,
        _ => true,
    }
}

impl NativeAddress {
    pub open spec fn wf(&self) -> bool {
        addr_v_wf(addr_view(*self))
    }

    /// The kinds that have a representation on the EVM-compatible side.
    pub open spec fn supported(&self) -> bool {
        *self is Secp256k1 || *self is Delegated
    }

    /// The values the byte form can carry: a supported kind whose
    /// sub-address, if delegated, is within the domain limit.
    pub open spec fn encodable(&self) -> bool {
        &&& self.supported()
        &&& (*self matches NativeAddress::Delegated { subaddress, .. } ==> subaddress@.len()
            <= MAX_SUBADDRESS_LEN)
    }

    pub open spec fn protocol_spec(&self) -> u8 {
        match *self {
            NativeAddress::Id { .. } => 0,
            NativeAddress::Secp256k1 { .. } => 1,
            NativeAddress::Bls { .. } => 3,
            NativeAddress::Delegated { .. } => 4,
        }
    }

    /// The protocol tag of the address.
    pub fn protocol(&self) -> (r: u8)
        ensures
            r == self.protocol_spec(),
    {
        match self {
            NativeAddress::Id { .. } => PROTOCOL_ID,
            NativeAddress::Secp256k1 { .. } => PROTOCOL_SECP256K1,
            NativeAddress::Bls { .. } => PROTOCOL_BLS,
            NativeAddress::Delegated { .. } => PROTOCOL_DELEGATED,
        }
    }
}

/// An address as the EVM-compatible runtime's contracts carry it: a protocol
/// tag and an opaque byte payload.
#[derive(Debug, Clone, PartialEq, Eq)]
pub struct EvmFvmAddress {
    pub addr_type: u8,
    pub payload: Vec<u8>,
}

/// A 32-byte ABI word holding `n` big-endian.
pub open spec fn abi_word(n: nat) -> Seq<u8> {
    be_of(n, 32)
}

/// The zero padding that follows `len` bytes of ABI byte-string data.
pub open spec fn abi_pad(len: nat) -> Seq<u8> {
    if len % 32 == 0 {
        Seq::empty()
    } else {
        Seq::new((32 - len % 32) as nat, |i: int| 0u8)
    }
}

/// The ABI encoding of the tuple `(namespace, length, raw sub-address)`: the
/// head offset word, the two integer words, the offset of the byte string,
/// then its length word and its zero-padded data.
pub open spec fn abi_delegated_payload(ns: nat, sub: Seq<u8>) -> Seq<u8> {
    abi_word(32) + abi_word(ns) + abi_word(sub.len()) + abi_word(96) + abi_word(sub.len()) + sub
        + abi_pad(sub.len())
}

/// Relies on `ethers_core::abi::encode` with a `(uint, uint, bytes)` tuple
/// token: the canonical ABI form is the offset word of the tuple, the two
/// integer words, the byte-string offset word, and the length-prefixed,
/// zero-padded sub-address bytes. The encoder writes the length prefix as a
/// 32-bit value, so the bound keeps the call inside the range on which that
/// prefix equals the length word of the canonical form.
#[verifier::external_body]
fn abi_encode_delegated(namespace: u64, subaddress: &Vec<u8>) -> (r: Vec<u8>)
    requires
        subaddress@.len() <= MAX_SUBADDRESS_LEN,
    ensures
        r@ == abi_delegated_payload(namespace as nat, subaddress@),
{
    encode(
        &[
            Token::Tuple(vec![
                Token::Uint(U256::from(namespace)),
                Token::Uint(U256::from(subaddress.len())),
                Token::Bytes(subaddress.clone()),
            ]),
        ],
    )
}

/// Decoding recovers every canonically encoded triple with a sub-address in
/// the delegated domain exactly.
pub open spec fn abi_decode_recovers(payload: Seq<u8>, r: Option<(u64, u64, Vec<u8>)>) -> bool {
    forall|ns: nat, sub: Seq<u8>|
        ns <= u64::MAX && sub.len() <= MAX_SUBADDRESS_LEN && payload == abi_delegated_payload(
            ns,
            sub,
        ) ==> (r matches Some(t) && t.0 == ns && t.1 == sub.len() && t.2@ == sub)
}

/// Relies on `ethers_core::abi::decode` with the same `(uint, uint, bytes)`
/// tuple type: decoding the canonical encoding of a triple yields exactly
/// that triple; any other input may yield some triple or fail.
#[verifier::external_body]
fn abi_decode_delegated(payload: &Vec<u8>) -> (r: Option<(u64, u64, Vec<u8>)>)
    ensures
        abi_decode_recovers(payload@, r),
{
    let params = [ParamType::Tuple(vec![ParamType::Uint(32), ParamType::Uint(32), ParamType::Bytes])];
    let mut tokens = decode(&params, payload.as_slice()).ok()?;
    let mut parts = match tokens.pop() { Some(Token::Tuple(p)) => p, _ => return None };
    let sub = match parts.pop() { Some(Token::Bytes(b)) => b, _ => return None };
    let len = match parts.pop() { Some(Token::Uint(u)) => u64::try_from(u).ok()?, _ => return None };
    let ns = match parts.pop() { Some(Token::Uint(u)) => u64::try_from(u).ok()?, _ => return None };
    Some((ns, len, sub))
}

/// Converts a native address into the byte payload that stands for it in the
/// EVM-compatible runtime's contracts: the raw payload for secp256k1, the
/// ABI tuple encoding for delegated, an unsupported-protocol error otherwise.
pub fn addr_payload_to_bytes(addr: &NativeAddress) -> (r: Result<Vec<u8>, Error>)
    ensures
        addr matches NativeAddress::Secp256k1 { payload } ==> r matches Ok(b) && b@ == payload@,
        addr matches NativeAddress::Delegated { namespace, subaddress } ==> (subaddress@.len()
            <= MAX_SUBADDRESS_LEN ==> (r matches Ok(b) && b@ == abi_delegated_payload(
            namespace as nat,
            subaddress@,
        ))),
        r is Ok <==> addr.encodable(),
        !addr.supported() ==> (r matches Err(Error::UnsupportedProtocol { protocol }) && protocol
            == addr.protocol_spec()),
        addr.supported() && !addr.encodable() ==> r matches Err(Error::InvalidPayload),
{
    match addr {
        NativeAddress::Secp256k1 { payload } => Ok(vstd::slice::slice_to_vec(payload.as_slice())),
        NativeAddress::Delegated { namespace, subaddress } => {
            if subaddress.len() > MAX_SUBADDRESS_LEN {
                return Err(Error::InvalidPayload);
            }
            Ok(abi_encode_delegated(*namespace, subaddress))
        },
        _ => Err(Error::UnsupportedProtocol { protocol: addr.protocol() }),
    }
}

/// The relation between a native address and its EVM-side protocol tag and
/// payload bytes; it holds exactly of the pairs the forward conversion
/// produces.
pub open spec fn evm_addr_rel(a: AddrV, addr_type: u8, payload: Seq<u8>) -> bool {
    match a {
        AddrV::Secp256k1 { payload: p } => addr_type == 1 && payload == p,
        AddrV::Delegated { namespace, subaddress } => addr_type == 4 && payload
            == abi_delegated_payload(namespace, subaddress),
        _ => false,
    }
}

/// Converts a native address into its EVM-side form: the protocol tag beside
/// the payload bytes of `addr_payload_to_bytes`.
pub fn fvm_address_to_evm(addr: &NativeAddress) -> (r: Result<EvmFvmAddress, Error>)
    ensures
        r matches Ok(e) ==> evm_addr_rel(addr_view(*addr), e.addr_type, e.payload@),
        r is Ok <==> addr.encodable(),
        !addr.supported() ==> (r matches Err(Error::UnsupportedProtocol { protocol }) && protocol
            == addr.protocol_spec()),
        addr.supported() && !addr.encodable() ==> r matches Err(Error::InvalidPayload),
{
    let addr_type = addr.protocol();
    let payload = addr_payload_to_bytes(addr)?;
    Ok(EvmFvmAddress { addr_type, payload })
}

/// Rebuilds a native address from an EVM-side protocol tag and payload: a
/// 20-byte payload for secp256k1, the decoded ABI triple (whose length field
/// must match its raw bytes) for delegated, an unsupported-protocol error
/// for every other tag.
pub fn bytes_to_fvm_addr(protocol: u8, bytes: &Vec<u8>) -> (r: Result<NativeAddress, Error>)
    ensures
        forall|av: AddrV|
            addr_v_wf(av) && evm_addr_rel(av, protocol, bytes@) ==> (r matches Ok(a) && addr_view(
                a,
            ) == av),
        protocol == 1 ==> (r is Ok <==> bytes@.len() == 20),
        protocol == 1 && bytes@.len() != 20 ==> r matches Err(Error::InvalidPayload),
        protocol != 1 && protocol != 4 ==> (r matches Err(
            Error::UnsupportedProtocol { protocol: p },
        ) && p == protocol),
        r matches Ok(a) ==> a.wf() && a.supported() && a.protocol_spec() == protocol,
{
    if protocol == PROTOCOL_SECP256K1 {
        if bytes.len() == 20 {
            Ok(NativeAddress::Secp256k1 { payload: vstd::slice::slice_to_vec(bytes.as_slice()) })
        } else {
            Err(Error::InvalidPayload)
        }
    } else if protocol == PROTOCOL_DELEGATED {
        match abi_decode_delegated(bytes) {
            Some((namespace, len, subaddress)) => {
                if (subaddress.len() as u64) != len {
                    return Err(Error::InvalidPayload);
                }
                if subaddress.len() > MAX_SUBADDRESS_LEN {
                    return Err(Error::InvalidPayload);
                }
                Ok(NativeAddress::Delegated { namespace, subaddress })
            },
            None => Err(Error::InvalidPayload),
        }
    } else {
        Err(Error::UnsupportedProtocol { protocol })
    }
}

/// Rebuilds a native address from its EVM-side form.
pub fn fvm_address_from_evm(e: &EvmFvmAddress) -> (r: Result<NativeAddress, Error>)
    ensures
        forall|av: AddrV|
            addr_v_wf(av) && evm_addr_rel(av, e.addr_type, e.payload@) ==> (r matches Ok(a)
                && addr_view(a) == av),
        r matches Ok(a) ==> a.wf() && a.supported(),
{
    bytes_to_fvm_addr(e.addr_type, &e.payload)
}


/// The positions of the pieces inside the ABI tuple encoding.
proof fn lemma_abi_payload_parts(ns: nat, sub: Seq<u8>)
    ensures
        abi_delegated_payload(ns, sub).subrange(32, 64) == abi_word(ns),
        abi_delegated_payload(ns, sub).subrange(64, 96) == abi_word(sub.len()),
        forall|k: int|
            0 <= k < sub.len() ==> #[trigger] abi_delegated_payload(ns, sub)[160 + k] == sub[k],
{
    lemma_be_of_len(32, 32);
    lemma_be_of_len(ns, 32);
    lemma_be_of_len(sub.len(), 32);
    lemma_be_of_len(96, 32);
    let e = abi_delegated_payload(ns, sub);
    let head = abi_word(32) + abi_word(ns) + abi_word(sub.len()) + abi_word(96) + abi_word(
        sub.len(),
    );
    assert(head.len() == 160);
    assert forall|i: int| 0 <= i < 32 implies e.subrange(32, 64)[i] == abi_word(ns)[i] by {
        assert(e[32 + i] == head[32 + i]);
        assert(head[32 + i] == abi_word(ns)[i]);
    }
    assert(e.subrange(32, 64) =~= abi_word(ns));
    assert forall|i: int| 0 <= i < 32 implies e.subrange(64, 96)[i] == abi_word(sub.len())[i] by {
        assert(e[64 + i] == head[64 + i]);
        assert(head[64 + i] == abi_word(sub.len())[i]);
    }
    assert(e.subrange(64, 96) =~= abi_word(sub.len()));
    assert forall|k: int| 0 <= k < sub.len() implies #[trigger] e[160 + k] == sub[k] by {
        assert((head + sub)[160 + k] == sub[k]);
        assert(e[160 + k] == (head + sub)[160 + k]);
    }
}

/// The ABI tuple encoding is injective: one byte payload stands for one
/// namespace and sub-address pair.
pub proof fn lemma_abi_delegated_payload_injective(
    ns1: nat,
    sub1: Seq<u8>,
    ns2: nat,
    sub2: Seq<u8>,
)
    requires
        ns1 <= u64::MAX,
        ns2 <= u64::MAX,
        sub1.len() <= u64::MAX,
        sub2.len() <= u64::MAX,
        abi_delegated_payload(ns1, sub1) == abi_delegated_payload(ns2, sub2),
    ensures
        ns1 == ns2,
        sub1 == sub2,
{
    lemma_abi_payload_parts(ns1, sub1);
    lemma_abi_payload_parts(ns2, sub2);
    lemma_pow256_8();
    lemma_pow256_le(8, 32);
    let e = abi_delegated_payload(ns1, sub1);
    assert(abi_word(ns1) == e.subrange(32, 64) && abi_word(ns2) == e.subrange(32, 64));
    lemma_be_of_val(ns1, 32);
    lemma_be_of_val(ns2, 32);
    assert(ns1 == be_val(abi_word(ns1)) && ns2 == be_val(abi_word(ns2)));
    assert(abi_word(sub1.len()) == e.subrange(64, 96) && abi_word(sub2.len()) == e.subrange(
        64,
        96,
    ));
    lemma_be_of_val(sub1.len(), 32);
    lemma_be_of_val(sub2.len(), 32);
    assert(sub1.len() == sub2.len());
    assert forall|k: int| 0 <= k < sub1.len() implies sub1[k] == sub2[k] by {
        assert(e[160 + k] == sub1[k]);
        assert(abi_delegated_payload(ns2, sub2)[160 + k] == sub2[k]);
    }
    assert(sub1 =~= sub2);
}

/// Address round-trip law: for one EVM-side form there is exactly one
/// well-formed native address, so converting an address out and back can
/// only return the address itself.
pub proof fn lemma_address_round_trip(av1: AddrV, av2: AddrV, addr_type: u8, payload: Seq<u8>)
    requires
        addr_v_wf(av1),
        addr_v_wf(av2),
        evm_addr_rel(av1, addr_type, payload),
        evm_addr_rel(av2, addr_type, payload),
    ensures
        av1 == av2,
{
    match (av1, av2) {
        (
            AddrV::Delegated { namespace: ns1, subaddress: sub1 },
            AddrV::Delegated { namespace: ns2, subaddress: sub2 },
        ) => {
            lemma_abi_delegated_payload_injective(ns1, sub1, ns2, sub2);
        },
        _ => {},
    }
}

} // verus!
