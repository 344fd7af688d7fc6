//! The checkpoint as the EVM-compatible runtime's contracts carry it, and
//! the fallible conversions between it and the native model.
//!
//! Hashes are fixed 32-byte slots, amounts are 256-bit integers, method
//! identifiers are 4-byte big-endian tags holding the low 32 bits of the
//! native method number (a documented, intentional truncation).

use vstd::prelude::*;
use crate::address::{
    addr_v_wf, addr_view, evm_addr_rel, fvm_address_from_evm, fvm_address_to_evm, AddrV,
    EvmFvmAddress,
};
use crate::amount::{eth_to_fil_amount, fil_to_eth_amount};
use crate::checkpoint::{
    checkpoint_view, child_check_view, cross_msg_view, hash_to_slot32, ipc_addr_view, msg_view,
    pad32, zero32, zero_slot32, BatchCrossMsgs, BatchV, CheckpointV, ChildCheckV, CrossMsg,
    CrossMsgV, IPCAddress, IpcAddrV, MsgV, NativeBottomUpCheckpoint, NativeChildCheck,
    StorableMsg,
};
use crate::errors::Error;
use crate::numeric::{
    all_dec_digits, be_of, be_val, canonical_dec, dec_of, dec_value, lemma_be_of_val,
    lemma_dec_value_of, pow256,
};
use crate::subnet::{
    eth20_of_addr, evm_subnet_view, subnet_from_evm, subnet_of_evm, subnet_to_evm,
    subnet_to_evm_rel, subnet_view, EvmSubnetID, EvmSubnetIdV, SubnetID, SubnetIdV,
    lemma_subnet_round_trip,
};

verus! {

/// A subnet-scoped address in EVM-side form.
#[derive(Debug, Clone, PartialEq, Eq)]
pub struct Ipcaddress {
    pub subnet_id: EvmSubnetID,
    pub raw_address: EvmFvmAddress,
}

pub struct EvmIpcAddrV {
    pub subnet: EvmSubnetIdV,
    pub addr_type: u8,
    pub payload: Seq<u8>,
}

pub open spec fn evm_ipc_addr_view(a: Ipcaddress) -> EvmIpcAddrV {
    EvmIpcAddrV {
        subnet: evm_subnet_view(a.subnet_id),
        addr_type: a.raw_address.addr_type,
        payload: a.raw_address.payload@,
    }
}

/// A cross-subnet message in EVM-side form: the value is a 256-bit integer,
/// the method a 4-byte big-endian tag.
#[derive(Debug, Clone, PartialEq, Eq)]
pub struct EvmStorableMsg {
    pub from: Ipcaddress,
    pub to: Ipcaddress,
    pub value: Vec<u8>,
    pub nonce: u64,
    pub method: Vec<u8>,
    pub params: Vec<u8>,
}

pub struct EvmMsgV {
    pub from: EvmIpcAddrV,
    pub to: EvmIpcAddrV,
    pub value: Seq<u8>,
    pub nonce: nat,
    pub method: Seq<u8>,
    pub params: Seq<u8>,
}

pub open spec fn evm_msg_view(m: EvmStorableMsg) -> EvmMsgV {
    EvmMsgV {
        from: evm_ipc_addr_view(m.from),
        to: evm_ipc_addr_view(m.to),
        value: m.value@,
        nonce: m.nonce as nat,
        method: m.method@,
        params: m.params@,
    }
}

#[derive(Debug, Clone, PartialEq, Eq)]
pub struct EvmCrossMsg {
    pub wrapped: bool,
    pub message: EvmStorableMsg,
}

pub struct EvmCrossMsgV {
    pub wrapped: bool,
    pub message: EvmMsgV,
}

pub open spec fn evm_cross_msg_view(c: EvmCrossMsg) -> EvmCrossMsgV {
    EvmCrossMsgV { wrapped: c.wrapped, message: evm_msg_view(c.message) }
}

/// A child-check in EVM-side form: each check hash a 32-byte slot.
#[derive(Debug, Clone, PartialEq, Eq)]
pub struct EvmChildCheck {
    pub source: EvmSubnetID,
    pub checks: Vec<Vec<u8>>,
}

pub struct EvmChildCheckV {
    pub source: EvmSubnetIdV,
    pub checks: Seq<Seq<u8>>,
}

pub open spec fn evm_child_check_view(c: EvmChildCheck) -> EvmChildCheckV {
    EvmChildCheckV {
        source: evm_subnet_view(c.source),
        checks: c.checks@.map(|i: int, h: Vec<u8>| h@),
    }
}

/// The bottom-up checkpoint in EVM-side form.
#[derive(Debug, Clone, PartialEq, Eq)]
pub struct EvmBottomUpCheckpoint {
    pub source: EvmSubnetID,
    pub epoch: u64,
    pub fee: Vec<u8>,
    pub cross_msgs: Vec<EvmCrossMsg>,
    pub children: Vec<EvmChildCheck>,
    pub prev_hash: Vec<u8>,
    pub proof_data: Vec<u8>,
}

pub struct EvmCheckpointV {
    pub source: EvmSubnetIdV,
    pub epoch: nat,
    pub fee: Seq<u8>,
    pub cross_msgs: Seq<EvmCrossMsgV>,
    pub children: Seq<EvmChildCheckV>,
    pub prev_hash: Seq<u8>,
    pub proof_data: Seq<u8>,
}

pub open spec fn evm_checkpoint_view(c: EvmBottomUpCheckpoint) -> EvmCheckpointV {
    EvmCheckpointV {
        source: evm_subnet_view(c.source),
        epoch: c.epoch as nat,
        fee: c.fee@,
        cross_msgs: c.cross_msgs@.map(|i: int, m: EvmCrossMsg| evm_cross_msg_view(m)),
        children: c.children@.map(|i: int, cc: EvmChildCheck| evm_child_check_view(cc)),
        prev_hash: c.prev_hash@,
        proof_data: c.proof_data@,
    }
}

/// The 4-byte big-endian tag of a native method number: its low 32 bits.
pub fn method_to_bytes(method: u64) -> (r: Vec<u8>)
    ensures
        r@ == be_of((method as u32) as nat, 4),
        r@.len() == 4,
{
    let m: u32 = #[verifier::truncate] (method as u32);
    let b0: u8 = (m / 16777216) as u8;
    let b1: u8 = ((m / 65536) % 256) as u8;
    let b2: u8 = ((m / 256) % 256) as u8;
    let b3: u8 = (m % 256) as u8;
    let mut r: Vec<u8> = Vec::new();
    r.push(b0);
    r.push(b1);
    r.push(b2);
    r.push(b3);
    proof {
        let n = m as nat;
        vstd::arithmetic::div_mod::lemma_div_denominator(n as int, 256, 256);
        vstd::arithmetic::div_mod::lemma_div_denominator(n as int, 65536, 256);
        assert(n / 65536 == (n / 256) / 256 && n / 16777216 == (n / 65536) / 256);
        let s = be_of(n, 4);
        assert(s == be_of(n / 256, 3).push((n % 256) as u8));
        assert(be_of(n / 256, 3) == be_of(n / 65536, 2).push(((n / 256) % 256) as u8));
        assert(be_of(n / 65536, 2) == be_of(n / 16777216, 1).push(((n / 65536) % 256) as u8));
        assert(be_of(n / 16777216, 1) == be_of(n / 4294967296, 0).push(
            ((n / 16777216) % 256) as u8,
        )) by {
            vstd::arithmetic::div_mod::lemma_div_denominator(n as int, 16777216, 256);
        }
        assert(n / 16777216 < 256);
        assert((n / 16777216) % 256 == n / 16777216);
        assert(r@ =~= s);
    }
    r
}

/// The native method number a 4-byte big-endian tag denotes.
pub fn method_from_bytes(tag: &Vec<u8>) -> (r: u64)
    requires
        tag@.len() == 4,
    ensures
        r == be_val(tag@),
        r <= u32::MAX,
{
    let b0 = tag[0];
    let b1 = tag[1];
    let b2 = tag[2];
    let b3 = tag[3];
    let r: u64 = (b0 as u64) * 16777216 + (b1 as u64) * 65536 + (b2 as u64) * 256 + (b3 as u64);
    proof {
        let s = tag@;
        let s3 = s.drop_last();
        let s2 = s3.drop_last();
        let s1 = s2.drop_last();
        assert(s1.drop_last().len() == 0);
        assert(be_val(s1.drop_last()) == 0);
        assert(s3.len() == 3 && s2.len() == 2 && s1.len() == 1);
        assert(s1.last() == s[0] && s2.last() == s[1] && s3.last() == s[2] && s.last() == s[3]);
        assert(be_val(s1) == (s[0] as nat));
        assert(be_val(s2) == be_val(s1) * 256 + (s[1] as nat));
        assert(be_val(s3) == be_val(s2) * 256 + (s[2] as nat));
        assert(be_val(s) == be_val(s3) * 256 + (s[3] as nat));
    }
    r
}


/// The relation between a native subnet-scoped address and the EVM form the
/// forward conversion produces for it.
pub open spec fn ipc_addr_to_evm_rel(a: IpcAddrV, e: EvmIpcAddrV) -> bool {
    &&& subnet_to_evm_rel(a.subnet, e.subnet)
    &&& evm_addr_rel(a.raw, e.addr_type, e.payload)
}

/// The relation between a native cross-message and its EVM form.
pub open spec fn msg_to_evm_rel(m: MsgV, e: EvmMsgV) -> bool {
    &&& ipc_addr_to_evm_rel(m.from, e.from)
    &&& ipc_addr_to_evm_rel(m.to, e.to)
    &&& e.value == be_of(dec_value(m.value), 32)
    &&& e.nonce == m.nonce
    &&& e.method == be_of(m.method % 0x100000000, 4)
    &&& e.params == m.params
}

pub open spec fn cross_to_evm_rel(c: CrossMsgV, e: EvmCrossMsgV) -> bool {
    &&& e.wrapped == c.wrapped
    &&& msg_to_evm_rel(c.msg, e.message)
}

/// The relation between a native child-check and its EVM form: each check
/// hash lands in a 32-byte slot, truncated or zero-padded.
pub open spec fn child_to_evm_rel(c: ChildCheckV, e: EvmChildCheckV) -> bool {
    &&& subnet_to_evm_rel(c.source, e.source)
    &&& e.checks.len() == c.checks.len()
    &&& forall|i: int| 0 <= i < c.checks.len() ==> e.checks[i] == pad32(#[trigger] c.checks[i])
}

/// The message list a batch denotes: an absent list is the empty list.
pub open spec fn batch_msgs(b: BatchV) -> Seq<CrossMsgV> {
    match b.cross_msgs {
        Some(s) => s,
        None => Seq::empty(),
    }
}

/// The relation between a native checkpoint and its EVM form. The absent
/// proof converts to empty bytes and the absent previous-hash to the
/// all-zero slot, only because the template leaves them unset by design.
pub open spec fn ckpt_to_evm_rel(c: CheckpointV, e: EvmCheckpointV) -> bool {
    &&& subnet_to_evm_rel(c.source, e.source)
    &&& e.epoch == c.epoch
    &&& e.fee == be_of(dec_value(c.cross_msgs.fee), 32)
    &&& e.cross_msgs.len() == batch_msgs(c.cross_msgs).len()
    &&& forall|i: int|
        0 <= i < e.cross_msgs.len() ==> cross_to_evm_rel(
            batch_msgs(c.cross_msgs)[i],
            #[trigger] e.cross_msgs[i],
        )
    &&& e.children.len() == c.children.len()
    &&& forall|i: int|
        0 <= i < c.children.len() ==> child_to_evm_rel(c.children[i], #[trigger] e.children[i])
    &&& e.prev_hash == (match c.prev_check {
        Some(h) => h,
        None => zero32(),
    })
    &&& e.proof_data == (match c.proof_data {
        Some(p) => p,
        None => Seq::<u8>::empty(),
    })
}

/// Every hop of the subnet route has an EVM form.
pub open spec fn subnet_routable(s: SubnetIdV) -> bool {
    forall|i: int| 0 <= i < s.children.len() ==> eth20_of_addr(#[trigger] s.children[i]) is Some
}

/// The numeral is well formed and its value fits 256 bits.
pub open spec fn amount_in_range(digits: Seq<u8>) -> bool {
    all_dec_digits(digits) && dec_value(digits) < pow256(32)
}

pub open spec fn ipc_addr_in_evm_domain(a: IpcAddrV) -> bool {
    &&& subnet_routable(a.subnet)
    &&& addr_v_encodable(a.raw)
}

/// The address values the EVM byte form can carry, on the ghost shape.
pub open spec fn addr_v_encodable(a: AddrV) -> bool {
    match a {
        AddrV::Secp256k1 { .. } => true,
        AddrV::Delegated { subaddress, .. } => subaddress.len()
            <= crate::address::MAX_SUBADDRESS_LEN,
        _ => false,
    }
}

pub open spec fn msg_in_evm_domain(m: MsgV) -> bool {
    &&& ipc_addr_in_evm_domain(m.from)
    &&& ipc_addr_in_evm_domain(m.to)
    &&& amount_in_range(m.value)
}

/// The documented domain on which a native checkpoint has an EVM form.
pub open spec fn ckpt_in_evm_domain(c: CheckpointV) -> bool {
    &&& subnet_routable(c.source)
    &&& 0 <= c.epoch <= u64::MAX
    &&& amount_in_range(c.cross_msgs.fee)
    &&& forall|i: int|
        0 <= i < batch_msgs(c.cross_msgs).len() ==> msg_in_evm_domain(
            (#[trigger] batch_msgs(c.cross_msgs)[i]).msg,
        )
    &&& forall|i: int|
        0 <= i < c.children.len() ==> subnet_routable(#[trigger] c.children[i].source)
    &&& (c.prev_check matches Some(h) ==> h.len() == 32)
}

/// Converts a subnet-scoped address into its EVM form; succeeds exactly when
/// the subnet route is representable and the address kind is supported.
pub fn ipc_address_to_evm(a: &IPCAddress) -> (r: Result<Ipcaddress, Error>)
    ensures
        r is Ok <==> ipc_addr_in_evm_domain(ipc_addr_view(*a)),
        r matches Ok(e) ==> ipc_addr_to_evm_rel(ipc_addr_view(*a), evm_ipc_addr_view(e))
            && e.subnet_id.wf(),
{
    let subnet_id = subnet_to_evm(&a.subnet_id)?;
    let raw_address = fvm_address_to_evm(&a.raw_address)?;
    Ok(Ipcaddress { subnet_id, raw_address })
}

/// Converts a native cross-message into its EVM form; succeeds exactly when
/// both addresses are representable and the value fits 256 bits. The method
/// tag keeps only the low 32 bits of the native method number.
pub fn storable_msg_to_evm(m: &StorableMsg) -> (r: Result<EvmStorableMsg, Error>)
    ensures
        r is Ok <==> msg_in_evm_domain(msg_view(*m)),
        r matches Ok(e) ==> msg_to_evm_rel(msg_view(*m), evm_msg_view(e)),
{
    let from = ipc_address_to_evm(&m.from)?;
    let to = ipc_address_to_evm(&m.to)?;
    let value = fil_to_eth_amount(&m.value)?;
    let method = method_to_bytes(m.method);
    let params = vstd::slice::slice_to_vec(m.params.as_slice());
    proof {
        let meth: u64 = m.method;
        assert(((meth as u32) as u64) == meth % 0x100000000) by (bit_vector);
        assert(((meth as u32) as nat) == (meth as nat) % 0x100000000);
    }
    Ok(EvmStorableMsg { from, to, value, nonce: m.nonce, method, params })
}

pub fn cross_msg_to_evm(c: &CrossMsg) -> (r: Result<EvmCrossMsg, Error>)
    ensures
        r is Ok <==> msg_in_evm_domain(msg_view(c.msg)),
        r matches Ok(e) ==> cross_to_evm_rel(cross_msg_view(*c), evm_cross_msg_view(e)),
{
    let message = storable_msg_to_evm(&c.msg)?;
    Ok(EvmCrossMsg { wrapped: c.wrapped, message })
}

/// Converts a native child-check into its EVM form; each check hash lands in
/// a 32-byte slot, truncated if longer and zero-padded if shorter.
pub fn child_check_to_evm(c: &NativeChildCheck) -> (r: Result<EvmChildCheck, Error>)
    ensures
        r is Ok <==> subnet_routable(subnet_view(c.source)),
        r matches Ok(e) ==> child_to_evm_rel(child_check_view(*c), evm_child_check_view(e)),
{
    let source = subnet_to_evm(&c.source)?;
    let mut checks: Vec<Vec<u8>> = Vec::new();
    let n = c.checks.len();
    let mut i: usize = 0;
    while i < n
        invariant
            n == c.checks@.len(),
            i <= n,
            checks@.len() == i,
            forall|j: int|
                0 <= j < i ==> (#[trigger] checks@[j])@ == pad32(c.checks@[j]@),
        decreases n - i,
    {
        let slot = hash_to_slot32(&c.checks[i]);
        checks.push(slot);
        i += 1;
    }
    let e = EvmChildCheck { source, checks };
    proof {
        let cv = child_check_view(*c);
        let ev = evm_child_check_view(e);
        assert forall|j: int| 0 <= j < cv.checks.len() implies ev.checks[j] == pad32(
            cv.checks[j],
        ) by {
            assert(ev.checks[j] == checks@[j]@);
            assert(cv.checks[j] == c.checks@[j]@);
        }
    }
    Ok(e)
}


/// View-level well-formedness of an EVM subnet identity: 20-byte hops.
pub open spec fn evm_subnet_v_wf(s: EvmSubnetIdV) -> bool {
    forall|i: int| 0 <= i < s.route.len() ==> (#[trigger] s.route[i]).len() == 20
}

pub open spec fn evm_ipc_addr_wf(a: EvmIpcAddrV) -> bool {
    evm_subnet_v_wf(a.subnet)
}

/// Well-formedness of an EVM message: fixed widths for value and method.
pub open spec fn evm_msg_wf(m: EvmMsgV) -> bool {
    &&& evm_ipc_addr_wf(m.from)
    &&& evm_ipc_addr_wf(m.to)
    &&& m.value.len() == 32
    &&& m.method.len() == 4
}

/// Well-formedness of an EVM checkpoint: fixed widths and 20-byte hops.
pub open spec fn evm_ckpt_wf(e: EvmCheckpointV) -> bool {
    &&& evm_subnet_v_wf(e.source)
    &&& e.fee.len() == 32
    &&& e.prev_hash.len() == 32
    &&& forall|i: int| 0 <= i < e.cross_msgs.len() ==> evm_msg_wf((#[trigger] e.cross_msgs[i]).message)
    &&& forall|i: int| 0 <= i < e.children.len() ==> evm_subnet_v_wf((#[trigger] e.children[i]).source)
}

/// The payload has a well-formed native pre-image under the forward
/// conversion.
pub open spec fn evm_addr_decodable(addr_type: u8, payload: Seq<u8>) -> bool {
    exists|av: AddrV| addr_v_wf(av) && evm_addr_rel(av, addr_type, payload)
}

pub open spec fn evm_msg_decodable(m: EvmMsgV) -> bool {
    &&& evm_addr_decodable(m.from.addr_type, m.from.payload)
    &&& evm_addr_decodable(m.to.addr_type, m.to.payload)
}

pub open spec fn evm_ckpt_decodable(e: EvmCheckpointV) -> bool {
    forall|i: int| 0 <= i < e.cross_msgs.len() ==> evm_msg_decodable((#[trigger] e.cross_msgs[i]).message)
}

/// What the backward conversion returns for a subnet-scoped address: the
/// subnet is rebuilt hop by hop, and whenever the payload is the canonical
/// image of a well-formed native address, exactly that address comes back.
pub open spec fn ipc_addr_from_evm_rel(e: EvmIpcAddrV, a: IpcAddrV) -> bool {
    &&& a.subnet == subnet_of_evm(e.subnet)
    &&& forall|av: AddrV| addr_v_wf(av) && evm_addr_rel(av, e.addr_type, e.payload) ==> a.raw == av
}

pub open spec fn msg_from_evm_rel(e: EvmMsgV, m: MsgV) -> bool {
    &&& ipc_addr_from_evm_rel(e.from, m.from)
    &&& ipc_addr_from_evm_rel(e.to, m.to)
    &&& m.method == be_val(e.method)
    &&& m.params == e.params
    &&& m.value == dec_of(be_val(e.value))
    &&& m.nonce == e.nonce
}

/// What the backward conversion returns for a checkpoint: every field
/// rebuilt, the proof and previous-hash present as the runtime carried them,
/// the signature empty.
pub open spec fn ckpt_from_evm_rel(e: EvmCheckpointV, c: CheckpointV) -> bool {
    &&& c.source == subnet_of_evm(e.source)
    &&& c.epoch == e.epoch
    &&& c.proof_data == Some(e.proof_data)
    &&& c.prev_check == Some(e.prev_hash)
    &&& c.sig == Seq::<u8>::empty()
    &&& c.cross_msgs.fee == dec_of(be_val(e.fee))
    &&& (c.cross_msgs.cross_msgs matches Some(s) && s.len() == e.cross_msgs.len() && (forall|
        i: int,
    |
        0 <= i < e.cross_msgs.len() ==> ((#[trigger] s[i]).wrapped == e.cross_msgs[i].wrapped
            && msg_from_evm_rel(e.cross_msgs[i].message, s[i].msg))))
    &&& c.children.len() == e.children.len()
    &&& forall|i: int|
        0 <= i < e.children.len() ==> ((#[trigger] c.children[i]).source == subnet_of_evm(
            e.children[i].source,
        ) && c.children[i].checks == e.children[i].checks)
}

/// Rebuilds a native subnet-scoped address from its EVM form.
pub fn ipc_address_from_evm(a: &Ipcaddress) -> (r: Result<IPCAddress, Error>)
    requires
        a.subnet_id.wf(),
    ensures
        evm_addr_decodable(a.raw_address.addr_type, a.raw_address.payload@) ==> r is Ok,
        r matches Ok(n) ==> ipc_addr_from_evm_rel(evm_ipc_addr_view(*a), ipc_addr_view(n)),
        r matches Ok(n) ==> n.raw_address.wf() && n.subnet_id.wf(),
{
    let subnet_id = match subnet_from_evm(&a.subnet_id) {
        Ok(s) => s,
        Err(err) => {
            return Err(err);
        },
    };
    let raw_address = match fvm_address_from_evm(&a.raw_address) {
        Ok(x) => x,
        Err(err) => {
            proof {
                if evm_addr_decodable(a.raw_address.addr_type, a.raw_address.payload@) {
                    let av = choose|av: AddrV|
                        addr_v_wf(av) && evm_addr_rel(
                            av,
                            a.raw_address.addr_type,
                            a.raw_address.payload@,
                        );
                    assert(addr_v_wf(av) && evm_addr_rel(
                        av,
                        a.raw_address.addr_type,
                        a.raw_address.payload@,
                    ));
                    assert(false);
                }
            }
            return Err(err);
        },
    };
    Ok(IPCAddress { subnet_id, raw_address })
}

/// Rebuilds a native cross-message from its EVM form. The method number is
/// the 32-bit value of the tag; the documented truncation is not undone.
pub fn storable_msg_from_evm(m: &EvmStorableMsg) -> (r: Result<StorableMsg, Error>)
    requires
        evm_msg_wf(evm_msg_view(*m)),
    ensures
        evm_msg_decodable(evm_msg_view(*m)) ==> r is Ok,
        r matches Ok(n) ==> msg_from_evm_rel(evm_msg_view(*m), msg_view(n)),
{
    proof {
        assert(m.from.subnet_id.wf());
        assert(m.to.subnet_id.wf());
    }
    let from = match ipc_address_from_evm(&m.from) {
        Ok(x) => x,
        Err(err) => {
            return Err(err);
        },
    };
    let to = match ipc_address_from_evm(&m.to) {
        Ok(x) => x,
        Err(err) => {
            return Err(err);
        },
    };
    let value = match eth_to_fil_amount(&m.value) {
        Ok(v) => v,
        Err(err) => {
            return Err(err);
        },
    };
    let method = method_from_bytes(&m.method);
    let params = vstd::slice::slice_to_vec(m.params.as_slice());
    Ok(StorableMsg { from, to, method, params, value, nonce: m.nonce })
}

pub fn cross_msg_from_evm(c: &EvmCrossMsg) -> (r: Result<CrossMsg, Error>)
    requires
        evm_msg_wf(evm_msg_view(c.message)),
    ensures
        evm_msg_decodable(evm_msg_view(c.message)) ==> r is Ok,
        r matches Ok(n) ==> n.wrapped == c.wrapped && msg_from_evm_rel(
            evm_msg_view(c.message),
            msg_view(n.msg),
        ),
{
    let msg = match storable_msg_from_evm(&c.message) {
        Ok(x) => x,
        Err(err) => {
            return Err(err);
        },
    };
    Ok(CrossMsg { msg, wrapped: c.wrapped })
}

/// Rebuilds a native child-check from its EVM form; the 32-byte slots are
/// kept as they stand.
pub fn child_check_from_evm(c: &EvmChildCheck) -> (r: Result<NativeChildCheck, Error>)
    requires
        c.source.wf(),
    ensures
        r is Ok,
        r matches Ok(n) ==> child_check_view(n).source == subnet_of_evm(
            evm_subnet_view(c.source),
        ) && child_check_view(n).checks == evm_child_check_view(*c).checks,
{
    let source = match subnet_from_evm(&c.source) {
        Ok(s) => s,
        Err(err) => {
            return Err(err);
        },
    };
    let mut checks: Vec<Vec<u8>> = Vec::new();
    let n = c.checks.len();
    let mut i: usize = 0;
    while i < n
        invariant
            n == c.checks@.len(),
            i <= n,
            checks@.len() == i,
            forall|j: int| 0 <= j < i ==> (#[trigger] checks@[j])@ == c.checks@[j]@,
        decreases n - i,
    {
        let h = vstd::slice::slice_to_vec(c.checks[i].as_slice());
        checks.push(h);
        i += 1;
    }
    let out = NativeChildCheck { source, checks };
    proof {
        assert(child_check_view(out).checks =~= evm_child_check_view(*c).checks);
    }
    Ok(out)
}


/// Converts a native checkpoint into its EVM form. Succeeds exactly on the
/// documented domain: routable subnets, supported address kinds, amounts
/// below 256 bits, and a 32-byte previous hash where one is present. The
/// absent proof and previous hash convert to the empty representation only
/// because the template leaves them unset by design.
pub fn checkpoint_to_evm(c: &NativeBottomUpCheckpoint) -> (r: Result<EvmBottomUpCheckpoint, Error>)
    requires
        c.epoch >= 0,
    ensures
        r is Ok <==> ckpt_in_evm_domain(checkpoint_view(*c)),
        r matches Ok(e) ==> ckpt_to_evm_rel(checkpoint_view(*c), evm_checkpoint_view(e)),
{
    let ghost cv = checkpoint_view(*c);
    let source = subnet_to_evm(&c.source)?;
    let fee = fil_to_eth_amount(&c.cross_msgs.fee)?;
    let mut cross_msgs: Vec<EvmCrossMsg> = Vec::new();
    match &c.cross_msgs.cross_msgs {
        Some(msgs) => {
            let n = msgs.len();
            let mut i: usize = 0;
            proof {
                assert(batch_msgs(cv.cross_msgs) =~= msgs@.map(
                    |k: int, m: CrossMsg| cross_msg_view(m),
                ));
            }
            while i < n
                invariant
                    n == msgs@.len(),
                    i <= n,
                    cross_msgs@.len() == i,
                    cv == checkpoint_view(*c),
                    c.epoch >= 0,
                    batch_msgs(cv.cross_msgs) == msgs@.map(|k: int, m: CrossMsg| cross_msg_view(m)),
                    forall|j: int|
                        0 <= j < i ==> cross_to_evm_rel(
                            cross_msg_view(msgs@[j]),
                            evm_cross_msg_view(#[trigger] cross_msgs@[j]),
                        ),
                    forall|j: int|
                        0 <= j < i ==> msg_in_evm_domain(
                            (#[trigger] batch_msgs(cv.cross_msgs)[j]).msg,
                        ),
                decreases n - i,
            {
                proof {
                    assert(batch_msgs(cv.cross_msgs)[i as int] == cross_msg_view(msgs@[i as int]));
                }
                match cross_msg_to_evm(&msgs[i]) {
                    Ok(e) => {
                        cross_msgs.push(e);
                    },
                    Err(err) => {
                        proof {
                            assert(batch_msgs(cv.cross_msgs)[i as int] == cross_msg_view(
                                msgs@[i as int],
                            ));
                            assert(!msg_in_evm_domain(batch_msgs(cv.cross_msgs)[i as int].msg));
                        }
                        return Err(err);
                    },
                }
                i += 1;
            }
            proof {
                assert forall|j: int| 0 <= j < cross_msgs@.len() implies cross_to_evm_rel(
                    batch_msgs(cv.cross_msgs)[j],
                    evm_cross_msg_view(#[trigger] cross_msgs@[j]),
                ) by {
                    assert(batch_msgs(cv.cross_msgs)[j] == cross_msg_view(msgs@[j]));
                }
                assert(batch_msgs(cv.cross_msgs).len() == cross_msgs@.len());
            }
        },
        None => {
            proof {
                assert(batch_msgs(cv.cross_msgs) =~= Seq::<CrossMsgV>::empty());
            }
        },
    }
    let mut children: Vec<EvmChildCheck> = Vec::new();
    let n = c.children.len();
    let mut i: usize = 0;
    while i < n
        invariant
            n == c.children@.len(),
            i <= n,
            children@.len() == i,
            cv == checkpoint_view(*c),
            c.epoch >= 0,
            forall|j: int|
                0 <= j < cross_msgs@.len() ==> cross_to_evm_rel(
                    batch_msgs(cv.cross_msgs)[j],
                    evm_cross_msg_view(#[trigger] cross_msgs@[j]),
                ),
            batch_msgs(cv.cross_msgs).len() == cross_msgs@.len(),
            forall|j: int|
                0 <= j < batch_msgs(cv.cross_msgs).len() ==> msg_in_evm_domain(
                    (#[trigger] batch_msgs(cv.cross_msgs)[j]).msg,
                ),
            forall|j: int|
                0 <= j < i ==> child_to_evm_rel(
                    child_check_view(c.children@[j]),
                    evm_child_check_view(#[trigger] children@[j]),
                ),
        decreases n - i,
    {
        match child_check_to_evm(&c.children[i]) {
            Ok(e) => {
                children.push(e);
            },
            Err(err) => {
                proof {
                    assert(cv.children[i as int] == child_check_view(c.children@[i as int]));
                    assert(!subnet_routable(cv.children[i as int].source));
                }
                return Err(err);
            },
        }
        i += 1;
    }
    let prev_hash = match &c.prev_check {
        Some(h) => {
            if h.len() == 32 {
                vstd::slice::slice_to_vec(h.as_slice())
            } else {
                return Err(Error::InvalidPayload);
            }
        },
        None => zero_slot32(),
    };
    let proof_data = match &c.proof_data {
        Some(p) => vstd::slice::slice_to_vec(p.as_slice()),
        None => Vec::new(),
    };
    let e = EvmBottomUpCheckpoint {
        source,
        epoch: c.epoch as u64,
        fee,
        cross_msgs,
        children,
        prev_hash,
        proof_data,
    };
    proof {
        let ev = evm_checkpoint_view(e);
        assert(ev.cross_msgs =~= e.cross_msgs@.map(|k: int, m: EvmCrossMsg| evm_cross_msg_view(m)));
        assert forall|j: int| 0 <= j < ev.cross_msgs.len() implies cross_to_evm_rel(
            batch_msgs(cv.cross_msgs)[j],
            #[trigger] ev.cross_msgs[j],
        ) by {
            assert(ev.cross_msgs[j] == evm_cross_msg_view(e.cross_msgs@[j]));
        }
        assert forall|j: int| 0 <= j < cv.children.len() implies child_to_evm_rel(
            cv.children[j],
            #[trigger] ev.children[j],
        ) by {
            assert(ev.children[j] == evm_child_check_view(e.children@[j]));
            assert(cv.children[j] == child_check_view(c.children@[j]));
        }
        assert forall|j: int| 0 <= j < cv.children.len() implies subnet_routable(
            (#[trigger] cv.children[j]).source,
        ) by {
            assert(child_to_evm_rel(cv.children[j], ev.children[j]));
        }
    }
    Ok(e)
}

/// Rebuilds a native checkpoint from its EVM form. The proof and the
/// previous hash come back populated, the signature empty; whenever every
/// message address payload is the canonical image of a well-formed native
/// address, the rebuild succeeds.
pub fn checkpoint_from_evm(e: &EvmBottomUpCheckpoint) -> (r: Result<
    NativeBottomUpCheckpoint,
    Error,
>)
    requires
        evm_ckpt_wf(evm_checkpoint_view(*e)),
        e.epoch <= i64::MAX as u64,
    ensures
        evm_ckpt_decodable(evm_checkpoint_view(*e)) ==> r is Ok,
        r matches Ok(c) ==> ckpt_from_evm_rel(evm_checkpoint_view(*e), checkpoint_view(c)),
{
    let ghost ev = evm_checkpoint_view(*e);
    proof {
        assert(e.source.wf());
    }
    let source = match subnet_from_evm(&e.source) {
        Ok(s) => s,
        Err(err) => {
            return Err(err);
        },
    };
    let fee = match eth_to_fil_amount(&e.fee) {
        Ok(f) => f,
        Err(err) => {
            return Err(err);
        },
    };
    let mut msgs: Vec<CrossMsg> = Vec::new();
    let n = e.cross_msgs.len();
    let mut i: usize = 0;
    while i < n
        invariant
            n == e.cross_msgs@.len(),
            i <= n,
            msgs@.len() == i,
            ev == evm_checkpoint_view(*e),
            evm_ckpt_wf(ev),
            forall|j: int|
                0 <= j < i ==> ((#[trigger] msgs@[j]).wrapped == e.cross_msgs@[j].wrapped
                    && msg_from_evm_rel(
                    evm_msg_view(e.cross_msgs@[j].message),
                    msg_view(msgs@[j].msg),
                )),
        decreases n - i,
    {
        proof {
            assert(ev.cross_msgs[i as int] == evm_cross_msg_view(e.cross_msgs@[i as int]));
        }
        match cross_msg_from_evm(&e.cross_msgs[i]) {
            Ok(m) => {
                msgs.push(m);
            },
            Err(err) => {
                proof {
                    assert(!evm_msg_decodable(ev.cross_msgs[i as int].message));
                }
                return Err(err);
            },
        }
        i += 1;
    }
    let mut children: Vec<NativeChildCheck> = Vec::new();
    let cn = e.children.len();
    let mut k: usize = 0;
    while k < cn
        invariant
            cn == e.children@.len(),
            k <= cn,
            children@.len() == k,
            ev == evm_checkpoint_view(*e),
            evm_ckpt_wf(ev),
            forall|j: int|
                0 <= j < k ==> (child_check_view(#[trigger] children@[j]).source == subnet_of_evm(
                    evm_child_check_view(e.children@[j]).source,
                ) && child_check_view(children@[j]).checks == evm_child_check_view(
                    e.children@[j],
                ).checks),
        decreases cn - k,
    {
        proof {
            assert(ev.children[k as int] == evm_child_check_view(e.children@[k as int]));
            assert(e.children@[k as int].source.wf());
        }
        match child_check_from_evm(&e.children[k]) {
            Ok(cc) => {
                children.push(cc);
            },
            Err(err) => {
                return Err(err);
            },
        }
        k += 1;
    }
    let out = NativeBottomUpCheckpoint {
        source,
        proof_data: Some(vstd::slice::slice_to_vec(e.proof_data.as_slice())),
        epoch: e.epoch as i64,
        prev_check: Some(vstd::slice::slice_to_vec(e.prev_hash.as_slice())),
        children,
        cross_msgs: BatchCrossMsgs { cross_msgs: Some(msgs), fee },
        sig: Vec::new(),
    };
    proof {
        let cv = checkpoint_view(out);
        let msg_views = match cv.cross_msgs.cross_msgs {
            Some(sq) => sq,
            None => Seq::<CrossMsgV>::empty(),
        };
        assert(cv.cross_msgs.cross_msgs matches Some(sq) && sq =~= msgs@.map(
            |j: int, m: CrossMsg| cross_msg_view(m),
        ));
        assert forall|j: int| 0 <= j < ev.cross_msgs.len() implies ((#[trigger] msg_views[j]).wrapped == ev.cross_msgs[j].wrapped && msg_from_evm_rel(
            ev.cross_msgs[j].message,
            msg_views[j].msg,
        )) by {
            assert(msg_views[j] == cross_msg_view(msgs@[j]));
            assert(ev.cross_msgs[j] == evm_cross_msg_view(e.cross_msgs@[j]));
        }
        assert forall|j: int| 0 <= j < ev.children.len() implies ((#[trigger] cv.children[j]).source == subnet_of_evm(ev.children[j].source) && cv.children[j].checks
            == ev.children[j].checks) by {
            assert(cv.children[j] == child_check_view(children@[j]));
            assert(ev.children[j] == evm_child_check_view(e.children@[j]));
        }
    }
    Ok(out)
}

/// Checkpoint round-trip law: a native checkpoint within the documented
/// domain, converted to the EVM form and back, keeps its epoch, its source
/// subnet identity and its fee numeral exactly, and its children up to the
/// documented 32-byte truncation of each check hash.
pub proof fn lemma_checkpoint_round_trip(c: CheckpointV, e: EvmCheckpointV, c2: CheckpointV)
    requires
        ckpt_in_evm_domain(c),
        canonical_dec(c.cross_msgs.fee),
        ckpt_to_evm_rel(c, e),
        ckpt_from_evm_rel(e, c2),
    ensures
        c2.epoch == c.epoch,
        c2.source == c.source,
        c2.cross_msgs.fee == c.cross_msgs.fee,
        c2.children.len() == c.children.len(),
        forall|i: int|
            0 <= i < c.children.len() ==> (#[trigger] c2.children[i]).source
                == c.children[i].source,
        forall|i: int|
            0 <= i < c.children.len() ==> (#[trigger] c2.children[i]).checks.len()
                == c.children[i].checks.len(),
        forall|i: int, j: int|
            0 <= i < c.children.len() && 0 <= j < c.children[i].checks.len()
                ==> #[trigger] c2.children[i].checks[j] == pad32(c.children[i].checks[j]),
{
    lemma_subnet_round_trip(c.source, e.source);
    lemma_be_of_val(dec_value(c.cross_msgs.fee), 32);
    lemma_dec_value_of(c.cross_msgs.fee);
    assert forall|i: int| 0 <= i < c.children.len() implies (#[trigger] c2.children[i]).source
        == c.children[i].source && c2.children[i].checks.len() == c.children[i].checks.len() by {
        assert(child_to_evm_rel(c.children[i], e.children[i]));
        lemma_subnet_round_trip(c.children[i].source, e.children[i].source);
    }
    assert forall|i: int, j: int|
        0 <= i < c.children.len() && 0 <= j < c.children[i].checks.len() implies #[trigger] c2
        .children[i].checks[j] == pad32(c.children[i].checks[j]) by {
        assert(child_to_evm_rel(c.children[i], e.children[i]));
        assert(e.children[i].checks[j] == pad32(c.children[i].checks[j]));
    }
}

} // verus!
