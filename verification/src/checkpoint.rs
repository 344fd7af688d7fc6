//! The chain-agnostic checkpoint data model: the native bottom-up checkpoint
//! with its child-checks and cross-message batch, and the ghost shapes the
//! conversion contracts are stated over.

use vstd::prelude::*;
use crate::address::{addr_view, addr_v_wf, AddrV, NativeAddress};
use crate::amount::TokenAmount;
use crate::subnet::{subnet_view, SubnetID, SubnetIdV};
use crate::ChainEpoch;
use crate::MethodNum;

verus! {

/// An address scoped to the subnet it lives in.
#[derive(Debug, Clone, PartialEq, Eq)]
pub struct IPCAddress {
    pub subnet_id: SubnetID,
    pub raw_address: NativeAddress,
}

/// The ghost shape of a subnet-scoped address.
pub struct IpcAddrV {
    pub subnet: SubnetIdV,
    pub raw: AddrV,
}

pub open spec fn ipc_addr_view(a: IPCAddress) -> IpcAddrV {
    IpcAddrV { subnet: subnet_view(a.subnet_id), raw: addr_view(a.raw_address) }
}

/// A cross-subnet message: sender and receiver, a method with opaque
/// parameters, a value, and the replay-ordering nonce.
#[derive(Debug, Clone, PartialEq, Eq)]
pub struct StorableMsg {
    pub from: IPCAddress,
    pub to: IPCAddress,
    pub method: MethodNum,
    pub params: Vec<u8>,
    pub value: TokenAmount,
    pub nonce: u64,
}

/// The ghost shape of a cross-subnet message; the value is its decimal
/// numeral.
pub struct MsgV {
    pub from: IpcAddrV,
    pub to: IpcAddrV,
    pub method: nat,
    pub params: Seq<u8>,
    pub value: Seq<u8>,
    pub nonce: nat,
}

pub open spec fn msg_view(m: StorableMsg) -> MsgV {
    MsgV {
        from: ipc_addr_view(m.from),
        to: ipc_addr_view(m.to),
        method: m.method as nat,
        params: m.params@,
        value: m.value.atto_spec(),
        nonce: m.nonce as nat,
    }
}

/// A cross-subnet message together with its wrapped flag.
#[derive(Debug, Clone, PartialEq, Eq)]
pub struct CrossMsg {
    pub msg: StorableMsg,
    pub wrapped: bool,
}

pub struct CrossMsgV {
    pub msg: MsgV,
    pub wrapped: bool,
}

pub open spec fn cross_msg_view(c: CrossMsg) -> CrossMsgV {
    CrossMsgV { msg: msg_view(c.msg), wrapped: c.wrapped }
}

/// A batch of cross-subnet messages with its aggregate fee.
#[derive(Debug, Clone, PartialEq, Eq)]
pub struct BatchCrossMsgs {
    pub cross_msgs: Option<Vec<CrossMsg>>,
    pub fee: TokenAmount,
}

pub struct BatchV {
    pub cross_msgs: Option<Seq<CrossMsgV>>,
    pub fee: Seq<u8>,
}

pub open spec fn batch_view(b: BatchCrossMsgs) -> BatchV {
    BatchV {
        cross_msgs: match b.cross_msgs {
            Some(v) => Some(v@.map(|i: int, c: CrossMsg| cross_msg_view(c))),
            None => None,
        },
        fee: b.fee.atto_spec(),
    }
}

/// A child-check: check hashes contributed by a descendant subnet.
#[derive(Debug, Clone, PartialEq, Eq)]
pub struct NativeChildCheck {
    pub source: SubnetID,
    pub checks: Vec<Vec<u8>>,
}

pub struct ChildCheckV {
    pub source: SubnetIdV,
    pub checks: Seq<Seq<u8>>,
}

pub open spec fn child_check_view(c: NativeChildCheck) -> ChildCheckV {
    ChildCheckV { source: subnet_view(c.source), checks: c.checks@.map(|i: int, h: Vec<u8>| h@) }
}

/// The native bottom-up checkpoint, independent of either chain runtime.
/// The proof and the previous-checkpoint reference start out unset and are
/// populated by the two chain handlers.
#[derive(Debug, Clone, PartialEq, Eq)]
pub struct NativeBottomUpCheckpoint {
    pub source: SubnetID,
    pub proof_data: Option<Vec<u8>>,
    pub epoch: ChainEpoch,
    pub prev_check: Option<Vec<u8>>,
    pub children: Vec<NativeChildCheck>,
    pub cross_msgs: BatchCrossMsgs,
    pub sig: Vec<u8>,
}

/// The ghost shape of a native checkpoint.
pub struct CheckpointV {
    pub source: SubnetIdV,
    pub proof_data: Option<Seq<u8>>,
    pub epoch: int,
    pub prev_check: Option<Seq<u8>>,
    pub children: Seq<ChildCheckV>,
    pub cross_msgs: BatchV,
    pub sig: Seq<u8>,
}

pub open spec fn checkpoint_view(c: NativeBottomUpCheckpoint) -> CheckpointV {
    CheckpointV {
        source: subnet_view(c.source),
        proof_data: match c.proof_data {
            Some(p) => Some(p@),
            None => None,
        },
        epoch: c.epoch as int,
        prev_check: match c.prev_check {
            Some(h) => Some(h@),
            None => None,
        },
        children: c.children@.map(|i: int, cc: NativeChildCheck| child_check_view(cc)),
        cross_msgs: batch_view(c.cross_msgs),
        sig: c.sig@,
    }
}

/// A 32-byte hash slot: the hash truncated to its first 32 bytes if longer,
/// copied into a zero-initialized 32-byte buffer if shorter.
pub open spec fn pad32(s: Seq<u8>) -> Seq<u8> {
    Seq::new(
        32,
        |i: int|
            if i < s.len() {
                s[i]
            } else {
                0u8
            },
    )
}

/// The all-zero 32-byte slot standing for an absent hash.
pub open spec fn zero32() -> Seq<u8> {
    Seq::new(32, |i: int| 0u8)
}

/// Truncates or zero-pads a hash into exactly 32 bytes.
pub fn hash_to_slot32(h: &Vec<u8>) -> (r: Vec<u8>)
    ensures
        r@ == pad32(h@),
{
    let mut r: Vec<u8> = Vec::new();
    let mut i: usize = 0;
    while i < 32
        invariant
            i <= 32,
            r@.len() == i,
            forall|j: int| 0 <= j < i ==> r@[j] == pad32(h@)[j],
        decreases 32 - i,
    {
        if i < h.len() {
            let b = h[i];
            r.push(b);
        } else {
            r.push(0u8);
        }
        i += 1;
    }
    proof {
        assert(r@ =~= pad32(h@));
    }
    r
}

/// The all-zero 32-byte slot.
pub fn zero_slot32() -> (r: Vec<u8>)
    ensures
        r@ == zero32(),
{
    let mut r: Vec<u8> = Vec::new();
    let mut i: usize = 0;
    while i < 32
        invariant
            i <= 32,
            r@.len() == i,
            forall|j: int| 0 <= j < i ==> r@[j] == 0u8,
        decreases 32 - i,
    {
        r.push(0u8);
        i += 1;
    }
    proof {
        assert(r@ =~= zero32());
    }
    r
}

/// Domain limits of a subnet-scoped address.
pub open spec fn ipc_addr_v_wf(a: IpcAddrV) -> bool {
    &&& addr_v_wf(a.raw)
    &&& forall|i: int| 0 <= i < a.subnet.children.len() ==> addr_v_wf(#[trigger] a.subnet.children[i])
}

} // verus!
