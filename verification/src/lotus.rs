//! The account/actor runtime's view of the relay: the JSON-RPC response
//! shapes, their mapping into the gateway's checkpoint tuple form, and the
//! subnet-state responses the management surface reads.
//!
//! Hashes arrive as content-identifier strings; parsing them is the one
//! outside call of this layer.

use vstd::prelude::*;
use crate::address::NativeAddress;
use crate::amount::{eth_to_fil_amount, TokenAmount};
use crate::numeric::{be_val, dec_of};
use crate::checkpoint::{BatchCrossMsgs, CrossMsg, IPCAddress, NativeChildCheck, StorableMsg};
use crate::errors::Error;
use crate::subnet::{evm_subnet_view, subnet_from_evm, subnet_of_evm, subnet_view, EvmSubnetID, SubnetID};
use crate::ChainEpoch;
use crate::MethodNum;

verus! {

/// A content identifier as the RPC boundary carries it: its string form.
#[derive(Debug, Clone, PartialEq, Eq)]
pub struct CIDMap {
    pub cid: String,
}

/// The binary form a content-identifier string parses to, when it parses;
/// a pure function of the string alone.
pub uninterp spec fn cid_bytes_of(s: Seq<char>) -> Option<Seq<u8>>;

/// Relies on `cid::Cid::try_from(&str)` and `Cid::to_bytes`: a
/// content-identifier string parses to its binary form, depending on the
/// string alone; a malformed string is rejected.
#[verifier::external_body]
fn parse_cid(s: &str) -> (r: Option<Vec<u8>>)
    ensures
        match r {
            Some(b) => cid_bytes_of(s@) matches Some(x) && b@ == x,
            None => cid_bytes_of(s@) is None,
        },
{
    match cid::Cid::try_from(s) {
        Ok(c) => Some(c.to_bytes()),
        Err(_) => None,
    }
}

/// Parses a content-identifier string into its binary form.
pub fn cid_map_to_bytes(m: &CIDMap) -> (r: Result<Vec<u8>, Error>)
    ensures
        r is Ok <==> cid_bytes_of(m.cid@) is Some,
        r matches Ok(b) ==> cid_bytes_of(m.cid@) matches Some(x) && b@ == x,
        r is Err ==> r matches Err(Error::InvalidCid),
{
    match parse_cid(m.cid.as_str()) {
        Some(b) => Ok(b),
        None => Err(Error::InvalidCid),
    }
}

/// The gateway's answer to the previous-checkpoint query.
#[derive(Debug, Clone, PartialEq, Eq)]
pub struct IPCGetPrevCheckpointForChildResponse {
    pub cid: Option<CIDMap>,
}

/// The gateway actor's state, reduced to what the relay reads.
#[derive(Debug, Clone, PartialEq, Eq)]
pub struct IPCReadGatewayStateResponse {
    pub check_period: ChainEpoch,
    pub applied_topdown_nonce: u64,
}

/// A subnet actor's state, reduced to what the relay reads.
#[derive(Debug, Clone, PartialEq, Eq)]
pub struct IPCReadSubnetActorStateResponse {
    pub check_period: ChainEpoch,
    pub validator_set: ValidatorSet,
    pub min_validators: u64,
}

/// The lifecycle state of a subnet.
#[derive(Debug, Clone, Copy, PartialEq, Eq, Structural)]
pub enum Status {
    Active,
    Inactive,
    Killed,
}

/// Collected information about the state of one subnet.
#[derive(Debug, Clone, PartialEq, Eq)]
pub struct SubnetInfo {
    pub id: SubnetID,
    pub stake: TokenAmount,
    pub circ_supply: TokenAmount,
    pub status: Status,
}

/// The validator set of a subnet, with its configuration number.
#[derive(Debug, Clone, PartialEq, Eq)]
pub struct ValidatorSet {
    pub validators: Option<Vec<Validator>>,
    pub configuration_number: u64,
}

/// One validator entry as the RPC boundary carries it.
#[derive(Debug, Clone, PartialEq, Eq)]
pub struct Validator {
    pub addr: String,
    pub net_addr: String,
    pub weight: String,
}

/// The recorded votes for a checkpoint.
#[derive(Debug, Clone, PartialEq, Eq)]
pub struct Votes {
    pub validators: Vec<NativeAddress>,
}

/// A checkpoint as the gateway's RPC boundary answers it.
#[derive(Debug, Clone, PartialEq, Eq)]
pub struct BottomUpCheckpointResponse {
    pub data: CheckpointData,
    pub sig: Option<Vec<u8>>,
}

#[derive(Debug, Clone, PartialEq, Eq)]
pub struct CheckpointData {
    pub source: SubnetID,
    pub proof_data: Option<Vec<u8>>,
    pub epoch: i64,
    pub children: Option<Vec<CheckData>>,
    pub prev_check: Option<CIDMap>,
    pub cross_msgs: Option<BatchCrossMsgWrapper>,
}

/// A batch of cross-messages as the RPC boundary carries it.
#[derive(Debug, Clone, PartialEq, Eq)]
pub struct BatchCrossMsgWrapper {
    pub cross_msgs: Option<Vec<CrossMsgsWrapper>>,
    pub fee: TokenAmount,
}

#[derive(Debug, Clone, PartialEq, Eq)]
pub struct CrossMsgsWrapper {
    pub msg: StorableMsgsWrapper,
    pub wrapped: bool,
}

#[derive(Debug, Clone, PartialEq, Eq)]
pub struct StorableMsgsWrapper {
    pub from: IPCAddress,
    pub to: IPCAddress,
    pub method: MethodNum,
    pub params: Vec<u8>,
    pub value: TokenAmount,
    pub nonce: u64,
}

/// A child-check as the RPC boundary carries it: hashes as
/// content-identifier strings.
#[derive(Debug, Clone, PartialEq, Eq)]
pub struct CheckData {
    pub source: SubnetID,
    pub checks: Vec<CIDMap>,
}

/// The gateway's checkpoint tuple form: hashes in their binary form, an
/// absent previous hash as empty bytes.
#[derive(Debug, Clone, PartialEq, Eq)]
pub struct FvmCheckData {
    pub source: SubnetID,
    pub proof_data: Vec<u8>,
    pub epoch: ChainEpoch,
    pub prev_check: Vec<u8>,
    pub children: Vec<NativeChildCheck>,
    pub cross_msgs: BatchCrossMsgs,
}

#[derive(Debug, Clone, PartialEq, Eq)]
pub struct FvmBottomUpCheckpoint {
    pub data: FvmCheckData,
    pub sig: Vec<u8>,
}

/// The batch is the wrapper's messages, field by field, with the same fee.
pub open spec fn batch_converted(w: BatchCrossMsgWrapper, b: BatchCrossMsgs) -> bool {
    &&& b.fee == w.fee
    &&& (w.cross_msgs is None ==> b.cross_msgs is None)
    &&& (w.cross_msgs matches Some(ws) ==> (b.cross_msgs matches Some(ms) && ms@.len() == ws@.len()
        && (forall|i: int|
        0 <= i < ws@.len() ==> ((#[trigger] ms@[i]).wrapped == ws@[i].wrapped && ms@[i].msg == (
        StorableMsg {
            from: ws@[i].msg.from,
            to: ws@[i].msg.to,
            method: ws@[i].msg.method,
            params: ws@[i].msg.params,
            value: ws@[i].msg.value,
            nonce: ws@[i].msg.nonce,
        })))))
}

/// Rebuilds a gateway cross-message batch from its RPC wrapper form: the
/// same messages, field by field, and the same fee.
pub fn batch_from_wrapper(wrapper: BatchCrossMsgWrapper) -> (r: BatchCrossMsgs)
    ensures
        batch_converted(wrapper, r),
{
    let BatchCrossMsgWrapper { cross_msgs, fee } = wrapper;
    let cross_msgs: Option<Vec<CrossMsg>> = match cross_msgs {
        Some(mut ws) => {
            let n0 = ws.len();
            let ghost orig = ws@;
            proof {
                assert(orig.len() == n0);
            }
            let mut ms: Vec<CrossMsg> = Vec::new();
            let mut i: usize = 0;
            while ws.len() > 0
                invariant
                    i + ws@.len() == orig.len(),
                    orig.len() <= usize::MAX,
                    ms@.len() == i,
                    ws@ == orig.skip(i as int),
                    forall|j: int|
                        0 <= j < i ==> ((#[trigger] ms@[j]).wrapped == orig[j].wrapped && ms@[j].msg
                            == (StorableMsg {
                            from: orig[j].msg.from,
                            to: orig[j].msg.to,
                            method: orig[j].msg.method,
                            params: orig[j].msg.params,
                            value: orig[j].msg.value,
                            nonce: orig[j].msg.nonce,
                        })),
                decreases ws@.len(),
            {
                let w = ws.remove(0);
                proof {
                    assert(orig.skip(i as int)[0] == orig[i as int]);
                    assert(orig.skip(i as int).remove(0) =~= orig.skip(i + 1));
                }
                let CrossMsgsWrapper { msg, wrapped } = w;
                let StorableMsgsWrapper { from, to, method, params, value, nonce } = msg;
                ms.push(
                    CrossMsg { msg: StorableMsg { from, to, method, params, value, nonce }, wrapped },
                );
                i += 1;
            }
            proof {
                assert(orig.skip(i as int).len() == 0);
            }
            Some(ms)
        },
        None => None,
    };
    BatchCrossMsgs { cross_msgs, fee }
}


/// `b` is the parsed binary form of the content-identifier string.
pub open spec fn cid_parsed(m: CIDMap, b: Seq<u8>) -> bool {
    cid_bytes_of(m.cid@) matches Some(x) && b == x
}

/// Every content-identifier string of one child entry parses.
pub open spec fn child_cids_ok(c: CheckData) -> bool {
    forall|i: int| 0 <= i < c.checks@.len() ==> cid_bytes_of((#[trigger] c.checks@[i]).cid@) is Some
}

/// Every content-identifier string of the response parses.
pub open spec fn response_cids_ok(d: CheckpointData) -> bool {
    &&& (d.prev_check matches Some(m) ==> cid_bytes_of(m.cid@) is Some)
    &&& (d.children matches Some(cs) ==> (forall|i: int|
        0 <= i < cs@.len() ==> child_cids_ok(#[trigger] cs@[i])))
}

/// The child entry's hashes are the parsed binary forms of its strings.
pub open spec fn child_converted(cd: CheckData, nc: NativeChildCheck) -> bool {
    &&& nc.source == cd.source
    &&& nc.checks@.len() == cd.checks@.len()
    &&& forall|j: int|
        0 <= j < cd.checks@.len() ==> cid_parsed(cd.checks@[j], (#[trigger] nc.checks@[j])@)
}

/// Rebuilds one child entry, parsing each of its hashes; fails exactly when
/// one of the strings does not parse.
pub fn check_data_to_child(cd: CheckData) -> (r: Result<NativeChildCheck, Error>)
    ensures
        r is Ok <==> child_cids_ok(cd),
        r matches Ok(nc) ==> child_converted(cd, nc),
        r is Err ==> r matches Err(Error::InvalidCid),
{
    let mut out: Vec<Vec<u8>> = Vec::new();
    let n = cd.checks.len();
    let mut i: usize = 0;
    while i < n
        invariant
            n == cd.checks@.len(),
            i <= n,
            out@.len() == i,
            forall|j: int| 0 <= j < i ==> cid_parsed(cd.checks@[j], (#[trigger] out@[j])@),
        decreases n - i,
    {
        match cid_map_to_bytes(&cd.checks[i]) {
            Ok(b) => {
                proof {
                    assert(cid_parsed(cd.checks@[i as int], b@));
                }
                out.push(b);
            },
            Err(e) => {
                proof {
                    assert(cid_bytes_of(cd.checks@[i as int].cid@) is None);
                    assert(!child_cids_ok(cd));
                }
                return Err(e);
            },
        }
        i += 1;
    }
    proof {
        assert forall|j: int| 0 <= j < cd.checks@.len() implies cid_bytes_of(
            (#[trigger] cd.checks@[j]).cid@,
        ) is Some by {
            assert(cid_parsed(cd.checks@[j], out@[j]@));
        }
    }
    Ok(NativeChildCheck { source: cd.source, checks: out })
}

/// Maps a checkpoint RPC response into the gateway's tuple form: each
/// content identifier parsed to its binary form, absent optional parts to
/// their empty representations. Fails exactly when some content-identifier
/// string does not parse.
pub fn checkpoint_from_response(resp: BottomUpCheckpointResponse) -> (r: Result<
    FvmBottomUpCheckpoint,
    Error,
>)
    ensures
        r is Ok <==> response_cids_ok(resp.data),
        r matches Ok(c) ==> c.data.source == resp.data.source && c.data.epoch == resp.data.epoch,
        r matches Ok(c) ==> c.data.proof_data@ == (match resp.data.proof_data {
            Some(p) => p@,
            None => Seq::<u8>::empty(),
        }),
        r matches Ok(c) ==> (match resp.data.prev_check {
            Some(m) => cid_parsed(m, c.data.prev_check@),
            None => c.data.prev_check@ == Seq::<u8>::empty(),
        }),
        r matches Ok(c) ==> (match resp.data.children {
            Some(cs) => c.data.children@.len() == cs@.len() && (forall|i: int|
                0 <= i < cs@.len() ==> child_converted(cs@[i], #[trigger] c.data.children@[i])),
            None => c.data.children@.len() == 0,
        }),
        r matches Ok(c) ==> (match resp.data.cross_msgs {
            Some(w) => batch_converted(w, c.data.cross_msgs),
            None => c.data.cross_msgs.cross_msgs is None && c.data.cross_msgs.fee.wf()
                && c.data.cross_msgs.fee.value() == 0,
        }),
        r matches Ok(c) ==> c.sig@ == (match resp.sig {
            Some(sg) => sg@,
            None => Seq::<u8>::empty(),
        }),
        r is Err ==> r matches Err(Error::InvalidCid),
{
    let BottomUpCheckpointResponse { data, sig } = resp;
    let CheckpointData { source, proof_data, epoch, children, prev_check, cross_msgs } = data;
    proof {
        assert(resp.data.prev_check == prev_check);
        assert(resp.data.children == children);
    }
    let prev_bytes: Vec<u8> = match &prev_check {
        Some(m) => {
            match cid_map_to_bytes(m) {
                Ok(b) => b,
                Err(e) => {
                    proof {
                        assert(!response_cids_ok(resp.data));
                    }
                    return Err(e);
                },
            }
        },
        None => Vec::new(),
    };
    let out_children: Vec<NativeChildCheck> = match children {
        Some(mut cs) => {
            let n0 = cs.len();
            let ghost orig = cs@;
            proof {
                assert(orig.len() == n0);
            }
            let mut out: Vec<NativeChildCheck> = Vec::new();
            let mut i: usize = 0;
            while cs.len() > 0
                invariant
                    i + cs@.len() == orig.len(),
                    orig.len() <= usize::MAX,
                    out@.len() == i,
                    cs@ == orig.skip(i as int),
                    resp.data.children matches Some(v) && v@ == orig,
                    forall|j: int| 0 <= j < i ==> child_converted(orig[j], #[trigger] out@[j]),
                    forall|j: int| 0 <= j < i ==> child_cids_ok(#[trigger] orig[j]),
                decreases cs@.len(),
            {
                let cd = cs.remove(0);
                proof {
                    assert(orig.skip(i as int)[0] == orig[i as int]);
                    assert(orig.skip(i as int).remove(0) =~= orig.skip(i + 1));
                }
                match check_data_to_child(cd) {
                    Ok(nc) => {
                        out.push(nc);
                    },
                    Err(e) => {
                        proof {
                            assert(!child_cids_ok(orig[i as int]));
                            assert(resp.data.children matches Some(v) && v@ == orig);
                            assert(!response_cids_ok(resp.data));
                        }
                        return Err(e);
                    },
                }
                i += 1;
            }
            proof {
                assert(cs@.len() == 0);
                assert(resp.data.children matches Some(v) && v@ == orig);
                assert forall|j: int| 0 <= j < orig.len() implies child_cids_ok(
                    #[trigger] orig[j],
                ) by {
                    assert(child_converted(orig[j], out@[j]));
                    assert forall|k: int|
                        0 <= k < orig[j].checks@.len() implies cid_bytes_of(
                        (#[trigger] orig[j].checks@[k]).cid@,
                    ) is Some by {
                        assert(cid_parsed(orig[j].checks@[k], out@[j].checks@[k]@));
                    }
                }
            }
            out
        },
        None => Vec::new(),
    };
    let batch: BatchCrossMsgs = match cross_msgs {
        Some(w) => batch_from_wrapper(w),
        None => {
            let zero = TokenAmount::zero();
            BatchCrossMsgs { cross_msgs: None, fee: zero }
        },
    };
    let out_sig: Vec<u8> = match sig {
        Some(sg) => sg,
        None => Vec::new(),
    };
    Ok(
        FvmBottomUpCheckpoint {
            data: FvmCheckData {
                source,
                proof_data: match proof_data {
                    Some(p) => p,
                    None => Vec::new(),
                },
                epoch,
                prev_check: prev_bytes,
                children: out_children,
                cross_msgs: batch,
            },
            sig: out_sig,
        },
    )
}

/// A subnet's record as the EVM-compatible registry answers it.
#[derive(Debug, Clone, PartialEq, Eq)]
pub struct EvmSubnet {
    pub id: EvmSubnetID,
    pub stake: Vec<u8>,
    pub circ_supply: Vec<u8>,
    pub status: u8,
}

pub open spec fn status_of(tag: u8) -> Status {
    if tag == 1 {
        Status::Active
    } else if tag == 2 {
        Status::Inactive
    } else {
        Status::Killed
    }
}

/// Collects a subnet's state from its EVM-side record: identity, stake and
/// circulating supply in native form, and the lifecycle status; fails
/// exactly on a status tag outside the known range.
pub fn subnet_info_from_evm(v: EvmSubnet) -> (r: Result<SubnetInfo, Error>)
    requires
        v.id.wf(),
        v.stake@.len() <= 32,
        v.circ_supply@.len() <= 32,
    ensures
        r is Ok <==> (v.status == 1 || v.status == 2 || v.status == 3),
        r matches Ok(si) ==> subnet_view(si.id) == subnet_of_evm(evm_subnet_view(v.id))
            && si.stake.atto_spec() == dec_of(be_val(v.stake@)) && si.circ_supply.atto_spec()
            == dec_of(be_val(v.circ_supply@)) && si.status == status_of(v.status),
        r is Err ==> (r matches Err(Error::InvalidStatus { status }) && status == v.status),
{
    let status = if v.status == 1 {
        Status::Active
    } else if v.status == 2 {
        Status::Inactive
    } else if v.status == 3 {
        Status::Killed
    } else {
        return Err(Error::InvalidStatus { status: v.status });
    };
    let id = match subnet_from_evm(&v.id) {
        Ok(s) => s,
        Err(e) => {
            return Err(e);
        },
    };
    let stake = match eth_to_fil_amount(&v.stake) {
        Ok(a) => a,
        Err(e) => {
            return Err(e);
        },
    };
    let circ_supply = match eth_to_fil_amount(&v.circ_supply) {
        Ok(a) => a,
        Err(e) => {
            return Err(e);
        },
    };
    Ok(SubnetInfo { id, stake, circ_supply, status })
}


} // verus!
