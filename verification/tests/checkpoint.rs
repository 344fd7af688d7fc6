//! Checkpoint conversion tests: the EVM form and back, the RPC response
//! mapping, and the subnet-state record.

use ipc_agent::address::NativeAddress;
use ipc_agent::amount::TokenAmount;
use ipc_agent::checkpoint::{
    BatchCrossMsgs, CrossMsg, IPCAddress, NativeBottomUpCheckpoint, NativeChildCheck, StorableMsg,
};
use ipc_agent::errors::Error;
use ipc_agent::evm::{checkpoint_from_evm, checkpoint_to_evm};
use ipc_agent::lotus::{
    batch_from_wrapper, checkpoint_from_response, cid_map_to_bytes, subnet_info_from_evm,
    BatchCrossMsgWrapper, BottomUpCheckpointResponse, CheckData, CheckpointData, CIDMap,
    CrossMsgsWrapper, EvmSubnet, Status, StorableMsgsWrapper,
};
use ipc_agent::subnet::{subnet_to_evm, SubnetID};

fn eth_hop() -> NativeAddress {
    NativeAddress::Delegated {
        namespace: 10,
        subaddress: hex::decode("1a79385ead0e873fe0c441c034636d3edf7014cc").unwrap(),
    }
}

fn test_subnet() -> SubnetID {
    SubnetID { root: 123, children: vec![eth_hop()] }
}

fn amount(digits: &[u8]) -> TokenAmount {
    TokenAmount::from_atto(digits.to_vec()).unwrap()
}

fn test_msg() -> CrossMsg {
    let from = IPCAddress { subnet_id: test_subnet(), raw_address: eth_hop() };
    let to = IPCAddress {
        subnet_id: test_subnet(),
        raw_address: NativeAddress::Secp256k1 { payload: (1u8..21).collect() },
    };
    CrossMsg {
        msg: StorableMsg {
            from,
            to,
            method: 0x1_0000_0002,
            params: vec![1, 2, 3],
            value: amount(b"42"),
            nonce: 7,
        },
        wrapped: false,
    }
}

fn test_checkpoint() -> NativeBottomUpCheckpoint {
    NativeBottomUpCheckpoint {
        source: test_subnet(),
        proof_data: Some(vec![9, 9]),
        epoch: 1100,
        prev_check: Some(vec![5u8; 32]),
        children: vec![NativeChildCheck {
            source: test_subnet(),
            checks: vec![vec![1u8; 40], vec![2u8; 10], vec![3u8; 32]],
        }],
        cross_msgs: BatchCrossMsgs {
            cross_msgs: Some(vec![test_msg()]),
            fee: amount(b"100000000000000"),
        },
        sig: vec![1, 2],
    }
}

#[test]
fn checkpoint_round_trip_preserves_core_fields() {
    let native = test_checkpoint();
    let evm = checkpoint_to_evm(&native).unwrap();
    assert_eq!(evm.epoch, 1100);
    assert_eq!(evm.prev_hash, vec![5u8; 32]);
    assert_eq!(evm.proof_data, vec![9, 9]);

    let back = checkpoint_from_evm(&evm).unwrap();
    assert_eq!(back.epoch, native.epoch);
    assert_eq!(back.source, native.source);
    assert_eq!(back.cross_msgs.fee, native.cross_msgs.fee);
    // Children come back in 32-byte slots: truncated or zero-padded.
    let checks = &back.children[0].checks;
    assert_eq!(checks[0], vec![1u8; 32]);
    let mut padded = vec![2u8; 10];
    padded.extend(std::iter::repeat(0u8).take(22));
    assert_eq!(checks[1], padded);
    assert_eq!(checks[2], vec![3u8; 32]);
    assert_eq!(back.children[0].source, native.children[0].source);
    // The rebuilt side carries what the runtime carried; the signature is
    // not part of the wire form.
    assert_eq!(back.prev_check, Some(vec![5u8; 32]));
    assert_eq!(back.proof_data, Some(vec![9, 9]));
    assert_eq!(back.sig, Vec::<u8>::new());
    // The message survives with its documented truncation.
    let msgs = back.cross_msgs.cross_msgs.unwrap();
    assert_eq!(msgs[0].msg.method, 2);
    assert_eq!(msgs[0].msg.value, amount(b"42"));
    assert_eq!(msgs[0].msg.nonce, 7);
    assert_eq!(msgs[0].msg.from.raw_address, eth_hop());
}

#[test]
fn checkpoint_to_evm_rejects_bad_prev_hash_length() {
    let mut native = test_checkpoint();
    native.prev_check = Some(vec![5u8; 31]);
    assert_eq!(checkpoint_to_evm(&native), Err(Error::InvalidPayload));
}

#[test]
fn checkpoint_without_optionals_uses_empty_forms() {
    let mut native = test_checkpoint();
    native.prev_check = None;
    native.proof_data = None;
    native.cross_msgs.cross_msgs = None;
    let evm = checkpoint_to_evm(&native).unwrap();
    assert_eq!(evm.prev_hash, vec![0u8; 32]);
    assert_eq!(evm.proof_data, Vec::<u8>::new());
    assert_eq!(evm.cross_msgs.len(), 0);
}

#[test]
fn cid_parsing_accepts_v0_and_rejects_garbage() {
    let m = CIDMap { cid: "QmdfTbBqBPQ7VNxZEYEj14VmRuZBkqFbiwReogJgS1zR1n".to_string() };
    let bytes = cid_map_to_bytes(&m).unwrap();
    assert_eq!(bytes.len(), 34);
    assert_eq!(&bytes[0..2], &[0x12, 0x20]);

    let bad = CIDMap { cid: "not a cid".to_string() };
    assert_eq!(cid_map_to_bytes(&bad), Err(Error::InvalidCid));
}

#[test]
fn response_maps_into_gateway_tuple_form() {
    let cid = "QmdfTbBqBPQ7VNxZEYEj14VmRuZBkqFbiwReogJgS1zR1n".to_string();
    let resp = BottomUpCheckpointResponse {
        data: CheckpointData {
            source: test_subnet(),
            proof_data: None,
            epoch: 400,
            children: Some(vec![CheckData {
                source: test_subnet(),
                checks: vec![CIDMap { cid: cid.clone() }],
            }]),
            prev_check: Some(CIDMap { cid: cid.clone() }),
            cross_msgs: Some(BatchCrossMsgWrapper {
                cross_msgs: Some(vec![CrossMsgsWrapper {
                    msg: StorableMsgsWrapper {
                        from: IPCAddress { subnet_id: test_subnet(), raw_address: eth_hop() },
                        to: IPCAddress { subnet_id: test_subnet(), raw_address: eth_hop() },
                        method: 2,
                        params: vec![],
                        value: amount(b"5"),
                        nonce: 0,
                    },
                    wrapped: true,
                }]),
                fee: amount(b"7"),
            }),
        },
        sig: None,
    };
    let ck = checkpoint_from_response(resp).unwrap();
    assert_eq!(ck.data.epoch, 400);
    assert_eq!(ck.data.source, test_subnet());
    assert_eq!(ck.data.proof_data, Vec::<u8>::new());
    assert_eq!(ck.data.prev_check.len(), 34);
    assert_eq!(ck.data.children.len(), 1);
    assert_eq!(ck.data.children[0].checks[0].len(), 34);
    assert_eq!(ck.data.cross_msgs.fee, amount(b"7"));
    let msgs = ck.data.cross_msgs.cross_msgs.unwrap();
    assert!(msgs[0].wrapped);
    assert_eq!(msgs[0].msg.value, amount(b"5"));
    assert_eq!(ck.sig, Vec::<u8>::new());
}

#[test]
fn response_with_bad_cid_fails() {
    let resp = BottomUpCheckpointResponse {
        data: CheckpointData {
            source: test_subnet(),
            proof_data: None,
            epoch: 400,
            children: None,
            prev_check: Some(CIDMap { cid: "broken".to_string() }),
            cross_msgs: None,
        },
        sig: None,
    };
    assert_eq!(checkpoint_from_response(resp), Err(Error::InvalidCid));
}

#[test]
fn batch_wrapper_preserves_messages() {
    let w = BatchCrossMsgWrapper {
        cross_msgs: Some(vec![CrossMsgsWrapper {
            msg: StorableMsgsWrapper {
                from: IPCAddress { subnet_id: test_subnet(), raw_address: eth_hop() },
                to: IPCAddress { subnet_id: test_subnet(), raw_address: eth_hop() },
                method: 3,
                params: vec![9],
                value: amount(b"11"),
                nonce: 4,
            },
            wrapped: false,
        }]),
        fee: amount(b"1"),
    };
    let b = batch_from_wrapper(w);
    assert_eq!(b.fee, amount(b"1"));
    let ms = b.cross_msgs.unwrap();
    assert_eq!(ms.len(), 1);
    assert_eq!(ms[0].msg.method, 3);
    assert_eq!(ms[0].msg.nonce, 4);
    assert_eq!(ms[0].msg.value, amount(b"11"));
}

#[test]
fn subnet_info_statuses() {
    let evm_id = subnet_to_evm(&test_subnet()).unwrap();
    let mut stake = vec![0u8; 32];
    stake[31] = 200;
    let record = EvmSubnet { id: evm_id.clone(), stake: stake.clone(), circ_supply: vec![0u8; 32], status: 1 };
    let info = subnet_info_from_evm(record).unwrap();
    assert_eq!(info.status, Status::Active);
    assert_eq!(info.id, test_subnet());
    assert_eq!(info.stake, amount(b"200"));
    assert_eq!(info.circ_supply, amount(b"0"));

    let killed = EvmSubnet { id: evm_id.clone(), stake: stake.clone(), circ_supply: vec![0u8; 32], status: 3 };
    assert_eq!(subnet_info_from_evm(killed).unwrap().status, Status::Killed);

    let bad = EvmSubnet { id: evm_id, stake, circ_supply: vec![0u8; 32], status: 9 };
    assert_eq!(subnet_info_from_evm(bad), Err(Error::InvalidStatus { status: 9 }));
}
