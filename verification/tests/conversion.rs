//! Conversion-layer tests: addresses, amounts, method tags, subnet routes.

use ipc_agent::address::{
    addr_payload_to_bytes, bytes_to_fvm_addr, fvm_address_from_evm, fvm_address_to_evm,
    NativeAddress,
};
use ipc_agent::amount::{eth_to_fil_amount, fil_to_eth_amount, TokenAmount};
use ipc_agent::errors::Error;
use ipc_agent::evm::{method_from_bytes, method_to_bytes};
use ipc_agent::subnet::{
    agent_subnet_to_evm_addresses, ethers_address_to_fil_address, subnet_from_evm, subnet_to_evm,
    SubnetID,
};

fn eth_addr_bytes() -> Vec<u8> {
    hex::decode("1A79385eAd0e873FE0C441C034636D3Edf7014cC").unwrap()
}

#[test]
fn test_fvm_address_encoding() {
    let addr = ethers_address_to_fil_address(&eth_addr_bytes()).unwrap();

    let fvm_address = fvm_address_to_evm(&addr).unwrap();
    assert_eq!(hex::encode(&fvm_address.payload), "0000000000000000000000000000000000000000000000000000000000000020000000000000000000000000000000000000000000000000000000000000000a0000000000000000000000000000000000000000000000000000000000000014000000000000000000000000000000000000000000000000000000000000006000000000000000000000000000000000000000000000000000000000000000141a79385ead0e873fe0c441c034636d3edf7014cc000000000000000000000000");

    let address = fvm_address_from_evm(&fvm_address).unwrap();

    assert_eq!(addr, address);
}

#[test]
fn test_amount_conversion() {
    let fil_amount = TokenAmount::from_atto(b"100000000000000".to_vec()).unwrap();

    let eth_amount = fil_to_eth_amount(&fil_amount).unwrap();
    let test_amount = eth_to_fil_amount(&eth_amount).unwrap();
    assert_eq!(test_amount, fil_amount);
}

#[test]
fn amount_round_trip_keeps_the_numeral() {
    let a = TokenAmount::from_atto(b"100000000000000".to_vec()).unwrap();
    let be = fil_to_eth_amount(&a).unwrap();
    assert_eq!(be.len(), 32);
    let back = eth_to_fil_amount(&be).unwrap();
    assert_eq!(back.atto().as_slice(), b"100000000000000");
}

#[test]
fn amount_zero_and_canonical_checks() {
    assert!(TokenAmount::from_atto(b"".to_vec()).is_none());
    assert!(TokenAmount::from_atto(b"007".to_vec()).is_none());
    assert!(TokenAmount::from_atto(b"12a".to_vec()).is_none());
    let zero = TokenAmount::from_atto(b"0".to_vec()).unwrap();
    let be = fil_to_eth_amount(&zero).unwrap();
    assert_eq!(be, vec![0u8; 32]);
    let back = eth_to_fil_amount(&be).unwrap();
    assert_eq!(back.atto().as_slice(), b"0");
}

#[test]
fn amount_over_256_bits_is_rejected() {
    // 2^256 exactly, in decimal: one bit too many.
    let too_big =
        b"115792089237316195423570985008687907853269984665640564039457584007913129639936";
    let a = TokenAmount::from_atto(too_big.to_vec()).unwrap();
    assert_eq!(fil_to_eth_amount(&a), Err(Error::InvalidAmount));
    // 2^256 - 1 still fits.
    let max = b"115792089237316195423570985008687907853269984665640564039457584007913129639935";
    let a = TokenAmount::from_atto(max.to_vec()).unwrap();
    let be = fil_to_eth_amount(&a).unwrap();
    assert_eq!(be, vec![0xffu8; 32]);
}

#[test]
fn delegated_address_vector_round_trip() {
    let addr = NativeAddress::Delegated {
        namespace: 10,
        subaddress: eth_addr_bytes(),
    };
    let payload = addr_payload_to_bytes(&addr).unwrap();
    let back = bytes_to_fvm_addr(4, &payload).unwrap();
    assert_eq!(back, addr);
}

#[test]
fn secp_address_round_trip_and_errors() {
    let payload: Vec<u8> = (0u8..20).collect();
    let addr = NativeAddress::Secp256k1 { payload: payload.clone() };
    let e = fvm_address_to_evm(&addr).unwrap();
    assert_eq!(e.addr_type, 1);
    assert_eq!(e.payload, payload);
    assert_eq!(fvm_address_from_evm(&e).unwrap(), addr);

    // A secp payload must be exactly 20 bytes.
    let short: Vec<u8> = (0u8..19).collect();
    assert_eq!(bytes_to_fvm_addr(1, &short), Err(Error::InvalidPayload));
    // Unknown protocol tags are unsupported.
    assert_eq!(
        bytes_to_fvm_addr(7, &payload),
        Err(Error::UnsupportedProtocol { protocol: 7 })
    );
    // An id address has no EVM-side form.
    assert_eq!(
        fvm_address_to_evm(&NativeAddress::Id { id: 99 }),
        Err(Error::UnsupportedProtocol { protocol: 0 })
    );
}

#[test]
fn delegated_sub_address_over_the_limit_is_rejected() {
    // 54 bytes is the longest sub-address a delegated address may carry.
    let at_limit = NativeAddress::Delegated { namespace: 10, subaddress: vec![7u8; 54] };
    let e = fvm_address_to_evm(&at_limit).unwrap();
    assert_eq!(fvm_address_from_evm(&e).unwrap(), at_limit);

    let over = NativeAddress::Delegated { namespace: 10, subaddress: vec![7u8; 55] };
    assert_eq!(fvm_address_to_evm(&over), Err(Error::InvalidPayload));
    assert_eq!(addr_payload_to_bytes(&over), Err(Error::InvalidPayload));
}

#[test]
fn method_tag_keeps_low_32_bits_big_endian() {
    let tag = method_to_bytes(0x1_2345_6789);
    assert_eq!(tag, vec![0x23, 0x45, 0x67, 0x89]);
    assert_eq!(method_from_bytes(&tag), 0x2345_6789);
    assert_eq!(method_to_bytes(2), vec![0, 0, 0, 2]);
}

#[test]
fn subnet_route_round_trip() {
    let hop = NativeAddress::Delegated { namespace: 10, subaddress: eth_addr_bytes() };
    let id = SubnetID { root: 123, children: vec![hop] };
    let route = agent_subnet_to_evm_addresses(&id).unwrap();
    assert_eq!(route, vec![eth_addr_bytes()]);
    let evm = subnet_to_evm(&id).unwrap();
    assert_eq!(evm.root, 123);
    let back = subnet_from_evm(&evm).unwrap();
    assert_eq!(back, id);
}

#[test]
fn subnet_route_rejects_unrepresentable_hops() {
    let id = SubnetID { root: 1, children: vec![NativeAddress::Id { id: 5 }] };
    assert!(matches!(
        agent_subnet_to_evm_addresses(&id),
        Err(Error::UnsupportedProtocol { .. })
    ));
}
