//! Configuration tests: one entry per subnet identity, lookups, and the
//! per-subnet connection.

use ipc_agent::address::NativeAddress;
use ipc_agent::config::{Config, Subnet};
use ipc_agent::pool::Connection;
use ipc_agent::subnet::SubnetID;

fn subnet(root: u64, name: &str) -> Subnet {
    Subnet {
        id: SubnetID { root, children: Vec::new() },
        network_name: name.to_string(),
        evm: root % 2 == 0,
    }
}

#[test]
fn add_get_remove_subnets() {
    let mut c = Config::new();
    c.add_subnet(subnet(1, "one"));
    c.add_subnet(subnet(2, "two"));
    assert_eq!(c.subnets.len(), 2);

    let id1 = SubnetID { root: 1, children: Vec::new() };
    assert_eq!(c.get_subnet(&id1).unwrap().network_name, "one");

    // Adding the same identity again replaces the entry.
    c.add_subnet(subnet(1, "one-replaced"));
    assert_eq!(c.subnets.len(), 2);
    assert_eq!(c.get_subnet(&id1).unwrap().network_name, "one-replaced");

    c.remove_subnet(&id1);
    assert!(c.get_subnet(&id1).is_none());
    assert_eq!(c.subnets.len(), 1);

    // Removing an unknown identity changes nothing.
    c.remove_subnet(&id1);
    assert_eq!(c.subnets.len(), 1);
}

#[test]
fn identities_compare_by_content() {
    let a = SubnetID {
        root: 5,
        children: vec![NativeAddress::Delegated { namespace: 10, subaddress: vec![1u8; 20] }],
    };
    let b = SubnetID {
        root: 5,
        children: vec![NativeAddress::Delegated { namespace: 10, subaddress: vec![1u8; 20] }],
    };
    let mut c = Config::new();
    c.add_subnet(Subnet { id: a, network_name: "x".to_string(), evm: true });
    assert!(c.get_subnet(&b).is_some());
}

#[test]
fn connection_exposes_subnet_and_manager() {
    let s = subnet(4, "four");
    let conn = Connection::new(s.clone(), 17u64);
    assert_eq!(conn.subnet(), &s);
    assert_eq!(conn.manager(), &17u64);
}
