//! Hierarchical subnet identities and their conversion between the native
//! form (a root id and a route of addresses) and the EVM-side form (a root
//! id and a route of 20-byte addresses).
//!
//! The mapping is bidirectional and loss-free exactly when every hop of the
//! route is a 20-byte delegated address of the EVM address-manager namespace.

use vstd::prelude::*;
use crate::address::{addr_view, AddrV, NativeAddress, EAM_NAMESPACE};
use crate::errors::Error;

verus! {

/// A hierarchical subnet identity: the root network id and the route of
/// child-subnet actor addresses leading down to the subnet.
#[derive(Debug, Clone, PartialEq, Eq)]
pub struct SubnetID {
    pub root: u64,
    pub children: Vec<NativeAddress>,
}

/// The ghost shape of a subnet identity.
pub struct SubnetIdV {
    pub root: nat,
    pub children: Seq<AddrV>,
}

pub open spec fn subnet_view(s: SubnetID) -> SubnetIdV {
    SubnetIdV { root: s.root as nat, children: s.children@.map(|i: int, a: NativeAddress| addr_view(a)) }
}

impl SubnetID {
    pub open spec fn wf(&self) -> bool {
        forall|i: int|
            0 <= i < self.children@.len() ==> crate::address::addr_v_wf(
                #[trigger] subnet_view(*self).children[i],
            )
    }

    /// The root network id of the identity.
    pub fn root_id(&self) -> (r: u64)
        ensures
            r == self.root,
    {
        self.root
    }
}

/// A subnet identity as the EVM-compatible runtime's contracts carry it:
/// the root id and the route as raw 20-byte addresses.
#[derive(Debug, Clone, PartialEq, Eq)]
pub struct EvmSubnetID {
    pub root: u64,
    pub route: Vec<Vec<u8>>,
}

/// The ghost shape of an EVM-side subnet identity.
pub struct EvmSubnetIdV {
    pub root: nat,
    pub route: Seq<Seq<u8>>,
}

pub open spec fn evm_subnet_view(e: EvmSubnetID) -> EvmSubnetIdV {
    EvmSubnetIdV { root: e.root as nat, route: e.route@.map(|i: int, b: Vec<u8>| b@) }
}

impl EvmSubnetID {
    pub open spec fn wf(&self) -> bool {
        forall|i: int|
            0 <= i < self.route@.len() ==> (#[trigger] evm_subnet_view(*self).route[i]).len() == 20
    }
}

/// The 20-byte EVM address a route hop stands for, when it has one: the hop
/// must be a delegated address of the EVM namespace with a 20-byte
/// sub-address.
pub open spec fn eth20_of_addr(a: AddrV) -> Option<Seq<u8>> {
    match a {
        AddrV::Delegated { namespace, subaddress } => if namespace == 10 && subaddress.len()
            == 20 {
            Some(subaddress)
        } else {
            None
        },
        _ => None,
    }
}

/// The relation between a native subnet identity and its EVM-side form.
pub open spec fn subnet_to_evm_rel(s: SubnetIdV, e: EvmSubnetIdV) -> bool {
    &&& e.root == s.root
    &&& e.route.len() == s.children.len()
    &&& forall|i: int|
        0 <= i < s.children.len() ==> eth20_of_addr(#[trigger] s.children[i]) == Some(e.route[i])
}

/// The native identity an EVM-side identity denotes: every hop becomes a
/// delegated address of the EVM namespace.
pub open spec fn subnet_of_evm(e: EvmSubnetIdV) -> SubnetIdV {
    SubnetIdV {
        root: e.root,
        children: e.route.map(
            |i: int, b: Seq<u8>| AddrV::Delegated { namespace: 10, subaddress: b },
        ),
    }
}

/// Turns a raw 20-byte EVM address into the native delegated address that
/// stands for it.
pub fn ethers_address_to_fil_address(addr: &Vec<u8>) -> (r: Result<NativeAddress, Error>)
    requires
        addr@.len() == 20,
    ensures
        r matches Ok(a) && addr_view(a) == (AddrV::Delegated {
            namespace: 10 as nat,
            subaddress: addr@,
        }),
        r matches Ok(a) ==> a.wf(),
{
    Ok(
        NativeAddress::Delegated {
            namespace: EAM_NAMESPACE,
            subaddress: vstd::slice::slice_to_vec(addr.as_slice()),
        },
    )
}

/// Converts a native subnet identity into its EVM-side form. Succeeds
/// exactly when every hop of the route is a 20-byte delegated address of
/// the EVM namespace.
pub fn agent_subnet_to_evm_addresses(subnet: &SubnetID) -> (r: Result<Vec<Vec<u8>>, Error>)
    ensures
        r is Ok <==> (forall|i: int|
            0 <= i < subnet.children@.len() ==> eth20_of_addr(
                #[trigger] subnet_view(*subnet).children[i],
            ) is Some),
        r matches Ok(route) ==> route@.len() == subnet.children@.len() && (forall|i: int|
            0 <= i < subnet.children@.len() ==> eth20_of_addr(subnet_view(*subnet).children[i])
                == Some(#[trigger] route@[i]@)),
        r is Err ==> r matches Err(Error::UnsupportedProtocol { .. }),
{
    let mut route: Vec<Vec<u8>> = Vec::new();
    let n = subnet.children.len();
    let mut i: usize = 0;
    while i < n
        invariant
            n == subnet.children@.len(),
            i <= n,
            route@.len() == i,
            forall|j: int|
                0 <= j < i ==> eth20_of_addr(subnet_view(*subnet).children[j]) == Some(
                    #[trigger] route@[j]@,
                ),
        decreases n - i,
    {
        let child = &subnet.children[i];
        match child {
            NativeAddress::Delegated { namespace, subaddress } => {
                if *namespace == EAM_NAMESPACE && subaddress.len() == 20 {
                    route.push(vstd::slice::slice_to_vec(subaddress.as_slice()));
                } else {
                    return Err(Error::UnsupportedProtocol { protocol: child.protocol() });
                }
            },
            _ => {
                return Err(Error::UnsupportedProtocol { protocol: child.protocol() });
            },
        }
        proof {
            assert(subnet_view(*subnet).children[i as int] == addr_view(subnet.children@[i as int]));
        }
        i += 1;
    }
    proof {
        assert forall|j: int| 0 <= j < subnet.children@.len() implies eth20_of_addr(
            #[trigger] subnet_view(*subnet).children[j],
        ) is Some by {
            assert(eth20_of_addr(subnet_view(*subnet).children[j]) == Some(route@[j]@));
        }
    }
    Ok(route)
}

/// Converts a native subnet identity into its EVM-side form.
pub fn subnet_to_evm(subnet: &SubnetID) -> (r: Result<EvmSubnetID, Error>)
    ensures
        r is Ok <==> (forall|i: int|
            0 <= i < subnet.children@.len() ==> eth20_of_addr(
                #[trigger] subnet_view(*subnet).children[i],
            ) is Some),
        r matches Ok(e) ==> subnet_to_evm_rel(subnet_view(*subnet), evm_subnet_view(e)) && e.wf(),
        r is Err ==> r matches Err(Error::UnsupportedProtocol { .. }),
{
    let route = agent_subnet_to_evm_addresses(subnet)?;
    let e = EvmSubnetID { root: subnet.root, route };
    proof {
        assert forall|i: int| 0 <= i < e.route@.len() implies (#[trigger] evm_subnet_view(
            e,
        ).route[i]).len() == 20 by {
            assert(eth20_of_addr(subnet_view(*subnet).children[i]) == Some(e.route@[i]@));
        }
    }
    Ok(e)
}

/// Rebuilds the native subnet identity an EVM-side identity denotes; total,
/// since every 20-byte hop has a delegated form.
pub fn subnet_from_evm(e: &EvmSubnetID) -> (r: Result<SubnetID, Error>)
    requires
        e.wf(),
    ensures
        r matches Ok(s) && subnet_view(s) == subnet_of_evm(evm_subnet_view(*e)),
        r matches Ok(s) ==> s.wf(),
{
    let mut children: Vec<NativeAddress> = Vec::new();
    let n = e.route.len();
    let mut i: usize = 0;
    while i < n
        invariant
            e.wf(),
            n == e.route@.len(),
            i <= n,
            children@.len() == i,
            forall|j: int|
                0 <= j < i ==> addr_view(#[trigger] children@[j]) == (AddrV::Delegated {
                    namespace: 10 as nat,
                    subaddress: e.route@[j]@,
                }),
        decreases n - i,
    {
        proof {
            assert(evm_subnet_view(*e).route[i as int] == e.route@[i as int]@);
        }
        let hop = ethers_address_to_fil_address(&e.route[i])?;
        children.push(hop);
        i += 1;
    }
    let s = SubnetID { root: e.root, children };
    proof {
        let sv = subnet_view(s);
        let ov = subnet_of_evm(evm_subnet_view(*e));
        assert forall|j: int| 0 <= j < sv.children.len() implies sv.children[j] == ov.children[j]
            by {
            assert(sv.children[j] == addr_view(s.children@[j]));
            assert(ov.children[j] == (AddrV::Delegated {
                namespace: 10 as nat,
                subaddress: evm_subnet_view(*e).route[j],
            }));
        }
        assert(sv.children =~= ov.children);
        assert forall|j: int| 0 <= j < s.children@.len() implies crate::address::addr_v_wf(
            #[trigger] subnet_view(s).children[j],
        ) by {
            assert(evm_subnet_view(*e).route[j].len() == 20);
        }
    }
    Ok(s)
}

/// Subnet identity round-trip law: a native identity whose hops all have an
/// EVM form is recovered identically from that form.
pub proof fn lemma_subnet_round_trip(s: SubnetIdV, e: EvmSubnetIdV)
    requires
        subnet_to_evm_rel(s, e),
    ensures
        subnet_of_evm(e) == s,
{
    let o = subnet_of_evm(e);
    assert forall|i: int| 0 <= i < s.children.len() implies o.children[i] == s.children[i] by {
        assert(eth20_of_addr(s.children[i]) == Some(e.route[i]));
        match s.children[i] {
            AddrV::Delegated { namespace, subaddress } => {
                assert(namespace == 10 && subaddress == e.route[i]);
            },
            _ => {},
        }
    }
    assert(o.children =~= s.children);
}

} // verus!
