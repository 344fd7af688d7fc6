//! The relay's configuration: the set of known subnets, one entry per
//! subnet identity, as the management surface reads and edits it.

use vstd::prelude::*;
use crate::address::{addr_view, NativeAddress};
use crate::subnet::{subnet_view, SubnetID, SubnetIdV};

verus! {

/// One configured subnet: its identity, a display name, and which runtime
/// family its endpoints speak.
#[derive(Debug, Clone, PartialEq, Eq)]
pub struct Subnet {
    pub id: SubnetID,
    pub network_name: String,
    pub evm: bool,
}

/// Byte-string equality.
pub fn bytes_eq(a: &Vec<u8>, b: &Vec<u8>) -> (r: bool)
    ensures
        r <==> a@ == b@,
{
    if a.len() != b.len() {
        proof {
            assert(a@.len() != b@.len());
        }
        return false;
    }
    let n = a.len();
    let mut i: usize = 0;
    while i < n
        invariant
            n == a@.len() && n == b@.len(),
            i <= n,
            forall|j: int| 0 <= j < i ==> a@[j] == b@[j],
        decreases n - i,
    {
        if a[i] != b[i] {
            return false;
        }
        i += 1;
    }
    proof {
        assert(a@ =~= b@);
    }
    true
}

/// Address equality, decided on the ghost shape of the two addresses.
pub fn addr_eq(a: &NativeAddress, b: &NativeAddress) -> (r: bool)
    ensures
        r <==> addr_view(*a) == addr_view(*b),
{
    match (a, b) {
        (NativeAddress::Secp256k1 { payload: pa }, NativeAddress::Secp256k1 { payload: pb }) => {
            bytes_eq(pa, pb)
        },
        (
            NativeAddress::Delegated { namespace: na, subaddress: sa },
            NativeAddress::Delegated { namespace: nb, subaddress: sb },
        ) => {
            *na == *nb && bytes_eq(sa, sb)
        },
        (NativeAddress::Id { id: ia }, NativeAddress::Id { id: ib }) => *ia == *ib,
        (NativeAddress::Bls { payload: pa }, NativeAddress::Bls { payload: pb }) => {
            bytes_eq(pa, pb)
        },
        _ => false,
    }
}

/// Subnet identity equality, decided on the ghost shape.
pub fn subnet_id_eq(a: &SubnetID, b: &SubnetID) -> (r: bool)
    ensures
        r <==> subnet_view(*a) == subnet_view(*b),
{
    if a.root != b.root {
        proof {
            assert(subnet_view(*a).root != subnet_view(*b).root);
        }
        return false;
    }
    if a.children.len() != b.children.len() {
        proof {
            assert(subnet_view(*a).children.len() != subnet_view(*b).children.len());
        }
        return false;
    }
    let n = a.children.len();
    let mut i: usize = 0;
    while i < n
        invariant
            n == a.children@.len() && n == b.children@.len(),
            i <= n,
            forall|j: int|
                0 <= j < i ==> addr_view(a.children@[j]) == addr_view(#[trigger] b.children@[j]),
        decreases n - i,
    {
        if !addr_eq(&a.children[i], &b.children[i]) {
            proof {
                assert(subnet_view(*a).children[i as int] == addr_view(a.children@[i as int]));
                assert(subnet_view(*b).children[i as int] == addr_view(b.children@[i as int]));
            }
            return false;
        }
        i += 1;
    }
    proof {
        assert(subnet_view(*a).children =~= subnet_view(*b).children);
    }
    true
}

/// The index of the first entry with the given identity, if any.
pub open spec fn find_id(s: Seq<Subnet>, id: SubnetIdV) -> Option<int>
    decreases s.len(),
{
    if s.len() == 0 {
        None
    } else if subnet_view(s[0].id) == id {
        Some(0)
    } else {
        match find_id(s.drop_first(), id) {
            Some(i) => Some(i + 1),
            None => None,
        }
    }
}

/// The configuration: the list of known subnets, at most one entry per
/// identity.
#[derive(Debug, Clone, PartialEq, Eq)]
pub struct Config {
    pub subnets: Vec<Subnet>,
}

impl Config {
    /// At most one entry per subnet identity.
    pub open spec fn wf(&self) -> bool {
        forall|i: int, j: int|
            0 <= i < j < self.subnets@.len() ==> subnet_view(#[trigger] self.subnets@[i].id)
                != subnet_view(#[trigger] self.subnets@[j].id)
    }

    /// An empty configuration.
    pub fn new() -> (r: Config)
        ensures
            r.subnets@.len() == 0,
            r.wf(),
    {
        Config { subnets: Vec::new() }
    }

    /// The index of the entry for `id`, if one exists.
    fn find_index(&self, id: &SubnetID) -> (r: Option<usize>)
        ensures
            match r {
                Some(i) => i < self.subnets@.len() && subnet_view(self.subnets@[i as int].id)
                    == subnet_view(*id) && (forall|j: int|
                    0 <= j < i ==> subnet_view(#[trigger] self.subnets@[j].id) != subnet_view(
                        *id,
                    )),
                None => forall|j: int|
                    0 <= j < self.subnets@.len() ==> subnet_view(#[trigger] self.subnets@[j].id)
                        != subnet_view(*id),
            },
    {
        let n = self.subnets.len();
        let mut i: usize = 0;
        while i < n
            invariant
                n == self.subnets@.len(),
                i <= n,
                forall|j: int|
                    0 <= j < i ==> subnet_view(#[trigger] self.subnets@[j].id) != subnet_view(
                        *id,
                    ),
            decreases n - i,
        {
            if subnet_id_eq(&self.subnets[i].id, id) {
                return Some(i);
            }
            i += 1;
        }
        None
    }

    /// The configured subnet with the given identity, if any.
    pub fn get_subnet(&self, id: &SubnetID) -> (r: Option<&Subnet>)
        ensures
            match r {
                Some(s) => subnet_view(s.id) == subnet_view(*id) && (exists|i: int|
                    0 <= i < self.subnets@.len() && self.subnets@[i] == *s),
                None => forall|j: int|
                    0 <= j < self.subnets@.len() ==> subnet_view(#[trigger] self.subnets@[j].id)
                        != subnet_view(*id),
            },
    {
        match self.find_index(id) {
            Some(i) => {
                let s = &self.subnets[i];
                proof {
                    assert(0 <= i < self.subnets@.len() && self.subnets@[i as int] == *s);
                }
                Some(s)
            },
            None => None,
        }
    }

    /// Removes the entry for the given identity, if one exists; every other
    /// entry stays, in order.
    pub fn remove_subnet(&mut self, subnet_id: &SubnetID)
        ensures
            match find_id(old(self).subnets@, subnet_view(*subnet_id)) {
                Some(i) => final(self).subnets@ == old(self).subnets@.remove(i),
                None => final(self).subnets@ == old(self).subnets@,
            },
            old(self).wf() ==> final(self).wf(),
            old(self).wf() ==> (forall|j: int|
                0 <= j < final(self).subnets@.len() ==> subnet_view(
                    #[trigger] final(self).subnets@[j].id,
                ) != subnet_view(*subnet_id)),
    {
        let found = self.find_index(subnet_id);
        proof {
            lemma_find_id_first(self.subnets@, subnet_view(*subnet_id));
        }
        match found {
            Some(i) => {
                proof {
                    lemma_find_id_exists(self.subnets@, subnet_view(*subnet_id), i as int);
                }
                self.subnets.remove(i);
            },
            None => {
                proof {
                    lemma_find_id_none(self.subnets@, subnet_view(*subnet_id));
                }
            },
        }
    }

    /// Adds or replaces the entry for the subnet's identity: any previous
    /// entry for it goes away and the new one is appended.
    pub fn add_subnet(&mut self, subnet: Subnet)
        ensures
            match find_id(old(self).subnets@, subnet_view(subnet.id)) {
                Some(i) => final(self).subnets@ == old(self).subnets@.remove(i).push(subnet),
                None => final(self).subnets@ == old(self).subnets@.push(subnet),
            },
            old(self).wf() ==> final(self).wf(),
    {
        let ghost pre = self.subnets@;
        let ghost id = subnet_view(subnet.id);
        let ghost was_wf = self.wf();
        self.remove_subnet(&subnet.id);
        let ghost mid = self.subnets@;
        self.subnets.push(subnet);
        proof {
            if was_wf {
                assert forall|i: int, j: int|
                    0 <= i < j < self.subnets@.len() implies subnet_view(
                    #[trigger] self.subnets@[i].id,
                ) != subnet_view(#[trigger] self.subnets@[j].id) by {
                    if j < mid.len() {
                        assert(self.subnets@[i] == mid[i] && self.subnets@[j] == mid[j]);
                    } else {
                        assert(self.subnets@[j] == subnet);
                        assert(self.subnets@[i] == mid[i]);
                        assert(subnet_view(mid[i].id) != id);
                    }
                }
            }
        }
    }
}

/// `find_id` returns the first matching index.
proof fn lemma_find_id_first(s: Seq<Subnet>, id: SubnetIdV)
    ensures
        match find_id(s, id) {
            Some(i) => 0 <= i < s.len() && subnet_view(s[i].id) == id && (forall|j: int|
                0 <= j < i ==> subnet_view(#[trigger] s[j].id) != id),
            None => forall|j: int| 0 <= j < s.len() ==> subnet_view(#[trigger] s[j].id) != id,
        },
    decreases s.len(),
{
    if s.len() == 0 {
    } else if subnet_view(s[0].id) == id {
    } else {
        lemma_find_id_first(s.drop_first(), id);
        match find_id(s.drop_first(), id) {
            Some(i) => {
                assert(s.drop_first()[i] == s[i + 1]);
                assert forall|j: int| 0 <= j < i + 1 implies subnet_view(#[trigger] s[j].id)
                    != id by {
                    if j > 0 {
                        assert(s.drop_first()[j - 1] == s[j]);
                    }
                }
            },
            None => {
                assert forall|j: int| 0 <= j < s.len() implies subnet_view(#[trigger] s[j].id)
                    != id by {
                    if j > 0 {
                        assert(s.drop_first()[j - 1] == s[j]);
                    }
                }
            },
        }
    }
}

/// If some index matches, `find_id` finds one.
proof fn lemma_find_id_exists(s: Seq<Subnet>, id: SubnetIdV, i: int)
    requires
        0 <= i < s.len(),
        subnet_view(s[i].id) == id,
    ensures
        find_id(s, id) is Some,
{
    lemma_find_id_first(s, id);
    if find_id(s, id) is None {
        assert(subnet_view(s[i].id) != id);
    }
}

/// If no index matches, `find_id` finds none.
proof fn lemma_find_id_none(s: Seq<Subnet>, id: SubnetIdV)
    requires
        forall|j: int| 0 <= j < s.len() ==> subnet_view(#[trigger] s[j].id) != id,
    ensures
        find_id(s, id) is None,
{
    lemma_find_id_first(s, id);
    match find_id(s, id) {
        Some(i) => {
            assert(subnet_view(s[i].id) == id);
        },
        None => {},
    }
}

} // verus!
