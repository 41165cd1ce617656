//! The storage-network identities that the ledger knows: the bootstrap nodes
//! with their addresses, and the bridge from accounts to public keys.

use std::collections::BTreeMap;
use vstd::prelude::*;
use crate::types::{
    byte_strings, bytes_eq, clone_byte_strings, clone_bytes, is_total, AccountId, Multiaddr, PublicKey,
};

verus! {

/// A node of the storage network and the addresses it listens on.
#[derive(Debug)]
pub struct BootstrapNode {
    /// The node's public key.
    pub public_key: PublicKey,
    /// The node's addresses, in the order in which it listed them.
    pub addresses: Vec<Multiaddr>,
}

/// What a bootstrap node holds.
pub struct NodeView {
    pub public_key: Seq<u8>,
    pub addresses: Seq<Seq<u8>>,
}

impl View for BootstrapNode {
    type V = NodeView;

    open spec fn view(&self) -> NodeView {
        NodeView { public_key: self.public_key@, addresses: byte_strings(self.addresses@) }
    }
}

/// What the identity store holds.
pub struct IdentitiesView {
    /// The bootstrap nodes, first published first.
    pub nodes: Seq<NodeView>,
    /// The public key of every account; empty for one that never published.
    pub bridge: Map<AccountId, Seq<u8>>,
}

impl IdentitiesView {
    /// No two bootstrap nodes share a public key, and every account has a bridge entry.
    pub open spec fn wf(self) -> bool {
        &&& distinct_keys(self.nodes)
        &&& is_total(self.bridge)
    }
}

/// Tells whether a node with this public key is among `nodes`.
pub open spec fn known(nodes: Seq<NodeView>, key: Seq<u8>) -> bool {
    exists|i: int| 0 <= i < nodes.len() && #[trigger] nodes[i].public_key == key
}

/// No two nodes share a public key.
pub open spec fn distinct_keys(nodes: Seq<NodeView>) -> bool {
    forall|i: int, j: int|
        0 <= i < nodes.len() && 0 <= j < nodes.len() && i != j
            ==> #[trigger] nodes[i].public_key != #[trigger] nodes[j].public_key
}

/// The place of the node with this public key, where there is one.
pub open spec fn place_of(nodes: Seq<NodeView>, key: Seq<u8>) -> int {
    choose|i: int| 0 <= i < nodes.len() && #[trigger] nodes[i].public_key == key
}

/// The addresses listed for a public key; none for an unknown key.
pub open spec fn addresses_of(nodes: Seq<NodeView>, key: Seq<u8>) -> Seq<Seq<u8>> {
    if known(nodes, key) {
        nodes[place_of(nodes, key)].addresses
    } else {
        Seq::empty()
    }
}

/// The nodes after `node` was published: it replaces the entry with its key, or comes last.
pub open spec fn with_node(nodes: Seq<NodeView>, node: NodeView) -> Seq<NodeView> {
    if known(nodes, node.public_key) {
        nodes.update(place_of(nodes, node.public_key), node)
    } else {
        nodes.push(node)
    }
}

/// Publishing keeps the public keys distinct and lists exactly the published addresses.
pub proof fn lemma_with_node(nodes: Seq<NodeView>, node: NodeView)
    requires
        distinct_keys(nodes),
    ensures
        distinct_keys(with_node(nodes, node)),
        known(with_node(nodes, node), node.public_key),
        addresses_of(with_node(nodes, node), node.public_key) == node.addresses,
        forall|key: Seq<u8>|
            key != node.public_key ==> #[trigger] addresses_of(with_node(nodes, node), key) == addresses_of(nodes, key),
        with_node(with_node(nodes, node), node) == with_node(nodes, node),
{
    let after = with_node(nodes, node);
    let at = if known(nodes, node.public_key) { place_of(nodes, node.public_key) } else { nodes.len() as int };
    assert(after[at].public_key == node.public_key);
    assert(forall|i: int| 0 <= i < nodes.len() && i != at ==> after[i] == nodes[i]);
    assert(distinct_keys(after)) by {
        assert forall|i: int, j: int|
            0 <= i < after.len() && 0 <= j < after.len() && i != j
            implies #[trigger] after[i].public_key != #[trigger] after[j].public_key by {
            if i == at {
                if known(nodes, node.public_key) {
                    assert(nodes[at].public_key == node.public_key);
                    assert(nodes[j].public_key != nodes[at].public_key);
                } else {
                    assert(nodes[j].public_key != node.public_key);
                }
            } else if j == at {
                if known(nodes, node.public_key) {
                    assert(nodes[at].public_key == node.public_key);
                    assert(nodes[i].public_key != nodes[at].public_key);
                } else {
                    assert(nodes[i].public_key != node.public_key);
                }
            } else {
                assert(nodes[i].public_key != nodes[j].public_key);
            }
        }
    }
    assert(place_of(after, node.public_key) == at);
    assert(with_node(after, node) =~= after);
    assert forall|key: Seq<u8>| key != node.public_key
        implies #[trigger] addresses_of(after, key) == addresses_of(nodes, key) by {
        if known(nodes, key) {
            let i = place_of(nodes, key);
            assert(after[i].public_key == key);
            let k = place_of(after, key);
            assert(after[k].public_key == key);
            assert(k == i);
        } else if known(after, key) {
            let k = place_of(after, key);
            assert(after[k].public_key == key);
            assert(nodes[k].public_key == key);
        }
    }
}

/// The identities that were published to the ledger.
pub struct Identities {
    nodes: Vec<BootstrapNode>,
    bridge: BTreeMap<AccountId, PublicKey>,
}

impl View for Identities {
    type V = IdentitiesView;

    closed spec fn view(&self) -> IdentitiesView {
        IdentitiesView {
            nodes: Seq::new(self.nodes@.len(), |i: int| self.nodes@[i]@),
            bridge: Map::total(
                |a: AccountId|
                    if self.bridge@.contains_key(a) {
                        self.bridge@[a]@
                    } else {
                        Seq::empty()
                    },
            ),
        }
    }
}

impl Identities {
    /// No two bootstrap nodes share a public key, and every account has a bridge entry.
    pub open spec fn wf(&self) -> bool {
        self@.wf()
    }

    /// A store that knows nobody.
    pub fn new() -> (store: Identities)
        ensures
            store.wf(),
            store@.nodes == Seq::<NodeView>::empty(),
            store@.bridge == Map::total(|a: AccountId| Seq::<u8>::empty()),
    {
        let store = Identities { nodes: Vec::new(), bridge: BTreeMap::new() };
        assert(store@.nodes =~= Seq::<NodeView>::empty());
        assert(store@.bridge =~= Map::total(|a: AccountId| Seq::<u8>::empty()));
        store
    }

    /// The place of the bootstrap node with this public key.
    fn find(&self, public_key: &PublicKey) -> (place: Option<usize>)
        ensures
            match place {
                Some(i) => i < self@.nodes.len() && self@.nodes[i as int].public_key == public_key@,
                None => !known(self@.nodes, public_key@),
            },
    {
        let mut i: usize = 0;
        while i < self.nodes.len()
            invariant
                i <= self.nodes.len(),
                forall|j: int| 0 <= j < i ==> self@.nodes[j].public_key != public_key@,
            decreases self.nodes.len() - i,
        {
            if bytes_eq(&self.nodes[i].public_key, public_key) {
                return Some(i);
            }
            i += 1;
        }
        None
    }

    /// Tells whether this public key belongs to a known bootstrap node.
    pub fn is_bootstrap_node(&self, public_key: &PublicKey) -> (found: bool)
        ensures
            found == known(self@.nodes, public_key@),
    {
        self.find(public_key).is_some()
    }

    /// The addresses listed for a public key; none for an unknown key.
    pub fn bootstrap_nodes(&self, public_key: &PublicKey) -> (addresses: Vec<Multiaddr>)
        requires
            self.wf(),
        ensures
            byte_strings(addresses@) == addresses_of(self@.nodes, public_key@),
    {
        match self.find(public_key) {
            Some(i) => {
                assert(self@.nodes[i as int].public_key == public_key@);
                assert(place_of(self@.nodes, public_key@) == i);
                clone_byte_strings(&self.nodes[i].addresses)
            },
            None => {
                let none: Vec<Multiaddr> = Vec::new();
                assert(byte_strings(none@) =~= Seq::<Seq<u8>>::empty());
                none
            },
        }
    }

    /// The bootstrap node that was published first, if any was.
    pub fn first_bootstrap_node(&self) -> (first: Option<&BootstrapNode>)
        ensures
            match first {
                Some(node) => self@.nodes.len() > 0 && node@ == self@.nodes[0],
                None => self@.nodes.len() == 0,
            },
    {
        if self.nodes.len() > 0 {
            Some(&self.nodes[0])
        } else {
            None
        }
    }

    /// The number of bootstrap nodes.
    pub fn bootstrap_node_count(&self) -> (count: usize)
        ensures
            count == self@.nodes.len(),
    {
        self.nodes.len()
    }

    /// The public key that an account published; empty if it published none.
    pub fn substrate_ipfs_bridge(&self, account: AccountId) -> (public_key: PublicKey)
        ensures
            public_key@ == self@.bridge[account],
    {
        match self.bridge.get(&account) {
            Some(key) => clone_bytes(key),
            None => Vec::new(),
        }
    }

    /// Tells whether `public_key` is the key that `account` published.
    pub fn is_key_of(&self, account: AccountId, public_key: &PublicKey) -> (matches: bool)
        ensures
            matches == (public_key@ == self@.bridge[account]),
    {
        match self.bridge.get(&account) {
            Some(key) => bytes_eq(public_key, key),
            None => {
                assert(public_key@.len() == 0 ==> public_key@ =~= Seq::<u8>::empty());
                public_key.len() == 0
            },
        }
    }

    /// Records the identity that `who` published: the node's addresses replace
    /// those listed under the same key, and the account's bridge entry is overwritten.
    pub fn publish(&mut self, who: AccountId, public_key: PublicKey, addresses: Vec<Multiaddr>)
        requires
            old(self).wf(),
        ensures
            final(self).wf(),
            final(self)@.nodes == with_node(
                old(self)@.nodes,
                NodeView { public_key: public_key@, addresses: byte_strings(addresses@) },
            ),
            final(self)@.bridge == old(self)@.bridge.insert(who, public_key@),
    {
        let ghost node = NodeView { public_key: public_key@, addresses: byte_strings(addresses@) };
        proof {
            lemma_with_node(self@.nodes, node);
        }
        let key = clone_bytes(&public_key);
        let place = self.find(&public_key);
        let entry = BootstrapNode { public_key, addresses };
        match place {
            Some(i) => {
                assert(old(self)@.nodes[i as int].public_key == node.public_key);
                assert(place_of(old(self)@.nodes, node.public_key) == i);
                self.nodes.set(i, entry);
            },
            None => {
                self.nodes.push(entry);
            },
        }
        self.bridge.insert(who, key);
        assert(self@.nodes =~= with_node(old(self)@.nodes, node));
        assert(self@.bridge =~= old(self)@.bridge.insert(who, public_key@));
    }
}

} // verus!
