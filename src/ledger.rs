use crate::hash::HashOf;
use crate::nibble::u4;
use crate::sig::{MultiSigned, SigOf};
use crate::trie::{children_view, children_wf, find_key, find_prefix_key, is_extension, is_prefix};
use vstd::prelude::*;

verus! {

/// Dynamically typed structured state. Dictionary entries are keyed by bytes;
/// in canonical form (`wf`) the keys are strictly ascending.
#[derive(Debug, PartialEq, Eq)]
pub enum Value {
    Null,
    Bool(bool),
    Int(i128),
    Unt(u128),
    Text(String),
    Bytes(Vec<u8>),
    Vec(Vec<Value>),
    Dict(Vec<(Vec<u8>, Value)>),
}

/// Whether the byte string `a` comes strictly before `b` in lexicographic order.
pub open spec fn bytes_lt(a: Seq<u8>, b: Seq<u8>) -> bool
    decreases a.len(),
{
    if a.len() == 0 {
        b.len() > 0
    } else if b.len() == 0 {
        false
    } else if a[0] != b[0] {
        a[0] < b[0]
    } else {
        bytes_lt(a.drop_first(), b.drop_first())
    }
}

impl Value {
    /// A value is in canonical form when the keys of each dictionary in it
    /// are strictly ascending, hence unique.
    pub open spec fn wf(&self) -> bool
        decreases self,
    {
        match self {
            Value::Vec(vs) => forall|i: int| 0 <= i < vs.len() ==> (#[trigger] vs[i]).wf(),
            Value::Dict(es) => {
                &&& forall|i: int| 0 <= i < es.len() - 1 ==> bytes_lt(#[trigger] es[i].0@, es[i + 1].0@)
                &&& forall|i: int| 0 <= i < es.len() ==> (#[trigger] es[i]).1.wf()
            },
            _ => true,
        }
    }
}

/// The body of a block. `prev` is `None` for a genesis block; otherwise it
/// addresses the block this one extends.
#[derive(Clone, Debug, PartialEq, Eq)]
pub struct BlockBody {
    pub prev: Option<HashOf<Block>>,
    pub version: u128,
    /// The timestamp in epoch seconds, rounded down to a block's granularity.
    pub timestamp: u128,
    pub tree: HashOf<CTNode>,
    pub options: HashOf<Vec<(Vec<u8>, Value)>>,
}

pub type SignedBlock = MultiSigned<BlockBody>;

/// A block: multi-signed, and signed once more by its proposer.
#[derive(Clone, Debug, PartialEq, Eq)]
pub struct Block {
    pub block: SignedBlock,
    pub sig: SigOf<SignedBlock>,
}

/// A node of the candidate tree, attested by its signers.
pub type CTNode = MultiSigned<CTBody>;

/// The body of a candidate-tree node. `path` is the node's absolute position;
/// each key of `children` is relative to it, so the child stored under `key`
/// sits at `path` followed by `key`.
#[derive(Clone, Debug, PartialEq, Eq)]
pub struct CTBody {
    pub last_main: Option<HashOf<Block>>,
    pub path: Vec<u4>,
    pub children: Vec<(Vec<u4>, HashOf<CTNode>)>,
    pub data_tree: Option<HashOf<DataNode>>,
    pub new_action: Option<HashOf<Action>>,
    pub prize: u128,
    pub new_nodes: u128,
    pub total_gas: u128,
    pub total_stake: u128,
}

/// Whether the node at `child` may be stored under `key` below the node at `parent`.
pub open spec fn child_consistent(parent: Seq<u4>, key: Seq<u4>, child: Seq<u4>) -> bool {
    child == parent + key
}

impl CTBody {
    pub open spec fn spec_path(&self) -> Seq<u4> {
        self.path@
    }

    pub open spec fn spec_children(&self) -> Seq<(Seq<u4>, Seq<u8>)> {
        children_view(self.children@)
    }

    /// The children form a map from non-empty keys.
    pub open spec fn wf(&self) -> bool {
        children_wf(self.spec_children())
    }

    /// A node at `path` with no children.
    pub fn new(
        last_main: Option<HashOf<Block>>,
        path: Vec<u4>,
        data_tree: Option<HashOf<DataNode>>,
        new_action: Option<HashOf<Action>>,
        prize: u128,
        new_nodes: u128,
        total_gas: u128,
        total_stake: u128,
    ) -> (r: CTBody)
        ensures
            r.wf(),
            r.spec_path() == path@,
            r.spec_children().len() == 0,
            r.last_main == last_main,
            r.data_tree == data_tree,
            r.new_action == new_action,
            r.prize == prize,
            r.new_nodes == new_nodes,
            r.total_gas == total_gas,
            r.total_stake == total_stake,
    {
        let r = CTBody {
            last_main,
            path,
            children: Vec::new(),
            data_tree,
            new_action,
            prize,
            new_nodes,
            total_gas,
            total_stake,
        };
        assert(r.spec_children() =~= Seq::<(Seq<u4>, Seq<u8>)>::empty());
        r
    }

    pub fn path(&self) -> (r: &Vec<u4>)
        ensures
            r@ == self.spec_path(),
    {
        &self.path
    }

    pub fn children(&self) -> (r: &Vec<(Vec<u4>, HashOf<CTNode>)>)
        ensures
            children_view(r@) == self.spec_children(),
    {
        &self.children
    }

    /// Links `child`, whose node is addressed by `child_hash`, under `key`.
    /// Refused, and nothing changes, unless `key` is non-empty and new here
    /// and `child`'s path is this node's path followed by `key`.
    pub fn add_child(&mut self, key: Vec<u4>, child: &CTBody, child_hash: HashOf<CTNode>) -> (r:
        bool)
        requires
            old(self).wf(),
        ensures
            final(self).wf(),
            final(self).spec_path() == old(self).spec_path(),
            final(self).last_main == old(self).last_main,
            final(self).data_tree == old(self).data_tree,
            final(self).new_action == old(self).new_action,
            final(self).prize == old(self).prize,
            final(self).new_nodes == old(self).new_nodes,
            final(self).total_gas == old(self).total_gas,
            final(self).total_stake == old(self).total_stake,
            r == (key@.len() > 0 && child_consistent(
                old(self).spec_path(),
                key@,
                child.spec_path(),
            ) && forall|i: int|
                0 <= i < old(self).spec_children().len() ==> #[trigger] old(
                    self,
                ).spec_children()[i].0 != key@),
            r ==> final(self).spec_children() == old(self).spec_children().push(
                (key@, child_hash@),
            ),
            !r ==> final(self).spec_children() == old(self).spec_children(),
    {
        if key.len() == 0 || !is_extension(child.path.as_slice(), self.path.as_slice(), key.as_slice()) {
            return false;
        }
        match find_key(&self.children, key.as_slice()) {
            Some(i) => {
                assert(self.spec_children()[i as int].0 == key@);
                false
            },
            None => {
                let ghost before = self.spec_children();
                let ghost kv = key@;
                let ghost hv = child_hash@;
                self.children.push((key, child_hash));
                assert(self.spec_children() =~= before.push((kv, hv)));
                true
            },
        }
    }

    /// One step of descent: the index of a child whose key is an initial
    /// segment of `rest`, what remains of the sought path below this node.
    pub fn find_child(&self, rest: &[u4]) -> (r: Option<usize>)
        ensures
            r matches Some(i) ==> i < self.spec_children().len() && is_prefix(
                self.spec_children()[i as int].0,
                rest@,
            ),
            r is None ==> forall|i: int|
                0 <= i < self.spec_children().len() ==> !is_prefix(
                    #[trigger] self.spec_children()[i].0,
                    rest@,
                ),
    {
        let r = find_prefix_key(&self.children, rest);
        proof {
            if r is None {
                assert forall|i: int| 0 <= i < self.spec_children().len() implies !is_prefix(
                    #[trigger] self.spec_children()[i].0,
                    rest@,
                ) by {
                    assert(self.spec_children()[i].0 == self.children@[i].0@);
                }
            }
        }
        r
    }

    /// Whether `child`, found under the key at `index`, sits where that key
    /// says: at this node's path followed by the key.
    pub fn is_child_consistent(&self, index: usize, child: &CTBody) -> (r: bool)
        requires
            index < self.spec_children().len(),
        ensures
            r == child_consistent(
                self.spec_path(),
                self.spec_children()[index as int].0,
                child.spec_path(),
            ),
    {
        is_extension(child.path.as_slice(), self.path.as_slice(), self.children[index].0.as_slice())
    }
}

/// A node of the state trie: structured fields and children keyed by path.
#[derive(Debug, PartialEq, Eq)]
pub struct DataNode {
    pub children: Vec<(Vec<u4>, HashOf<DataNode>)>,
    pub fields: Value,
}

impl DataNode {
    pub open spec fn spec_children(&self) -> Seq<(Seq<u4>, Seq<u8>)> {
        children_view(self.children@)
    }

    /// The children form a map from non-empty keys, and the fields are in
    /// canonical form.
    pub open spec fn wf(&self) -> bool {
        children_wf(self.spec_children()) && self.fields.wf()
    }

    /// A node holding `fields` and no children.
    pub fn new(fields: Value) -> (r: DataNode)
        requires
            fields.wf(),
        ensures
            r.wf(),
            r.spec_children().len() == 0,
            r.fields == fields,
    {
        let r = DataNode { children: Vec::new(), fields };
        assert(r.spec_children() =~= Seq::<(Seq<u4>, Seq<u8>)>::empty());
        r
    }

    pub fn children(&self) -> (r: &Vec<(Vec<u4>, HashOf<DataNode>)>)
        ensures
            children_view(r@) == self.spec_children(),
    {
        &self.children
    }

    /// Links the node addressed by `child_hash` under `key`. Refused, and
    /// nothing changes, unless `key` is non-empty and new here.
    pub fn add_child(&mut self, key: Vec<u4>, child_hash: HashOf<DataNode>) -> (r: bool)
        requires
            old(self).wf(),
        ensures
            final(self).wf(),
            final(self).fields == old(self).fields,
            r == (key@.len() > 0 && forall|i: int|
                0 <= i < old(self).spec_children().len() ==> #[trigger] old(
                    self,
                ).spec_children()[i].0 != key@),
            r ==> final(self).spec_children() == old(self).spec_children().push(
                (key@, child_hash@),
            ),
            !r ==> final(self).spec_children() == old(self).spec_children(),
    {
        if key.len() == 0 {
            return false;
        }
        match find_key(&self.children, key.as_slice()) {
            Some(i) => {
                assert(self.spec_children()[i as int].0 == key@);
                false
            },
            None => {
                let ghost before = self.spec_children();
                let ghost kv = key@;
                let ghost hv = child_hash@;
                self.children.push((key, child_hash));
                assert(self.spec_children() =~= before.push((kv, hv)));
                true
            },
        }
    }

    /// One step of descent: the index of a child whose key is an initial
    /// segment of `rest`.
    pub fn find_child(&self, rest: &[u4]) -> (r: Option<usize>)
        ensures
            r matches Some(i) ==> i < self.spec_children().len() && is_prefix(
                self.spec_children()[i as int].0,
                rest@,
            ),
            r is None ==> forall|i: int|
                0 <= i < self.spec_children().len() ==> !is_prefix(
                    #[trigger] self.spec_children()[i].0,
                    rest@,
                ),
    {
        let r = find_prefix_key(&self.children, rest);
        proof {
            if r is None {
                assert forall|i: int| 0 <= i < self.spec_children().len() implies !is_prefix(
                    #[trigger] self.spec_children()[i].0,
                    rest@,
                ) by {
                    assert(self.spec_children()[i].0 == self.children@[i].0@);
                }
            }
        }
        r
    }
}

/// A fee-bearing operation anchored to a known block.
#[derive(Clone, Debug, PartialEq, Eq)]
pub struct Action {
    pub last_main: HashOf<Block>,
    pub fee: u128,
    pub command: Vec<u8>,
    pub args: Vec<Vec<u8>>,
}

/// The receiver of a transfer: an existing account, or the address derived
/// from the digest of an initialisation payload.
#[derive(Clone, Debug, PartialEq, Eq)]
pub enum Recip {
    Account(crate::hash::Hash),
    Init(HashOf<Vec<u8>>),
}

/// A transfer of value.
#[derive(Debug, PartialEq, Eq)]
pub struct SendInfo {
    pub last_main: HashOf<Block>,
    pub sender: crate::hash::Hash,
    pub to: Recip,
    pub amount: u128,
    pub msg: Value,
}

} // verus!
