use vstd::prelude::*;

use crate::key::KeyEvent;
use crate::trie::{
    bind_child, child_of, lemma_key_index, lemma_with_child_wf, GroupModel, KeyTrie, KeyTrieNode,
    TrieModel,
};

verus! {

broadcast use vstd::std_specs::vec::group_vec_axioms;

/// `overlay` merged onto `base`. An overlay that carries a name brings its name and
/// stickiness; an unnamed one keeps the base's.
pub open spec fn merge_group(base: GroupModel, overlay: GroupModel) -> GroupModel
    decreases overlay,
{
    GroupModel {
        name: if overlay.name.len() > 0 {
            overlay.name
        } else {
            base.name
        },
        sticky: if overlay.name.len() > 0 {
            overlay.sticky
        } else {
            base.sticky
        },
        children: merge_children(base.children, overlay.children),
    }
}

/// The overlay's children applied to the base's in order: two groups at one key merge,
/// anything else at a shared key is replaced by the overlay's, new keys go last.
pub open spec fn merge_children(
    base: Seq<(KeyEvent, TrieModel)>,
    overlay: Seq<(KeyEvent, TrieModel)>,
) -> Seq<(KeyEvent, TrieModel)>
    decreases overlay,
{
    if overlay.len() == 0 {
        base
    } else {
        let prev = merge_children(base, overlay.drop_last());
        let k = overlay.last().0;
        let t = overlay.last().1;
        match (child_of(prev, k), t) {
            (Some(TrieModel::Group(bg)), TrieModel::Group(og)) => bind_child(
                prev,
                k,
                TrieModel::Group(merge_group(bg, og)),
            ),
            _ => bind_child(prev, k, t),
        }
    }
}

/// Merging two well-formed groups gives a well-formed group.
pub proof fn lemma_merge_wf(base: GroupModel, overlay: GroupModel)
    requires
        base.wf(),
        overlay.wf(),
    ensures
        merge_group(base, overlay).wf(),
    decreases overlay,
{
    lemma_merge_children_wf(base, overlay.children);
    let m = merge_group(base, overlay);
    let g = GroupModel { children: merge_children(base.children, overlay.children), ..base };
    assert(m.children == g.children);
    assert(forall|i: int| 0 <= i < m.children.len() ==> #[trigger] m.children[i] == g.children[i]);
}

proof fn lemma_merge_children_wf(base: GroupModel, overlay: Seq<(KeyEvent, TrieModel)>)
    requires
        base.wf(),
        forall|i: int| 0 <= i < overlay.len() ==> (#[trigger] overlay[i]).1.wf(),
    ensures
        (GroupModel { children: merge_children(base.children, overlay), ..base }).wf(),
    decreases overlay,
{
    if overlay.len() > 0 {
        let init = overlay.drop_last();
        assert(forall|i: int| 0 <= i < init.len() ==> #[trigger] init[i] == overlay[i]);
        lemma_merge_children_wf(base, init);
        let prev = GroupModel { children: merge_children(base.children, init), ..base };
        let k = overlay.last().0;
        let t = overlay.last().1;
        assert(t.wf());
        lemma_key_index(prev.children, k);
        match (child_of(prev.children, k), t) {
            (Some(TrieModel::Group(bg)), TrieModel::Group(og)) => {
                assert(bg.wf());
                lemma_merge_wf(bg, og);
                lemma_with_child_wf(prev, k, TrieModel::Group(merge_group(bg, og)));
            },
            _ => {
                lemma_with_child_wf(prev, k, t);
            },
        }
    }
}

impl KeyTrieNode {
    /// Merges `other` onto this group: keys only here stay, keys only in `other` are added
    /// last, two groups at one key merge recursively, and at any other shared key the
    /// child of `other` wins.
    pub fn merge_nodes(&mut self, other: KeyTrieNode)
        ensures
            final(self)@ == merge_group(old(self)@, other@),
            old(self)@.wf() && other@.wf() ==> final(self)@.wf(),
    {
        proof {
            if old(self)@.wf() && other@.wf() {
                lemma_merge_wf(old(self)@, other@);
            }
        }
        self.merge_from(&other);
    }

    fn merge_from(&mut self, other: &KeyTrieNode)
        ensures
            final(self)@ == merge_group(old(self)@, other@),
        decreases other,
    {
        if !other.name.as_str().is_empty() {
            self.name = other.name.clone();
            self.sticky = other.sticky;
        }
        let ghost base = old(self)@.children;
        let ghost oc = other@.children;
        let mut i: usize = 0;
        proof {
            assert(oc.take(0) =~= Seq::<(KeyEvent, TrieModel)>::empty());
            assert(self@.children =~= base);
        }
        while i < other.children.len()
            invariant
                0 <= i <= other.children@.len(),
                base == old(self)@.children,
                oc == other@.children,
                self@.name == merge_group(old(self)@, other@).name,
                self@.sticky == merge_group(old(self)@, other@).sticky,
                self@.children == merge_children(base, oc.take(i as int)),
            decreases other.children@.len() - i,
        {
            proof {
                other.lemma_view_keys(other.children@[i as int].0);
                assert(oc.take(i + 1).drop_last() =~= oc.take(i as int));
            }
            let k = other.children[i].0;
            let ot = &other.children[i].1;
            let mut merged = false;
            if let KeyTrie::Node(on) = ot {
                if let Some(KeyTrie::Node(bn)) = self.get(&k) {
                    let mut n = bn.duplicate();
                    n.merge_from(on);
                    self.set_child(k, KeyTrie::Node(n));
                    merged = true;
                }
            }
            if !merged {
                let t = ot.duplicate();
                self.set_child(k, t);
            }
            i = i + 1;
        }
        proof {
            assert(oc.take(oc.len() as int) =~= oc);
        }
    }
}

} // verus!
