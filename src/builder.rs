use vstd::prelude::*;

use crate::key::KeyEvent;
use crate::trie::{
    empty_group, lemma_get_wf, lemma_with_child_wf, GroupModel, KeyTrie, KeyTrieNode, TrieModel,
};

verus! {

broadcast use vstd::std_specs::vec::group_vec_axioms;

/// A malformed declarative binding.
#[derive(Clone, Copy, PartialEq, Eq, Structural, Debug)]
pub enum BuildError {
    /// A binding names no key sequence at all.
    NoKeys,
    /// One of a binding's key sequences is empty.
    EmptyKeySequence,
}

/// `g` with `t` installed at the end of `path`. Missing or non-group steps on the way become
/// fresh unnamed, non-sticky groups; whatever was bound at the end is overwritten.
pub open spec fn bind_model(g: GroupModel, path: Seq<KeyEvent>, t: TrieModel) -> GroupModel
    decreases path.len(),
{
    if path.len() == 0 {
        g
    } else if path.len() == 1 {
        g.with_child(path[0], t)
    } else {
        let sub = match g.get(path[0]) {
            Some(TrieModel::Group(h)) => h,
            _ => empty_group(),
        };
        g.with_child(path[0], TrieModel::Group(bind_model(sub, path.drop_first(), t)))
    }
}

/// `g` with `t` installed at each path in turn, later paths winning.
pub open spec fn bind_all(g: GroupModel, paths: Seq<Seq<KeyEvent>>, t: TrieModel) -> GroupModel
    decreases paths.len(),
{
    if paths.len() == 0 {
        g
    } else {
        bind_model(bind_all(g, paths.drop_last(), t), paths.last(), t)
    }
}

pub open spec fn alias_paths(aliases: Seq<Vec<KeyEvent>>) -> Seq<Seq<KeyEvent>> {
    aliases.map_values(|v: Vec<KeyEvent>| v@)
}

/// What is wrong with a set of aliases, if anything.
pub open spec fn alias_error(aliases: Seq<Vec<KeyEvent>>) -> Option<BuildError> {
    if aliases.len() == 0 {
        Some(BuildError::NoKeys)
    } else if exists|j: int| 0 <= j < aliases.len() && aliases[j]@.len() == 0 {
        Some(BuildError::EmptyKeySequence)
    } else {
        None
    }
}

/// After binding a path, the path leads to what was bound.
pub proof fn lemma_bind_reaches(g: GroupModel, path: Seq<KeyEvent>, t: TrieModel)
    requires
        path.len() > 0,
    ensures
        crate::trie::search(TrieModel::Group(bind_model(g, path, t)), path) == Some(t),
    decreases path.len(),
{
    let sub = match g.get(path[0]) {
        Some(TrieModel::Group(h)) => h,
        _ => empty_group(),
    };
    let c = if path.len() == 1 {
        t
    } else {
        TrieModel::Group(bind_model(sub, path.drop_first(), t))
    };
    crate::trie::lemma_with_child(g, path[0], c, path[0]);
    assert(bind_model(g, path, t) == g.with_child(path[0], c));
    let h = g.with_child(path[0], c);
    assert(crate::trie::search(TrieModel::Group(h), path) == crate::trie::search(
        c,
        path.drop_first(),
    ));
    if path.len() == 1 {
        assert(path.drop_first().len() == 0);
        assert(crate::trie::search(c, path.drop_first()) == Some(c));
    }
    if path.len() > 1 {
        lemma_bind_reaches(sub, path.drop_first(), t);
    }
}

/// Neither path is a prefix of the other.
pub open spec fn diverge(p: Seq<KeyEvent>, q: Seq<KeyEvent>) -> bool {
    exists|i: int| 0 <= i < p.len() && i < q.len() && p[i] != q[i]
}

/// Binding at one path leaves what a diverging path leads to as it was.
pub proof fn lemma_bind_elsewhere(g: GroupModel, q: Seq<KeyEvent>, t: TrieModel, p: Seq<KeyEvent>)
    requires
        diverge(p, q),
    ensures
        crate::trie::search(TrieModel::Group(bind_model(g, q, t)), p) == crate::trie::search(
            TrieModel::Group(g),
            p,
        ),
    decreases q.len(),
{
    let i = choose|i: int| 0 <= i < p.len() && i < q.len() && p[i] != q[i];
    let sub = match g.get(q[0]) {
        Some(TrieModel::Group(h)) => h,
        _ => empty_group(),
    };
    let c = if q.len() == 1 {
        t
    } else {
        TrieModel::Group(bind_model(sub, q.drop_first(), t))
    };
    assert(bind_model(g, q, t) == g.with_child(q[0], c));
    crate::trie::lemma_with_child(g, q[0], c, p[0]);
    if p[0] != q[0] {
    } else {
        assert(i >= 1);
        assert(q.len() > 1);
        assert(p.drop_first()[i - 1] != q.drop_first()[i - 1]);
        lemma_bind_elsewhere(sub, q.drop_first(), t, p.drop_first());
        match g.get(q[0]) {
            Some(TrieModel::Group(h)) => {},
            _ => {
                lemma_search_empty(p.drop_first());
            },
        }
    }
}

proof fn lemma_search_empty(p: Seq<KeyEvent>)
    requires
        p.len() > 0,
    ensures
        crate::trie::search(TrieModel::Group(empty_group()), p) is None,
{
    crate::trie::lemma_key_index(empty_group().children, p[0]);
}

/// When no alias is a prefix of another, each alias leads to the bound target.
pub proof fn lemma_bind_all_reaches(g: GroupModel, paths: Seq<Seq<KeyEvent>>, t: TrieModel, j: int)
    requires
        0 <= j < paths.len(),
        forall|m: int| 0 <= m < paths.len() ==> (#[trigger] paths[m]).len() > 0,
        forall|m: int, n: int| 0 <= m < n < paths.len() ==> diverge(paths[m], paths[n]),
    ensures
        crate::trie::search(TrieModel::Group(bind_all(g, paths, t)), paths[j]) == Some(t),
    decreases paths.len(),
{
    let init = paths.drop_last();
    if j == paths.len() - 1 {
        lemma_bind_reaches(bind_all(g, init, t), paths.last(), t);
    } else {
        assert(init[j] == paths[j]);
        assert forall|m: int| 0 <= m < init.len() implies (#[trigger] init[m]).len() > 0 by {
            assert(init[m] == paths[m]);
        }
        assert forall|m: int, n: int| 0 <= m < n < init.len() implies diverge(init[m], init[n]) by {
            assert(init[m] == paths[m] && init[n] == paths[n]);
        }
        lemma_bind_all_reaches(g, init, t, j);
        lemma_bind_elsewhere(bind_all(g, init, t), paths.last(), t, paths[j]);
    }
}

/// Binding a well-formed trie keeps a group well-formed.
pub proof fn lemma_bind_wf(g: GroupModel, path: Seq<KeyEvent>, t: TrieModel)
    requires
        g.wf(),
        t.wf(),
    ensures
        bind_model(g, path, t).wf(),
    decreases path.len(),
{
    if path.len() == 1 {
        lemma_with_child_wf(g, path[0], t);
    } else if path.len() > 1 {
        lemma_get_wf(g, path[0]);
        let sub = match g.get(path[0]) {
            Some(TrieModel::Group(h)) => h,
            _ => empty_group(),
        };
        lemma_bind_wf(sub, path.drop_first(), t);
        lemma_with_child_wf(g, path[0], TrieModel::Group(bind_model(sub, path.drop_first(), t)));
    }
}

/// Binding a well-formed trie at several paths keeps a group well-formed.
pub proof fn lemma_bind_all_wf(g: GroupModel, paths: Seq<Seq<KeyEvent>>, t: TrieModel)
    requires
        g.wf(),
        t.wf(),
    ensures
        bind_all(g, paths, t).wf(),
    decreases paths.len(),
{
    if paths.len() > 0 {
        lemma_bind_all_wf(g, paths.drop_last(), t);
        lemma_bind_wf(bind_all(g, paths.drop_last(), t), paths.last(), t);
    }
}

/// Binding below a group leaves the group's own name and stickiness as they were.
pub proof fn lemma_bind_all_keeps_meta(g: GroupModel, paths: Seq<Seq<KeyEvent>>, t: TrieModel)
    ensures
        bind_all(g, paths, t).name == g.name,
        bind_all(g, paths, t).sticky == g.sticky,
    decreases paths.len(),
{
    if paths.len() > 0 {
        lemma_bind_all_keeps_meta(g, paths.drop_last(), t);
    }
}

impl KeyTrieNode {
    fn bind_from(&mut self, keys: &[KeyEvent], i: usize, target: KeyTrie)
        requires
            i < keys@.len(),
        ensures
            final(self)@ == bind_model(old(self)@, keys@.skip(i as int), target@),
        decreases keys@.len() - i,
    {
        let k = keys[i];
        proof {
            assert(keys@.skip(i as int).drop_first() =~= keys@.skip(i + 1));
        }
        if i + 1 == keys.len() {
            self.set_child(k, target);
        } else {
            let mut sub = match self.get(&k) {
                Some(KeyTrie::Node(n)) => n.duplicate(),
                _ => KeyTrieNode::new(String::new(), false),
            };
            sub.bind_from(keys, i + 1, target);
            self.set_child(k, KeyTrie::Node(sub));
        }
    }

    /// Installs `target` at the end of `keys`, creating unnamed groups on the way and
    /// overwriting whatever was bound there before. An empty sequence is refused.
    pub fn bind(&mut self, keys: &[KeyEvent], target: KeyTrie) -> (r: Result<(), BuildError>)
        ensures
            r == (if keys@.len() == 0 {
                Err::<(), BuildError>(BuildError::EmptyKeySequence)
            } else {
                Ok(())
            }),
            final(self)@ == bind_model(old(self)@, keys@, target@),
            old(self)@.wf() && target@.wf() ==> final(self)@.wf(),
            final(self)@.name == old(self)@.name,
            final(self)@.sticky == old(self)@.sticky,
    {
        proof {
            if old(self)@.wf() && target@.wf() {
                lemma_bind_wf(old(self)@, keys@, target@);
            }
        }
        if keys.len() == 0 {
            return Err(BuildError::EmptyKeySequence);
        }
        assert(keys@.skip(0) =~= keys@);
        self.bind_from(keys, 0, target);
        Ok(())
    }

    /// Installs a copy of `target` at each of `aliases`, in order. A malformed alias set is
    /// refused before anything is bound.
    pub fn bind_aliases(&mut self, aliases: &[Vec<KeyEvent>], target: KeyTrie) -> (r: Result<
        (),
        BuildError,
    >)
        ensures
            match alias_error(aliases@) {
                Some(e) => r == Err::<(), BuildError>(e) && final(self)@ == old(self)@,
                None => r == Ok::<(), BuildError>(()) && final(self)@ == bind_all(
                    old(self)@,
                    alias_paths(aliases@),
                    target@,
                ),
            },
            old(self)@.wf() && target@.wf() ==> final(self)@.wf(),
            final(self)@.name == old(self)@.name,
            final(self)@.sticky == old(self)@.sticky,
    {
        proof {
            if old(self)@.wf() && target@.wf() {
                lemma_bind_all_wf(old(self)@, alias_paths(aliases@), target@);
            }
            lemma_bind_all_keeps_meta(old(self)@, alias_paths(aliases@), target@);
        }
        if aliases.len() == 0 {
            return Err(BuildError::NoKeys);
        }
        let mut j: usize = 0;
        while j < aliases.len()
            invariant
                0 <= j <= aliases@.len(),
                forall|m: int| 0 <= m < j ==> aliases@[m]@.len() > 0,
            decreases aliases@.len() - j,
        {
            if aliases[j].len() == 0 {
                return Err(BuildError::EmptyKeySequence);
            }
            j = j + 1;
        }
        let ghost start = self@;
        let ghost paths = alias_paths(aliases@);
        let mut i: usize = 0;
        assert(paths.take(0) =~= Seq::<Seq<KeyEvent>>::empty());
        while i < aliases.len()
            invariant
                0 <= i <= aliases@.len(),
                start == old(self)@,
                paths == alias_paths(aliases@),
                forall|m: int| 0 <= m < aliases@.len() ==> aliases@[m]@.len() > 0,
                self@ == bind_all(start, paths.take(i as int), target@),
            decreases aliases@.len() - i,
        {
            let copy = target.duplicate();
            let keys = aliases[i].as_slice();
            assert(keys@.skip(0) =~= keys@);
            self.bind_from(keys, 0, copy);
            assert(paths.take(i + 1).drop_last() =~= paths.take(i as int));
            i = i + 1;
        }
        assert(paths.take(aliases@.len() as int) =~= paths);
        Ok(())
    }
}

} // verus!
