use vstd::prelude::*;
use vstd::pervasive::VecAdditionalExecFns;

use crate::key::KeyEvent;

verus! {

broadcast use vstd::std_specs::vec::group_vec_axioms;

/// An opaque handle to an editor command. The engine never interprets it; it only hands it back.
#[derive(Clone, Copy, PartialEq, Eq, Debug, Hash)]
pub struct Command {
    pub name: &'static str,
}

impl Command {
    pub fn new(name: &'static str) -> (r: Command)
        ensures
            r.name == name,
    {
        Command { name }
    }
}

/// What a trie denotes: a leaf bound to a command, or a group of ordered children.
pub enum TrieModel {
    Leaf(Command),
    Group(GroupModel),
}

/// What a group denotes: its display name, stickiness, and children in display order.
pub struct GroupModel {
    pub name: Seq<char>,
    pub sticky: bool,
    pub children: Seq<(KeyEvent, TrieModel)>,
}

/// The position of the first child bound at `k`, or -1 when there is none.
pub open spec fn key_index<T>(cs: Seq<(KeyEvent, T)>, k: KeyEvent) -> int
    decreases cs.len(),
{
    if cs.len() == 0 {
        -1
    } else {
        let r = key_index(cs.drop_last(), k);
        if r >= 0 {
            r
        } else if cs.last().0 == k {
            cs.len() - 1
        } else {
            -1
        }
    }
}

/// No two children share a key.
pub open spec fn keys_unique<T>(cs: Seq<(KeyEvent, T)>) -> bool {
    forall|i: int, j: int| 0 <= i < j < cs.len() ==> cs[i].0 != cs[j].0
}

pub open spec fn empty_group() -> GroupModel {
    GroupModel { name: Seq::empty(), sticky: false, children: Seq::empty() }
}

/// The child bound at `k` among `cs`.
pub open spec fn child_of<T>(cs: Seq<(KeyEvent, T)>, k: KeyEvent) -> Option<T> {
    let i = key_index(cs, k);
    if i >= 0 {
        Some(cs[i].1)
    } else {
        None
    }
}

/// `cs` after binding `k` to `t`: an existing child at `k` is replaced where it stands,
/// otherwise the new child goes last.
pub open spec fn bind_child<T>(cs: Seq<(KeyEvent, T)>, k: KeyEvent, t: T) -> Seq<(KeyEvent, T)> {
    let i = key_index(cs, k);
    if i >= 0 {
        cs.update(i, (k, t))
    } else {
        cs.push((k, t))
    }
}

impl GroupModel {
    /// The child bound at `k`.
    pub open spec fn get(self, k: KeyEvent) -> Option<TrieModel> {
        child_of(self.children, k)
    }

    /// This group with `k` bound to `t`.
    pub open spec fn with_child(self, k: KeyEvent, t: TrieModel) -> GroupModel {
        GroupModel { children: bind_child(self.children, k, t), ..self }
    }
}

/// The node reached from `t` by following `path`, if every step exists.
pub open spec fn search(t: TrieModel, path: Seq<KeyEvent>) -> Option<TrieModel>
    decreases path.len(),
{
    if path.len() == 0 {
        Some(t)
    } else {
        match t {
            TrieModel::Leaf(_) => None,
            TrieModel::Group(g) => match g.get(path[0]) {
                Some(c) => search(c, path.drop_first()),
                None => None,
            },
        }
    }
}

/// The group reached from `g` by following `path`, if there is one.
pub open spec fn group_at(g: GroupModel, path: Seq<KeyEvent>) -> Option<GroupModel> {
    match search(TrieModel::Group(g), path) {
        Some(TrieModel::Group(h)) => Some(h),
        _ => None,
    }
}

pub proof fn lemma_key_index<T>(cs: Seq<(KeyEvent, T)>, k: KeyEvent)
    ensures
        -1 <= key_index(cs, k) < cs.len(),
        key_index(cs, k) >= 0 ==> cs[key_index(cs, k)].0 == k,
        forall|j: int| 0 <= j < cs.len() && j < key_index(cs, k) ==> cs[j].0 != k,
        key_index(cs, k) < 0 ==> forall|j: int| 0 <= j < cs.len() ==> cs[j].0 != k,
    decreases cs.len(),
{
    if cs.len() > 0 {
        lemma_key_index(cs.drop_last(), k);
        assert(forall|j: int| 0 <= j < cs.len() - 1 ==> cs.drop_last()[j] == cs[j]);
    }
}

proof fn lemma_key_index_same_keys<T, U>(a: Seq<(KeyEvent, T)>, b: Seq<(KeyEvent, U)>, k: KeyEvent)
    requires
        a.len() == b.len(),
        forall|i: int| 0 <= i < a.len() ==> a[i].0 == b[i].0,
    ensures
        key_index(a, k) == key_index(b, k),
    decreases a.len(),
{
    if a.len() > 0 {
        lemma_key_index_same_keys(a.drop_last(), b.drop_last(), k);
    }
}

/// A key's first occurrence is where `key_index` points.
pub proof fn lemma_key_index_first<T>(cs: Seq<(KeyEvent, T)>, k: KeyEvent, i: int)
    requires
        0 <= i < cs.len(),
        cs[i].0 == k,
        forall|j: int| 0 <= j < i ==> cs[j].0 != k,
    ensures
        key_index(cs, k) == i,
{
    lemma_key_index(cs, k);
}

/// Binding `k` makes `k` lead to the new child and leaves every other key as it was.
pub proof fn lemma_with_child(g: GroupModel, k: KeyEvent, t: TrieModel, k2: KeyEvent)
    ensures
        g.with_child(k, t).get(k) == Some(t),
        k2 != k ==> g.with_child(k, t).get(k2) == g.get(k2),
        keys_unique(g.children) ==> keys_unique(g.with_child(k, t).children),
{
    let cs = g.children;
    let h = g.with_child(k, t).children;
    lemma_key_index(cs, k);
    lemma_key_index(cs, k2);
    lemma_key_index(h, k2);
    let i = key_index(cs, k);
    if i >= 0 {
        assert(forall|j: int| 0 <= j < i ==> h[j] == cs[j]);
        lemma_key_index_first(h, k, i);
    } else {
        assert(forall|j: int| 0 <= j < cs.len() ==> h[j] == cs[j]);
        lemma_key_index_first(h, k, cs.len() as int);
    }
    if k2 != k {
        assert(forall|j: int|
            0 <= j < cs.len() ==> h[j].0 == cs[j].0 && (h[j].0 == k2 ==> h[j] == cs[j]));
        if key_index(cs, k2) >= 0 {
            lemma_key_index_first(h, k2, key_index(cs, k2));
        } else {
            assert(forall|j: int| 0 <= j < h.len() ==> h[j].0 != k2);
        }
    }
}

impl TrieModel {
    /// Every group in the trie has unique keys.
    pub open spec fn wf(self) -> bool
        decreases self,
    {
        match self {
            TrieModel::Leaf(_) => true,
            TrieModel::Group(g) => g.wf(),
        }
    }
}

impl GroupModel {
    /// No two children share a key, here and in every group below.
    pub open spec fn wf(self) -> bool
        decreases self,
    {
        &&& keys_unique(self.children)
        &&& forall|i: int| 0 <= i < self.children.len() ==> (#[trigger] self.children[i]).1.wf()
    }
}

/// A child of a well-formed group is well-formed.
pub proof fn lemma_get_wf(g: GroupModel, k: KeyEvent)
    requires
        g.wf(),
    ensures
        g.get(k) matches Some(c) ==> c.wf(),
{
    lemma_key_index(g.children, k);
}

/// Binding a well-formed trie into a well-formed group keeps it well-formed.
pub proof fn lemma_with_child_wf(g: GroupModel, k: KeyEvent, t: TrieModel)
    requires
        g.wf(),
        t.wf(),
    ensures
        g.with_child(k, t).wf(),
{
    lemma_with_child(g, k, t, k);
    lemma_key_index(g.children, k);
    let h = g.with_child(k, t).children;
    assert forall|i: int| 0 <= i < h.len() implies (#[trigger] h[i]).1.wf() by {
        if i < g.children.len() && h[i] != (k, t) {
            assert(h[i] == g.children[i]);
        }
    }
}

/// A keymap trie: a command at a leaf, or a group of children.
#[derive(Debug, PartialEq, Eq)]
pub enum KeyTrie {
    Leaf(Command),
    Node(KeyTrieNode),
}

/// A group of the trie: display name, stickiness and children in insertion order.
#[derive(Debug, PartialEq, Eq)]
pub struct KeyTrieNode {
    pub name: String,
    pub sticky: bool,
    pub children: Vec<(KeyEvent, KeyTrie)>,
}

impl KeyTrie {
    pub open spec fn view(&self) -> TrieModel
        decreases self,
    {
        match self {
            KeyTrie::Leaf(c) => TrieModel::Leaf(*c),
            KeyTrie::Node(n) => TrieModel::Group(n.view()),
        }
    }
}

impl KeyTrieNode {
    pub open spec fn view(&self) -> GroupModel
        decreases self,
    {
        GroupModel {
            name: self.name@,
            sticky: self.sticky,
            children: Seq::new(
                self.children@.len(),
                |i: int|
                    if 0 <= i < self.children@.len() {
                        (self.children@[i].0, self.children@[i].1.view())
                    } else {
                        (self.children@[0].0, TrieModel::Leaf(Command { name: "" }))
                    },
            ),
        }
    }
}

impl KeyTrie {
    /// A copy of this trie, node for node.
    pub fn duplicate(&self) -> (r: KeyTrie)
        ensures
            r@ == self@,
        decreases self,
    {
        match self {
            KeyTrie::Leaf(c) => KeyTrie::Leaf(*c),
            KeyTrie::Node(n) => KeyTrie::Node(n.duplicate()),
        }
    }

    /// The node reached by following `keys` from this one.
    pub fn search(&self, keys: &[KeyEvent]) -> (r: Option<&KeyTrie>)
        ensures
            match r {
                Some(t) => search(self@, keys@) == Some(t@),
                None => search(self@, keys@) is None,
            },
    {
        let mut cur: &KeyTrie = self;
        let mut i: usize = 0;
        assert(keys@.skip(0) =~= keys@);
        while i < keys.len()
            invariant
                0 <= i <= keys@.len(),
                search(self@, keys@) == search(cur@, keys@.skip(i as int)),
            decreases keys@.len() - i,
        {
            assert(keys@.skip(i as int).drop_first() =~= keys@.skip(i + 1));
            match cur {
                KeyTrie::Leaf(_) => {
                    return None;
                },
                KeyTrie::Node(n) => match n.get(&keys[i]) {
                    Some(c) => {
                        cur = c;
                    },
                    None => {
                        return None;
                    },
                },
            }
            i = i + 1;
        }
        assert(keys@.skip(i as int) =~= Seq::<KeyEvent>::empty());
        Some(cur)
    }
}

impl KeyTrieNode {
    /// An empty group.
    pub fn new(name: String, sticky: bool) -> (r: KeyTrieNode)
        ensures
            r@ == (GroupModel { name: name@, sticky, children: Seq::empty() }),
            r@.wf(),
    {
        let r = KeyTrieNode { name, sticky, children: Vec::new() };
        assert(r@.children =~= Seq::empty());
        r
    }

    /// The keys of the children agree with those of the view.
    pub proof fn lemma_view_keys(&self, k: KeyEvent)
        ensures
            self@.children.len() == self.children@.len(),
            key_index(self@.children, k) == key_index(self.children@, k),
            forall|i: int|
                0 <= i < self.children@.len() ==> #[trigger] self@.children[i] == (
                self.children@[i].0,
                self.children@[i].1@,
            ),
    {
        lemma_key_index_same_keys(self@.children, self.children@, k);
    }

    /// The position of the child bound at `k`.
    pub fn find(&self, k: &KeyEvent) -> (r: Option<usize>)
        ensures
            match r {
                Some(i) => key_index(self@.children, *k) == i as int && i < self@.children.len(),
                None => key_index(self@.children, *k) == -1,
            },
    {
        proof {
            self.lemma_view_keys(*k);
            lemma_key_index(self.children@, *k);
        }
        let mut i: usize = 0;
        while i < self.children.len()
            invariant
                0 <= i <= self.children@.len(),
                forall|j: int| 0 <= j < i ==> self.children@[j].0 != *k,
                key_index(self@.children, *k) == key_index(self.children@, *k),
                -1 <= key_index(self.children@, *k) < self.children@.len(),
                key_index(self.children@, *k) >= 0 ==> self.children@[key_index(
                    self.children@,
                    *k,
                )].0 == *k,
                forall|j: int|
                    0 <= j < self.children@.len() && j < key_index(self.children@, *k)
                        ==> self.children@[j].0 != *k,
                key_index(self.children@, *k) < 0 ==> forall|j: int|
                    0 <= j < self.children@.len() ==> self.children@[j].0 != *k,
            decreases self.children@.len() - i,
        {
            if self.children[i].0 == *k {
                return Some(i);
            }
            i = i + 1;
        }
        None
    }

    /// The child bound at `k`.
    pub fn get(&self, k: &KeyEvent) -> (r: Option<&KeyTrie>)
        ensures
            match r {
                Some(t) => self@.get(*k) == Some(t@),
                None => self@.get(*k) is None,
            },
    {
        proof {
            self.lemma_view_keys(*k);
        }
        match self.find(k) {
            Some(i) => Some(&self.children[i].1),
            None => None,
        }
    }

    /// Binds `k` to `t`, replacing an existing child at `k` where it stands, else appending.
    pub fn set_child(&mut self, k: KeyEvent, t: KeyTrie)
        ensures
            final(self)@ == old(self)@.with_child(k, t@),
    {
        let ghost tv = t@;
        match self.find(&k) {
            Some(i) => {
                self.children.set(i, (k, t));
                proof {
                    old(self).lemma_view_keys(k);
                    assert(self@.children =~= old(self)@.children.update(i as int, (k, tv)));
                }
            },
            None => {
                self.children.push((k, t));
                proof {
                    assert(self@.children =~= old(self)@.children.push((k, tv)));
                }
            },
        }
    }

    /// A copy of this group, node for node.
    pub fn duplicate(&self) -> (r: KeyTrieNode)
        ensures
            r@ == self@,
        decreases self,
    {
        let mut cs: Vec<(KeyEvent, KeyTrie)> = Vec::new();
        let mut i: usize = 0;
        while i < self.children.len()
            invariant
                0 <= i <= self.children@.len(),
                cs@.len() == i,
                forall|j: int|
                    0 <= j < i ==> cs@[j].0 == self.children@[j].0 && cs@[j].1@
                        == self.children@[j].1@,
            decreases self.children@.len() - i,
        {
            let t = self.children[i].1.duplicate();
            cs.push((self.children[i].0, t));
            i = i + 1;
        }
        let r = KeyTrieNode { name: self.name.clone(), sticky: self.sticky, children: cs };
        assert(r@.children =~= self@.children);
        r
    }

    /// The group reached by following `keys` from this one.
    pub fn group_at(&self, keys: &[KeyEvent]) -> (r: Option<&KeyTrieNode>)
        ensures
            match r {
                Some(g) => group_at(self@, keys@) == Some(g@),
                None => group_at(self@, keys@) is None,
            },
    {
        let mut cur: &KeyTrieNode = self;
        let mut i: usize = 0;
        assert(keys@.skip(0) =~= keys@);
        while i < keys.len()
            invariant
                0 <= i <= keys@.len(),
                group_at(self@, keys@) == group_at(cur@, keys@.skip(i as int)),
            decreases keys@.len() - i,
        {
            assert(keys@.skip(i as int).drop_first() =~= keys@.skip(i + 1));
            match cur.get(&keys[i]) {
                Some(KeyTrie::Node(n)) => {
                    cur = n;
                },
                Some(KeyTrie::Leaf(c)) => {
                    proof {
                        let rest = keys@.skip(i as int).drop_first();
                        if rest.len() > 0 {
                            assert(search(TrieModel::Leaf(*c), rest) is None);
                        }
                    }
                    return None;
                },
                None => {
                    return None;
                },
            }
            i = i + 1;
        }
        assert(keys@.skip(i as int) =~= Seq::<KeyEvent>::empty());
        Some(cur)
    }
}

} // verus!
