use vstd::prelude::*;

use crate::key::{digit_of, escape_key, KeyEvent};
use crate::trie::{group_at, Command, GroupModel, KeyTrie, KeyTrieNode, TrieModel};

verus! {

broadcast use vstd::std_specs::vec::group_vec_axioms;

/// What feeding one key event produced.
#[derive(Clone, Copy, PartialEq, Eq, Debug)]
pub enum KeymapResult {
    /// More keys are expected: a chord is open or a count is being typed.
    Pending,
    /// A command was reached, with the count typed before it (1 when none was).
    Matched(Command, usize),
    /// An open chord was abandoned with the escape key.
    Cancelled,
    /// The key is bound nowhere in the current group.
    NotFound,
}

/// The resolver's state in one mode, as key sequences from the mode's root.
pub struct CursorModel {
    /// Keys of the open chord, counted from the return point.
    pub pending: Seq<KeyEvent>,
    /// Path of the sticky group that completed chords return to, if any.
    pub sticky: Option<Seq<KeyEvent>>,
    /// The count typed so far.
    pub count: Option<usize>,
}

pub open spec fn fresh_cursor() -> CursorModel {
    CursorModel { pending: Seq::empty(), sticky: None, count: None }
}

/// The sticky path, if it still leads to a group of `root`.
pub open spec fn live_sticky(root: GroupModel, s: CursorModel) -> Option<Seq<KeyEvent>> {
    match s.sticky {
        Some(p) => if group_at(root, p) is Some {
            Some(p)
        } else {
            None
        },
        None => None,
    }
}

pub open spec fn path_of(sticky: Option<Seq<KeyEvent>>) -> Seq<KeyEvent> {
    match sticky {
        Some(p) => p,
        None => Seq::empty(),
    }
}

/// The open chord, if it still leads to a group of `root` from the return point.
pub open spec fn live_pending(root: GroupModel, s: CursorModel) -> Seq<KeyEvent> {
    if group_at(root, path_of(live_sticky(root, s)) + s.pending) is Some {
        s.pending
    } else {
        Seq::empty()
    }
}

/// The group the cursor stands in.
pub open spec fn current_group(root: GroupModel, s: CursorModel) -> GroupModel {
    group_at(root, path_of(live_sticky(root, s)) + live_pending(root, s)).unwrap()
}

/// `count` with digit `d` appended, held at the largest `usize`.
pub open spec fn count_step(count: Option<usize>, d: nat) -> usize {
    match count {
        Some(n) => if n * 10 + d <= usize::MAX {
            (n * 10 + d) as usize
        } else {
            usize::MAX
        },
        None => d as usize,
    }
}

/// A digit key goes to the count when a count is already open, or when it is not zero and
/// the current group does not bind it.
pub open spec fn is_count_digit(cur: GroupModel, count: Option<usize>, k: KeyEvent) -> bool {
    match digit_of(k) {
        Some(d) => count is Some || (d != 0 && cur.get(k) is None),
        None => false,
    }
}

/// One transition of the resolver on key `k`, in the mode whose root group is `root`.
pub open spec fn step(root: GroupModel, s: CursorModel, k: KeyEvent) -> (
    CursorModel,
    KeymapResult,
) {
    let sticky = live_sticky(root, s);
    let pending = live_pending(root, s);
    if k == escape_key() && pending.len() > 0 {
        (CursorModel { pending: Seq::empty(), sticky, count: None }, KeymapResult::Cancelled)
    } else {
        let sticky = if k == escape_key() {
            None
        } else {
            sticky
        };
        let here = path_of(sticky) + pending;
        let cur = group_at(root, here).unwrap();
        if is_count_digit(cur, s.count, k) {
            (
                CursorModel {
                    pending,
                    sticky,
                    count: Some(count_step(s.count, digit_of(k).unwrap())),
                },
                KeymapResult::Pending,
            )
        } else {
            match cur.get(k) {
                None => (
                    CursorModel { pending: Seq::empty(), sticky, count: None },
                    KeymapResult::NotFound,
                ),
                Some(TrieModel::Leaf(c)) => (
                    CursorModel { pending: Seq::empty(), sticky, count: None },
                    KeymapResult::Matched(
                        c,
                        match s.count {
                            Some(n) => n,
                            None => 1,
                        },
                    ),
                ),
                Some(TrieModel::Group(g)) => if g.sticky {
                    (
                        CursorModel {
                            pending: Seq::empty(),
                            sticky: Some(here.push(k)),
                            count: s.count,
                        },
                        KeymapResult::Pending,
                    )
                } else {
                    (
                        CursorModel { pending: pending.push(k), sticky, count: s.count },
                        KeymapResult::Pending,
                    )
                },
            }
        }
    }
}

/// Feeds `keys` in order, starting from `s`; the result is the last transition's.
pub open spec fn run(root: GroupModel, s: CursorModel, keys: Seq<KeyEvent>) -> (
    CursorModel,
    KeymapResult,
)
    decreases keys.len(),
{
    if keys.len() == 0 {
        (s, KeymapResult::Pending)
    } else {
        step(root, run(root, s, keys.drop_last()).0, keys.last())
    }
}

fn copy_keys(a: &[KeyEvent]) -> (r: Vec<KeyEvent>)
    ensures
        r@ == a@,
{
    let mut r: Vec<KeyEvent> = Vec::new();
    let mut i: usize = 0;
    while i < a.len()
        invariant
            0 <= i <= a@.len(),
            r@ == a@.take(i as int),
        decreases a@.len() - i,
    {
        r.push(a[i]);
        assert(a@.take(i + 1) =~= a@.take(i as int).push(a@[i as int]));
        i = i + 1;
    }
    assert(a@.take(a@.len() as int) =~= a@);
    r
}

fn join_keys(a: &[KeyEvent], b: &[KeyEvent]) -> (r: Vec<KeyEvent>)
    ensures
        r@ == a@ + b@,
{
    let mut r = copy_keys(a);
    let mut i: usize = 0;
    while i < b.len()
        invariant
            0 <= i <= b@.len(),
            r@ == a@ + b@.take(i as int),
        decreases b@.len() - i,
    {
        r.push(b[i]);
        assert(a@ + b@.take(i + 1) =~= (a@ + b@.take(i as int)).push(b@[i as int]));
        i = i + 1;
    }
    assert(b@.take(b@.len() as int) =~= b@);
    r
}

/// The resolver's position inside one mode's keymap.
pub struct Cursor {
    pending: Vec<KeyEvent>,
    sticky: Option<Vec<KeyEvent>>,
    count: Option<usize>,
}

impl Cursor {
    pub closed spec fn view(&self) -> CursorModel {
        CursorModel {
            pending: self.pending@,
            sticky: match self.sticky {
                Some(p) => Some(p@),
                None => None,
            },
            count: self.count,
        }
    }

    /// A cursor at the root, with no count.
    pub fn new() -> (r: Cursor)
        ensures
            r@ == fresh_cursor(),
    {
        let r = Cursor { pending: Vec::new(), sticky: None, count: None };
        assert(r@.pending =~= Seq::<KeyEvent>::empty());
        r
    }

    /// Returns to the root and forgets the count and any sticky group.
    pub fn reset(&mut self)
        ensures
            final(self)@ == fresh_cursor(),
    {
        *self = Cursor::new();
    }

    /// Keys of the open chord, counted from the return point.
    pub fn pending(&self) -> (r: &[KeyEvent])
        ensures
            r@ == self@.pending,
    {
        self.pending.as_slice()
    }

    /// The count typed so far.
    pub fn count(&self) -> (r: Option<usize>)
        ensures
            r == self@.count,
    {
        self.count
    }

    /// Whether a sticky group is the return point.
    pub fn is_sticky(&self) -> (r: bool)
        ensures
            r == self@.sticky is Some,
    {
        self.sticky.is_some()
    }

    /// The group the cursor stands in, for a caller that shows what can be pressed next.
    pub fn current<'a>(&self, root: &'a KeyTrieNode) -> (r: &'a KeyTrieNode)
        ensures
            r@ == current_group(root@, self@),
    {
        let (sticky, pending) = self.live_paths(root);
        let base = match &sticky {
            Some(p) => copy_keys(p.as_slice()),
            None => Vec::new(),
        };
        let here = join_keys(base.as_slice(), pending.as_slice());
        match root.group_at(here.as_slice()) {
            Some(g) => g,
            None => root,
        }
    }

    fn live_paths(&self, root: &KeyTrieNode) -> (r: (Option<Vec<KeyEvent>>, Vec<KeyEvent>))
        ensures
            opt_view(r.0) == live_sticky(root@, self@),
            r.1@ == live_pending(root@, self@),
            group_at(root@, path_of(opt_view(r.0)) + r.1@) is Some,
    {
        let sticky: Option<Vec<KeyEvent>> = match &self.sticky {
            Some(p) => if root.group_at(p.as_slice()).is_some() {
                Some(copy_keys(p.as_slice()))
            } else {
                None
            },
            None => None,
        };
        let base = match &sticky {
            Some(p) => copy_keys(p.as_slice()),
            None => Vec::new(),
        };
        assert(base@ == path_of(opt_view(sticky)));
        let here = join_keys(base.as_slice(), self.pending.as_slice());
        let pending = if root.group_at(here.as_slice()).is_some() {
            copy_keys(self.pending.as_slice())
        } else {
            Vec::new()
        };
        proof {
            assert(base@ + Seq::<KeyEvent>::empty() =~= base@);
            assert(group_at(root@, Seq::<KeyEvent>::empty()) == Some(root@));
            if pending@.len() == 0 {
                assert(pending@ =~= Seq::<KeyEvent>::empty());
            }
        }
        (sticky, pending)
    }

    /// Feeds one key event in the mode whose root group is `root`. Escape abandons an open
    /// chord, or else leaves the sticky group before it is looked up; a digit may extend the
    /// count; otherwise the key is looked up in the current group. A command or a miss sends
    /// the cursor back to its return point, entering a sticky group makes it the return point.
    /// Paths that no longer lead to a group of `root` (after a reload) count as the root.
    pub fn feed(&mut self, root: &KeyTrieNode, key: KeyEvent) -> (r: KeymapResult)
        ensures
            (final(self)@, r) == step(root@, old(self)@, key),
    {
        let (sticky, pending) = self.live_paths(root);
        let esc = key.is_escape();
        if esc && pending.len() > 0 {
            *self = Cursor { pending: Vec::new(), sticky, count: None };
            assert(self@.pending =~= Seq::<KeyEvent>::empty());
            return KeymapResult::Cancelled;
        }
        let sticky = if esc {
            None
        } else {
            sticky
        };
        proof {
            if esc {
                assert(pending@ =~= Seq::<KeyEvent>::empty());
                assert(path_of(opt_view(sticky)) + pending@ =~= Seq::<KeyEvent>::empty());
                assert(group_at(root@, Seq::<KeyEvent>::empty()) == Some(root@));
            }
        }
        let base = match &sticky {
            Some(p) => copy_keys(p.as_slice()),
            None => Vec::new(),
        };
        let here = join_keys(base.as_slice(), pending.as_slice());
        let cur = match root.group_at(here.as_slice()) {
            Some(g) => g,
            None => root,
        };
        let found = cur.get(&key);
        if let Some(d) = key.digit() {
            if self.count.is_some() || (d != 0 && found.is_none()) {
                let d = d as usize;
                let n: usize = match self.count {
                    Some(c) => if c <= (usize::MAX - d) / 10 {
                        proof {
                            assert(c * 10 + d <= usize::MAX) by (nonlinear_arith)
                                requires
                                    c <= (usize::MAX - d) / 10,
                                    d <= 9,
                            ;
                        }
                        c * 10 + d
                    } else {
                        proof {
                            assert(c * 10 + d > usize::MAX) by (nonlinear_arith)
                                requires
                                    c > (usize::MAX - d) / 10,
                                    d <= 9,
                            ;
                        }
                        usize::MAX
                    },
                    None => d,
                };
                *self = Cursor { pending, sticky, count: Some(n) };
                return KeymapResult::Pending;
            }
        }
        match found {
            None => {
                *self = Cursor { pending: Vec::new(), sticky, count: None };
                assert(self@.pending =~= Seq::<KeyEvent>::empty());
                KeymapResult::NotFound
            },
            Some(KeyTrie::Leaf(c)) => {
                let n = match self.count {
                    Some(n) => n,
                    None => 1,
                };
                *self = Cursor { pending: Vec::new(), sticky, count: None };
                assert(self@.pending =~= Seq::<KeyEvent>::empty());
                KeymapResult::Matched(*c, n)
            },
            Some(KeyTrie::Node(g)) => {
                if g.sticky {
                    let mut p = here;
                    p.push(key);
                    *self = Cursor { pending: Vec::new(), sticky: Some(p), count: self.count };
                    assert(self@.pending =~= Seq::<KeyEvent>::empty());
                } else {
                    let mut p = pending;
                    p.push(key);
                    *self = Cursor { pending: p, sticky, count: self.count };
                }
                KeymapResult::Pending
            },
        }
    }
}

pub open spec fn opt_view(p: Option<Vec<KeyEvent>>) -> Option<Seq<KeyEvent>> {
    match p {
        Some(v) => Some(v@),
        None => None,
    }
}

} // verus!
