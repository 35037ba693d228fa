use vstd::prelude::*;

use crate::builder::{bind_all, diverge, lemma_bind_all_reaches};
use crate::key::{digit_of, escape_key, KeyEvent};
use crate::merge::{merge_children, merge_group};
use crate::resolver::{
    current_group, fresh_cursor, is_count_digit, live_sticky, run, step, CursorModel,
    KeymapResult,
};
use crate::trie::{
    bind_child, child_of, group_at, key_index, keys_unique, lemma_key_index, lemma_with_child,
    search, Command, GroupModel, TrieModel,
};

verus! {

/// What the resolver reports on reaching `t` at the end of a chord typed without a count.
pub open spec fn outcome_of(t: TrieModel) -> KeymapResult {
    match t {
        TrieModel::Leaf(c) => KeymapResult::Matched(c, 1),
        TrieModel::Group(_) => KeymapResult::Pending,
    }
}

/// A path that leads somewhere from `root`, passes through no sticky group before its end, and
/// holds no escape key after its first key.
pub open spec fn plain_path(root: GroupModel, p: Seq<KeyEvent>) -> bool {
    &&& p.len() > 0
    &&& search(TrieModel::Group(root), p) is Some
    &&& forall|i: int|
        1 <= i < p.len() ==> match #[trigger] group_at(root, p.take(i)) {
            Some(g) => !g.sticky,
            None => false,
        }
    &&& forall|i: int| 1 <= i < p.len() ==> p[i] != escape_key()
}

/// Following one more key from where a path leads.
pub proof fn lemma_search_push(t: TrieModel, p: Seq<KeyEvent>, k: KeyEvent)
    ensures
        search(t, p.push(k)) == match search(t, p) {
            Some(TrieModel::Group(g)) => g.get(k),
            _ => None,
        },
    decreases p.len(),
{
    if p.len() == 0 {
        assert(p.push(k).drop_first() =~= Seq::<KeyEvent>::empty());
        match t {
            TrieModel::Leaf(_) => {},
            TrieModel::Group(g) => match g.get(k) {
                Some(c) => {
                    assert(search(c, Seq::<KeyEvent>::empty()) == Some(c));
                },
                None => {},
            },
        }
    } else {
        assert(p.push(k).drop_first() =~= p.drop_first().push(k));
        assert(p.push(k)[0] == p[0]);
        match t {
            TrieModel::Leaf(_) => {},
            TrieModel::Group(g) => match g.get(p[0]) {
                Some(c) => {
                    lemma_search_push(c, p.drop_first(), k);
                },
                None => {},
            },
        }
    }
}

proof fn lemma_plain_prefix(root: GroupModel, p: Seq<KeyEvent>, i: int)
    requires
        plain_path(root, p),
        0 <= i < p.len(),
    ensures
        run(root, fresh_cursor(), p.take(i)) == (
        CursorModel { pending: p.take(i), sticky: None, count: None },
        KeymapResult::Pending,
        ),
        group_at(root, p.take(i)) is Some,
    decreases i,
{
    if i == 0 {
        assert(p.take(0) =~= Seq::<KeyEvent>::empty());
        assert(group_at(root, Seq::<KeyEvent>::empty()) == Some(root));
    } else {
        lemma_plain_prefix(root, p, i - 1);
        let q = p.take(i - 1);
        let k = p[i - 1];
        assert(p.take(i).drop_last() =~= q);
        assert(p.take(i) =~= q.push(k));
        assert(p.take(i).last() == k);
        lemma_search_push(TrieModel::Group(root), q, k);
        let s = CursorModel { pending: q, sticky: None, count: None };
        assert(Seq::<KeyEvent>::empty() + q =~= q);
        let cur = group_at(root, q).unwrap();
        assert(current_group(root, s) == cur);
        let g = group_at(root, p.take(i)).unwrap();
        assert(cur.get(k) == Some(TrieModel::Group(g)));
        assert(!is_count_digit(cur, None, k));
        assert(step(root, s, k) == (
            CursorModel { pending: q.push(k), sticky: None, count: None },
            KeymapResult::Pending,
        ));
    }
}

/// Typing a plain path from a fresh cursor reports what the path leads to.
pub proof fn lemma_plain_path_outcome(root: GroupModel, p: Seq<KeyEvent>)
    requires
        plain_path(root, p),
    ensures
        run(root, fresh_cursor(), p).1 == outcome_of(search(TrieModel::Group(root), p).unwrap()),
{
    let n = p.len() - 1;
    lemma_plain_prefix(root, p, n);
    let q = p.take(n);
    let k = p[n];
    assert(p.drop_last() =~= q);
    assert(p =~= q.push(k));
    lemma_search_push(TrieModel::Group(root), q, k);
    let s = CursorModel { pending: q, sticky: None, count: None };
    assert(Seq::<KeyEvent>::empty() + q =~= q);
    let cur = group_at(root, q).unwrap();
    assert(current_group(root, s) == cur);
    assert(cur.get(k) is Some);
    assert(!is_count_digit(cur, None, k));
}

/// Alias equivalence: two plain paths that lead to the same destination report the same
/// outcome when typed from a fresh cursor.
pub proof fn lemma_alias_equivalence(root: GroupModel, p1: Seq<KeyEvent>, p2: Seq<KeyEvent>)
    requires
        plain_path(root, p1),
        plain_path(root, p2),
        search(TrieModel::Group(root), p1) == search(TrieModel::Group(root), p2),
    ensures
        run(root, fresh_cursor(), p1).1 == run(root, fresh_cursor(), p2).1,
{
    lemma_plain_path_outcome(root, p1);
    lemma_plain_path_outcome(root, p2);
}

/// Alias equivalence for a built map: after a prefix-free alias set is bound to one target,
/// any two of its aliases that are plain paths report the same outcome from a fresh cursor.
pub proof fn lemma_bound_aliases_equivalent(
    g: GroupModel,
    aliases: Seq<Seq<KeyEvent>>,
    t: TrieModel,
    m: int,
    n: int,
)
    requires
        0 <= m < aliases.len(),
        0 <= n < aliases.len(),
        forall|i: int| 0 <= i < aliases.len() ==> (#[trigger] aliases[i]).len() > 0,
        forall|i: int, j: int| 0 <= i < j < aliases.len() ==> diverge(aliases[i], aliases[j]),
        plain_path(bind_all(g, aliases, t), aliases[m]),
        plain_path(bind_all(g, aliases, t), aliases[n]),
    ensures
        run(bind_all(g, aliases, t), fresh_cursor(), aliases[m]).1 == run(
            bind_all(g, aliases, t),
            fresh_cursor(),
            aliases[n],
        ).1,
        run(bind_all(g, aliases, t), fresh_cursor(), aliases[m]).1 == outcome_of(t),
{
    lemma_bind_all_reaches(g, aliases, t, m);
    lemma_bind_all_reaches(g, aliases, t, n);
    lemma_alias_equivalence(bind_all(g, aliases, t), aliases[m], aliases[n]);
    lemma_plain_path_outcome(bind_all(g, aliases, t), aliases[m]);
}

proof fn lemma_merge_children_get(
    base: Seq<(KeyEvent, TrieModel)>,
    overlay: Seq<(KeyEvent, TrieModel)>,
    k: KeyEvent,
)
    requires
        keys_unique(overlay),
    ensures
        child_of(overlay, k) is None ==> child_of(merge_children(base, overlay), k) == child_of(
            base,
            k,
        ),
        child_of(overlay, k) matches Some(t) ==> !(child_of(base, k) matches Some(
            TrieModel::Group(_),
        ) && t is Group) ==> child_of(merge_children(base, overlay), k) == Some(t),
        (child_of(overlay, k), child_of(base, k)) matches (
            Some(TrieModel::Group(og)),
            Some(TrieModel::Group(bg)),
        ) ==> child_of(merge_children(base, overlay), k) == Some(
            TrieModel::Group(merge_group(bg, og)),
        ),
    decreases overlay.len(),
{
    if overlay.len() > 0 {
        let init = overlay.drop_last();
        assert(keys_unique(init));
        lemma_merge_children_get(base, init, k);
        let prev = merge_children(base, init);
        let k2 = overlay.last().0;
        let t2 = overlay.last().1;
        let g = GroupModel { name: Seq::empty(), sticky: false, children: prev };
        let v = match (child_of(prev, k2), t2) {
            (Some(TrieModel::Group(bg)), TrieModel::Group(og)) => TrieModel::Group(
                merge_group(bg, og),
            ),
            _ => t2,
        };
        assert(merge_children(base, overlay) == bind_child(prev, k2, v));
        lemma_with_child(g, k2, v, k);
        lemma_key_index(overlay, k);
        lemma_key_index(init, k);
        assert(forall|j: int| 0 <= j < init.len() ==> init[j] == overlay[j]);
        if k2 == k {
            assert(forall|j: int| 0 <= j < init.len() ==> init[j].0 != k);
            assert(key_index(init, k) == -1);
            crate::trie::lemma_key_index_first(overlay, k, overlay.len() - 1);
        } else {
            if key_index(init, k) >= 0 {
                crate::trie::lemma_key_index_first(overlay, k, key_index(init, k));
            } else {
                assert(forall|j: int| 0 <= j < overlay.len() ==> overlay[j].0 != k);
            }
        }
    }
}

/// At a key where the overlay's binding and the base's are not both groups, the merged map
/// holds the overlay's binding; where both are groups, it holds their merge; a key the overlay
/// does not bind keeps the base's binding.
pub proof fn lemma_merge_overlay_wins(base: GroupModel, overlay: GroupModel, k: KeyEvent)
    requires
        keys_unique(overlay.children),
    ensures
        overlay.get(k) is None ==> merge_group(base, overlay).get(k) == base.get(k),
        overlay.get(k) matches Some(t) ==> !(base.get(k) matches Some(TrieModel::Group(_))
            && t is Group) ==> merge_group(base, overlay).get(k) == Some(t),
        (overlay.get(k), base.get(k)) matches (
            Some(TrieModel::Group(og)),
            Some(TrieModel::Group(bg)),
        ) ==> merge_group(base, overlay).get(k) == Some(TrieModel::Group(merge_group(bg, og))),
{
    lemma_merge_children_get(base.children, overlay.children, k);
}

/// Merging is not commutative: where two maps bind one key to different commands, each
/// merge order keeps the command of the map merged on top.
pub proof fn lemma_merge_not_commutative(
    a: GroupModel,
    b: GroupModel,
    k: KeyEvent,
    ca: Command,
    cb: Command,
)
    requires
        keys_unique(a.children),
        keys_unique(b.children),
        a.get(k) == Some(TrieModel::Leaf(ca)),
        b.get(k) == Some(TrieModel::Leaf(cb)),
        ca != cb,
    ensures
        merge_group(a, b).get(k) == Some(TrieModel::Leaf(cb)),
        merge_group(b, a).get(k) == Some(TrieModel::Leaf(ca)),
        merge_group(a, b) != merge_group(b, a),
{
    lemma_merge_overlay_wins(a, b, k);
    lemma_merge_overlay_wins(b, a, k);
}

/// Count accumulation: a nonzero digit the root does not bind, a second digit, then a key bound
/// to a command report that command with the two digits read as a decimal count.
pub proof fn lemma_count_prefix(
    root: GroupModel,
    d1: KeyEvent,
    d2: KeyEvent,
    k: KeyEvent,
    c: Command,
)
    requires
        digit_of(d1) matches Some(a) && a != 0,
        root.get(d1) is None,
        digit_of(d2) is Some,
        digit_of(k) is None,
        root.get(k) == Some(TrieModel::Leaf(c)),
    ensures
        run(root, fresh_cursor(), seq![d1, d2, k]).1 == KeymapResult::Matched(
            c,
            (10 * digit_of(d1).unwrap() + digit_of(d2).unwrap()) as usize,
        ),
{
    let a = digit_of(d1).unwrap();
    let b = digit_of(d2).unwrap();
    let e = Seq::<KeyEvent>::empty();
    assert(seq![d1, d2, k].drop_last() =~= seq![d1, d2]);
    assert(seq![d1, d2].drop_last() =~= seq![d1]);
    assert(seq![d1].drop_last() =~= e);
    assert(e + e =~= e);
    assert(group_at(root, e) == Some(root));
    let s1 = CursorModel { pending: e, sticky: None, count: Some(a as usize) };
    assert(step(root, fresh_cursor(), d1) == (s1, KeymapResult::Pending));
    let s2 = CursorModel { pending: e, sticky: None, count: Some((a * 10 + b) as usize) };
    assert(a * 10 + b <= 99);
    assert(step(root, s1, d2) == (s2, KeymapResult::Pending));
    assert(current_group(root, s2) == root);
    assert(run(root, fresh_cursor(), e) == (fresh_cursor(), KeymapResult::Pending));
    assert(run(root, fresh_cursor(), seq![d1]) == step(root, fresh_cursor(), d1));
    assert(run(root, fresh_cursor(), seq![d1, d2]) == step(root, s1, d2));
    assert(run(root, fresh_cursor(), seq![d1, d2, k]) == step(root, s2, k));
}

/// A zero typed first is looked up as a key, not read as a count.
pub proof fn lemma_leading_zero(root: GroupModel, z: KeyEvent, c: Command)
    requires
        digit_of(z) == Some(0nat),
        root.get(z) == Some(TrieModel::Leaf(c)),
    ensures
        step(root, fresh_cursor(), z) == (fresh_cursor(), KeymapResult::Matched(c, 1)),
{
    let e = Seq::<KeyEvent>::empty();
    assert(e + e =~= e);
    assert(group_at(root, e) == Some(root));
}

/// Sticky persistence: after a command inside a sticky group, the next key is looked up in
/// that group again, without re-entering it.
pub proof fn lemma_sticky_persists(
    root: GroupModel,
    k1: KeyEvent,
    g: GroupModel,
    k2: KeyEvent,
    c2: Command,
    k3: KeyEvent,
    c3: Command,
)
    requires
        root.get(k1) == Some(TrieModel::Group(g)),
        g.sticky,
        g.get(k2) == Some(TrieModel::Leaf(c2)),
        g.get(k3) == Some(TrieModel::Leaf(c3)),
        k2 != escape_key(),
        k3 != escape_key(),
    ensures
        run(root, fresh_cursor(), seq![k1, k2]).1 == KeymapResult::Matched(c2, 1),
        current_group(root, run(root, fresh_cursor(), seq![k1, k2]).0) == g,
        run(root, fresh_cursor(), seq![k1, k2, k3]).1 == KeymapResult::Matched(c3, 1),
{
    let e = Seq::<KeyEvent>::empty();
    assert(seq![k1, k2, k3].drop_last() =~= seq![k1, k2]);
    assert(seq![k1, k2].drop_last() =~= seq![k1]);
    assert(seq![k1].drop_last() =~= e);
    assert(e + e =~= e);
    assert(group_at(root, e) == Some(root));
    assert(e.push(k1) =~= seq![k1]);
    assert(seq![k1] + e =~= seq![k1]);
    lemma_search_push(TrieModel::Group(root), e, k1);
    assert(group_at(root, seq![k1]) == Some(g));
    let s1 = CursorModel { pending: e, sticky: Some(seq![k1]), count: None };
    assert(step(root, fresh_cursor(), k1) == (s1, KeymapResult::Pending));
    assert(current_group(root, s1) == g);
    assert(step(root, s1, k2) == (s1, KeymapResult::Matched(c2, 1)));
    assert(step(root, s1, k3) == (s1, KeymapResult::Matched(c3, 1)));
    assert(run(root, fresh_cursor(), e) == (fresh_cursor(), KeymapResult::Pending));
    assert(run(root, fresh_cursor(), seq![k1]) == step(root, fresh_cursor(), k1));
    assert(run(root, fresh_cursor(), seq![k1, k2]) == step(root, s1, k2));
    assert(run(root, fresh_cursor(), seq![k1, k2, k3]) == step(root, s1, k3));
}

/// Non-sticky reset: a command reached through a non-sticky group leaves the cursor exactly as
/// a fresh one, so the next key resolves as at startup.
pub proof fn lemma_non_sticky_reset(
    root: GroupModel,
    k1: KeyEvent,
    g: GroupModel,
    k2: KeyEvent,
    c: Command,
    k: KeyEvent,
)
    requires
        root.get(k1) == Some(TrieModel::Group(g)),
        !g.sticky,
        g.get(k2) == Some(TrieModel::Leaf(c)),
        k2 != escape_key(),
    ensures
        run(root, fresh_cursor(), seq![k1, k2]) == (fresh_cursor(), KeymapResult::Matched(c, 1)),
        step(root, run(root, fresh_cursor(), seq![k1, k2]).0, k) == step(root, fresh_cursor(), k),
{
    let e = Seq::<KeyEvent>::empty();
    assert(seq![k1, k2].drop_last() =~= seq![k1]);
    assert(seq![k1].drop_last() =~= e);
    assert(e + e =~= e);
    assert(group_at(root, e) == Some(root));
    assert(e.push(k1) =~= seq![k1]);
    assert(e + seq![k1] =~= seq![k1]);
    lemma_search_push(TrieModel::Group(root), e, k1);
    assert(group_at(root, seq![k1]) == Some(g));
    let s1 = CursorModel { pending: seq![k1], sticky: None, count: None };
    assert(step(root, fresh_cursor(), k1) == (s1, KeymapResult::Pending));
    assert(current_group(root, s1) == g);
    assert(step(root, s1, k2) == (fresh_cursor(), KeymapResult::Matched(c, 1)));
    assert(run(root, fresh_cursor(), e) == (fresh_cursor(), KeymapResult::Pending));
    assert(run(root, fresh_cursor(), seq![k1]) == step(root, fresh_cursor(), k1));
    assert(run(root, fresh_cursor(), seq![k1, k2]) == step(root, s1, k2));
}

/// Unknown key: a key that is not taken as a count digit and is bound nowhere in the current
/// group reports that it was not found, closes the chord and drops the count.
pub proof fn lemma_unknown_key(root: GroupModel, s: CursorModel, k: KeyEvent)
    requires
        k != escape_key(),
        !is_count_digit(current_group(root, s), s.count, k),
        current_group(root, s).get(k) is None,
    ensures
        step(root, s, k) == (
            CursorModel { pending: Seq::empty(), sticky: live_sticky(root, s), count: None },
            KeymapResult::NotFound,
        ),
{
}

/// A single key bound to a command, typed from a fresh cursor, reports it and leaves the cursor
/// fresh.
pub proof fn lemma_single_key(root: GroupModel, k: KeyEvent, c: Command)
    requires
        root.get(k) == Some(TrieModel::Leaf(c)),
    ensures
        step(root, fresh_cursor(), k) == (fresh_cursor(), KeymapResult::Matched(c, 1)),
        run(root, fresh_cursor(), seq![k]) == (fresh_cursor(), KeymapResult::Matched(c, 1)),
{
    let e = Seq::<KeyEvent>::empty();
    assert(seq![k].drop_last() =~= e);
    assert(e + e =~= e);
    assert(group_at(root, e) == Some(root));
    assert(run(root, fresh_cursor(), e) == (fresh_cursor(), KeymapResult::Pending));
}

/// A zero the root does not bind is not found, and what follows resolves from a fresh cursor.
pub proof fn lemma_unbound_zero(root: GroupModel, z: KeyEvent, k: KeyEvent, c: Command)
    requires
        digit_of(z) == Some(0nat),
        root.get(z) is None,
        root.get(k) == Some(TrieModel::Leaf(c)),
    ensures
        step(root, fresh_cursor(), z) == (fresh_cursor(), KeymapResult::NotFound),
        run(root, fresh_cursor(), seq![z, k]) == (fresh_cursor(), KeymapResult::Matched(c, 1)),
{
    let e = Seq::<KeyEvent>::empty();
    assert(seq![z, k].drop_last() =~= seq![z]);
    assert(seq![z].drop_last() =~= e);
    assert(e + e =~= e);
    assert(group_at(root, e) == Some(root));
    assert(run(root, fresh_cursor(), e) == (fresh_cursor(), KeymapResult::Pending));
    assert(step(root, fresh_cursor(), z) == (fresh_cursor(), KeymapResult::NotFound));
    assert(run(root, fresh_cursor(), seq![z]) == step(root, fresh_cursor(), z));
}

/// From a fresh cursor (or one holding only a count), a key bound to a non-sticky group opens
/// a chord inside it.
pub proof fn lemma_enter_group(root: GroupModel, s: CursorModel, k1: KeyEvent, g: GroupModel)
    requires
        s.pending.len() == 0,
        s.sticky is None,
        s.count is None || digit_of(k1) is None,
        root.get(k1) == Some(TrieModel::Group(g)),
        !g.sticky,
    ensures
        step(root, s, k1) == (
            CursorModel { pending: seq![k1], sticky: None, count: s.count },
            KeymapResult::Pending,
        ),
        current_group(root, CursorModel { pending: seq![k1], sticky: None, count: s.count }) == g,
{
    let e = Seq::<KeyEvent>::empty();
    assert(e + e =~= e);
    assert(s.pending =~= e);
    assert(group_at(root, e) == Some(root));
    assert(e.push(k1) =~= seq![k1]);
    assert(e + seq![k1] =~= seq![k1]);
    lemma_search_push(TrieModel::Group(root), e, k1);
    assert(group_at(root, seq![k1]) == Some(g));
}

/// A nonzero count digit the root does not bind, a key entering a non-sticky group, and a last
/// key: the command is reported with the digit as its count, and a miss is not found; either
/// way the cursor is left fresh.
pub proof fn lemma_counted_chord(
    root: GroupModel,
    d: KeyEvent,
    k1: KeyEvent,
    g: GroupModel,
    k2: KeyEvent,
)
    requires
        digit_of(d) matches Some(a) && a != 0,
        root.get(d) is None,
        root.get(k1) == Some(TrieModel::Group(g)),
        !g.sticky,
        digit_of(k1) is None,
        k2 != escape_key(),
        digit_of(k2) is None,
    ensures
        g.get(k2) matches Some(TrieModel::Leaf(c)) ==> run(root, fresh_cursor(), seq![d, k1, k2])
            == (fresh_cursor(), KeymapResult::Matched(c, digit_of(d).unwrap() as usize)),
        g.get(k2) is None ==> run(root, fresh_cursor(), seq![d, k1, k2]) == (
            fresh_cursor(),
            KeymapResult::NotFound,
        ),
{
    let a = digit_of(d).unwrap();
    let e = Seq::<KeyEvent>::empty();
    assert(seq![d, k1, k2].drop_last() =~= seq![d, k1]);
    assert(seq![d, k1].drop_last() =~= seq![d]);
    assert(seq![d].drop_last() =~= e);
    assert(e + e =~= e);
    assert(group_at(root, e) == Some(root));
    let s1 = CursorModel { pending: e, sticky: None, count: Some(a as usize) };
    assert(step(root, fresh_cursor(), d) == (s1, KeymapResult::Pending));
    lemma_enter_group(root, s1, k1, g);
    let s2 = CursorModel { pending: seq![k1], sticky: None, count: Some(a as usize) };
    assert(run(root, fresh_cursor(), e) == (fresh_cursor(), KeymapResult::Pending));
    assert(run(root, fresh_cursor(), seq![d]) == step(root, fresh_cursor(), d));
    assert(run(root, fresh_cursor(), seq![d, k1]) == step(root, s1, k1));
    assert(run(root, fresh_cursor(), seq![d, k1, k2]) == step(root, s2, k2));
}

/// A key entering a non-sticky group, then a key it does not bind: not found, cursor fresh.
pub proof fn lemma_chord_miss(root: GroupModel, k1: KeyEvent, g: GroupModel, x: KeyEvent)
    requires
        root.get(k1) == Some(TrieModel::Group(g)),
        !g.sticky,
        g.get(x) is None,
        x != escape_key(),
        digit_of(x) is None,
    ensures
        run(root, fresh_cursor(), seq![k1, x]) == (fresh_cursor(), KeymapResult::NotFound),
{
    let e = Seq::<KeyEvent>::empty();
    assert(seq![k1, x].drop_last() =~= seq![k1]);
    assert(seq![k1].drop_last() =~= e);
    lemma_enter_group(root, fresh_cursor(), k1, g);
    let s1 = CursorModel { pending: seq![k1], sticky: None, count: None };
    assert(run(root, fresh_cursor(), e) == (fresh_cursor(), KeymapResult::Pending));
    assert(run(root, fresh_cursor(), seq![k1]) == step(root, fresh_cursor(), k1));
    assert(run(root, fresh_cursor(), seq![k1, x]) == step(root, s1, x));
}

/// Three keys through two non-sticky groups to a command: reported with count 1, cursor fresh.
pub proof fn lemma_three_key_chord(
    root: GroupModel,
    k1: KeyEvent,
    g1: GroupModel,
    k2: KeyEvent,
    g2: GroupModel,
    k3: KeyEvent,
    c: Command,
)
    requires
        root.get(k1) == Some(TrieModel::Group(g1)),
        !g1.sticky,
        g1.get(k2) == Some(TrieModel::Group(g2)),
        !g2.sticky,
        g2.get(k3) == Some(TrieModel::Leaf(c)),
        k2 != escape_key(),
        k3 != escape_key(),
    ensures
        run(root, fresh_cursor(), seq![k1, k2, k3]) == (
            fresh_cursor(),
            KeymapResult::Matched(c, 1),
        ),
{
    let e = Seq::<KeyEvent>::empty();
    assert(seq![k1, k2, k3].drop_last() =~= seq![k1, k2]);
    assert(seq![k1, k2].drop_last() =~= seq![k1]);
    assert(seq![k1].drop_last() =~= e);
    lemma_enter_group(root, fresh_cursor(), k1, g1);
    let s1 = CursorModel { pending: seq![k1], sticky: None, count: None };
    assert(seq![k1].push(k2) =~= seq![k1, k2]);
    assert(e + seq![k1] =~= seq![k1]);
    assert(e + seq![k1, k2] =~= seq![k1, k2]);
    assert(e.push(k1) =~= seq![k1]);
    lemma_search_push(TrieModel::Group(root), e, k1);
    assert(group_at(root, e) == Some(root));
    assert(search(TrieModel::Group(root), seq![k1]) == Some(TrieModel::Group(g1)));
    lemma_search_push(TrieModel::Group(root), seq![k1], k2);
    assert(group_at(root, seq![k1, k2]) == Some(g2));
    let s2 = CursorModel { pending: seq![k1, k2], sticky: None, count: None };
    assert(step(root, s1, k2) == (s2, KeymapResult::Pending));
    assert(current_group(root, s2) == g2);
    assert(run(root, fresh_cursor(), e) == (fresh_cursor(), KeymapResult::Pending));
    assert(run(root, fresh_cursor(), seq![k1]) == step(root, fresh_cursor(), k1));
    assert(run(root, fresh_cursor(), seq![k1, k2]) == step(root, s1, k2));
    assert(run(root, fresh_cursor(), seq![k1, k2, k3]) == step(root, s2, k3));
}

} // verus!
