use vstd::prelude::*;

use crate::key::{digit_of, no_modifiers, KeyCode, KeyEvent, KeyModifiers};
use crate::keymaps::ModeMaps;
use crate::laws::{
    lemma_chord_miss, lemma_count_prefix, lemma_counted_chord, lemma_enter_group,
    lemma_merge_overlay_wins, lemma_non_sticky_reset, lemma_single_key, lemma_sticky_persists,
    lemma_three_key_chord, lemma_unbound_zero,
};
use crate::resolver::{fresh_cursor, run, step, KeymapResult};
use crate::merge::merge_group;
use crate::trie::{
    lemma_with_child, lemma_with_child_wf, Command, GroupModel, KeyTrie, KeyTrieNode, TrieModel,
};

verus! {

pub open spec fn key_ch(c: char) -> KeyEvent {
    KeyEvent { code: KeyCode::Char(c), modifiers: no_modifiers() }
}

pub open spec fn key_ctrl(c: char) -> KeyEvent {
    KeyEvent {
        code: KeyCode::Char(c),
        modifiers: KeyModifiers { ctrl: true, alt: false, shift: false },
    }
}

pub open spec fn key_alt(code: KeyCode) -> KeyEvent {
    KeyEvent { code, modifiers: KeyModifiers { ctrl: false, alt: true, shift: false } }
}

pub open spec fn key_shift(code: KeyCode) -> KeyEvent {
    KeyEvent { code, modifiers: KeyModifiers { ctrl: false, alt: false, shift: true } }
}

pub open spec fn key_named(code: KeyCode) -> KeyEvent {
    KeyEvent { code, modifiers: no_modifiers() }
}

/// A leaf bound to the command called `name`.
pub open spec fn cmd(name: &'static str) -> TrieModel {
    TrieModel::Leaf(Command { name })
}

/// An empty group.
pub open spec fn named_group(name: Seq<char>, sticky: bool) -> GroupModel {
    GroupModel { name, sticky, children: Seq::empty() }
}

/// Every child is a command.
pub open spec fn flat(g: GroupModel) -> bool {
    forall|i: int| 0 <= i < g.children.len() ==> (#[trigger] g.children[i]).1 is Leaf
}

fn ch(c: char) -> (r: KeyEvent)
    ensures
        r == key_ch(c),
{
    KeyEvent::ch(c)
}

fn ctrl(c: char) -> (r: KeyEvent)
    ensures
        r == key_ctrl(c),
{
    KeyEvent::ctrl(c)
}

fn alt(code: KeyCode) -> (r: KeyEvent)
    ensures
        r == key_alt(code),
{
    KeyEvent::alt(code)
}

fn shift(code: KeyCode) -> (r: KeyEvent)
    ensures
        r == key_shift(code),
{
    KeyEvent::shift(code)
}

fn named(code: KeyCode) -> (r: KeyEvent)
    ensures
        r == key_named(code),
{
    KeyEvent::key(code)
}

proof fn lemma_bind_one(g: GroupModel, a: KeyEvent, t: TrieModel)
    requires
        g.wf(),
        t.wf(),
    ensures
        g.with_child(a, t).wf(),
        g.with_child(a, t).get(a) == Some(t),
        forall|k: KeyEvent| k != a ==> #[trigger] g.with_child(a, t).get(k) == g.get(k),
        flat(g) && t is Leaf ==> flat(g.with_child(a, t)),
{
    crate::trie::lemma_key_index(g.children, a);
    lemma_with_child_wf(g, a, t);
    assert forall|k: KeyEvent| k != a implies #[trigger] g.with_child(a, t).get(k) == g.get(k) by {
        lemma_with_child(g, a, t, k);
    }
    lemma_with_child(g, a, t, a);
    if flat(g) && t is Leaf {
        let h = g.with_child(a, t).children;
        assert forall|i: int| 0 <= i < h.len() implies (#[trigger] h[i]).1 is Leaf by {
            if i < g.children.len() && h[i] != (a, t) {
                assert(h[i] == g.children[i]);
            }
        }
    }
}

/// Binds the command called `name` at key `a`, where a later binding of the same key wins.
fn command(root: &mut KeyTrieNode, a: KeyEvent, name: &'static str)
    requires
        old(root)@.wf(),
    ensures
        final(root)@ == old(root)@.with_child(a, cmd(name)),
        final(root)@.wf(),
        final(root)@.get(a) == Some(cmd(name)),
        forall|k: KeyEvent| k != a ==> #[trigger] final(root)@.get(k) == old(root)@.get(k),
        flat(old(root)@) ==> flat(final(root)@),
{
    let keys = vec![a];
    assert(keys@ =~= seq![a]);
    let _ = root.bind(keys.as_slice(), KeyTrie::Leaf(Command::new(name)));
    proof {
        lemma_bind_one(old(root)@, a, cmd(name));
    }
}

/// Binds `group` at key `a`, where a later binding of the same key wins.
fn group(root: &mut KeyTrieNode, a: KeyEvent, group: KeyTrieNode)
    requires
        old(root)@.wf(),
        group@.wf(),
    ensures
        final(root)@ == old(root)@.with_child(a, TrieModel::Group(group@)),
        final(root)@.wf(),
        final(root)@.get(a) == Some(TrieModel::Group(group@)),
        forall|k: KeyEvent| k != a ==> #[trigger] final(root)@.get(k) == old(root)@.get(k),
{
    let ghost gv = group@;
    let keys = vec![a];
    assert(keys@ =~= seq![a]);
    let _ = root.bind(keys.as_slice(), KeyTrie::Node(group));
    proof {
        lemma_bind_one(old(root)@, a, TrieModel::Group(gv));
    }
}

/// What a command typed without a count reports.
pub open spec fn matched(name: &'static str, count: usize) -> KeymapResult {
    KeymapResult::Matched(Command { name }, count)
}

/// The built-in keymaps: normal and insert mode from their own tables, and select mode as
/// normal mode with its own differences merged on top. Beside the exact tables, the contract
/// spells out the bindings and key sequences that the resolver's behaviour is usually shown on.
pub fn default() -> (r: ModeMaps)
    ensures
        r.normal@ == normal_model(),
        r.select@ == merge_group(normal_model(), select_overlay_model()),
        r.insert@ == insert_model(),
        r.normal@.wf(),
        r.select@.wf(),
        r.insert@.wf(),
        // aliases of one binding resolve alike
        run(r.normal@, fresh_cursor(), seq![key_ch('m')]) == (
            fresh_cursor(),
            matched("move_char_left", 1),
        ),
        run(r.normal@, fresh_cursor(), seq![key_named(KeyCode::Left)]) == (
            fresh_cursor(),
            matched("move_char_left", 1),
        ),
        run(r.normal@, fresh_cursor(), seq![key_ctrl('E')]) == (fresh_cursor(), matched("page_up", 1)),
        run(r.normal@, fresh_cursor(), seq![key_ctrl('b')]) == (fresh_cursor(), matched("page_up", 1)),
        run(r.normal@, fresh_cursor(), seq![key_named(KeyCode::PageUp)]) == (
            fresh_cursor(),
            matched("page_up", 1),
        ),
        run(r.normal@, fresh_cursor(), seq![key_ctrl('w'), key_ch('m')]) == (
            fresh_cursor(),
            matched("jump_view_left", 1),
        ),
        run(r.normal@, fresh_cursor(), seq![key_ctrl('w'), key_named(KeyCode::Left)]) == (
            fresh_cursor(),
            matched("jump_view_left", 1),
        ),
        run(r.normal@, fresh_cursor(), seq![key_ch(' '), key_ch('w'), key_ctrl('m')]) == (
            fresh_cursor(),
            matched("jump_view_left", 1),
        ),
        // select mode overrides normal mode at a shared key
        r.normal@.get(key_ch('r')) == Some(cmd("select_mode")),
        r.select@.get(key_ch('r')) == Some(cmd("normal_mode")),
        // counts
        run(r.normal@, fresh_cursor(), seq![key_ch('2'), key_ch('3'), key_ch('w')]).1 == matched(
            "move_next_word_start",
            23,
        ),
        step(r.normal@, fresh_cursor(), key_ch('0')) == (fresh_cursor(), KeymapResult::NotFound),
        run(r.normal@, fresh_cursor(), seq![key_ch('0'), key_ch('w')]) == (
            fresh_cursor(),
            matched("move_next_word_start", 1),
        ),
        // the sticky view group stays open, the non-sticky one returns to the root
        run(r.normal@, fresh_cursor(), seq![key_ch('Z'), key_ch('z')]).1 == matched(
            "align_view_center",
            1,
        ),
        run(r.normal@, fresh_cursor(), seq![key_ch('Z'), key_ch('z'), key_ch('t')]).1 == matched(
            "align_view_top",
            1,
        ),
        run(r.normal@, fresh_cursor(), seq![key_ch('z'), key_ch('z')]) == (
            fresh_cursor(),
            matched("align_view_center", 1),
        ),
        run(r.normal@, fresh_cursor(), seq![key_ch('z'), key_ch('z'), key_ch('t')]).1
            == KeymapResult::Pending,
        r.normal@.get(key_ch('t')) == Some(TrieModel::Group(tap_group_model())),
        tap_group_model().name == "Tap"@,
        // the goto group
        r.normal@.get(key_ch('g')) == Some(TrieModel::Group(goto_group_model())),
        goto_group_model().name == "Goto"@,
        !goto_group_model().sticky,
        goto_group_model().get(key_ch('g')) == Some(cmd("goto_file_start")),
        goto_group_model().get(key_ch('x')) is None,
        run(r.normal@, fresh_cursor(), seq![key_ch('g'), key_ch('g')]) == (
            fresh_cursor(),
            matched("goto_file_start", 1),
        ),
        run(r.normal@, fresh_cursor(), seq![key_ch('3'), key_ch('g'), key_ch('g')]) == (
            fresh_cursor(),
            matched("goto_file_start", 3),
        ),
        run(r.normal@, fresh_cursor(), seq![key_ch('g'), key_ch('x')]) == (
            fresh_cursor(),
            KeymapResult::NotFound,
        ),
        run(r.normal@, fresh_cursor(), seq![key_ch('5'), key_ch('g'), key_ch('x')]) == (
            fresh_cursor(),
            KeymapResult::NotFound,
        ),
        run(r.normal@, fresh_cursor(), seq![key_ch('5'), key_ch('g'), key_ch('x'), key_ch('w')])
            == (fresh_cursor(), matched("move_next_word_start", 1)),
        // select mode adds E and N and overrides inside the goto group
        r.normal@.get(key_ch('E')) is None,
        r.normal@.get(key_ch('N')) is None,
        r.select@.get(key_ch('E')) == Some(cmd("page_cursor_half_up")),
        r.select@.get(key_ch('N')) == Some(cmd("page_cursor_half_down")),
        r.select@.get(key_ch('g')) == Some(
            TrieModel::Group(merge_group(goto_group_model(), select_goto_group_model())),
        ),
        merge_group(goto_group_model(), select_goto_group_model()).get(key_ch('g')) == Some(
            cmd("extend_to_file_start"),
        ),
        merge_group(goto_group_model(), select_goto_group_model()).get(key_ch('w')) == Some(
            cmd("extend_to_word"),
        ),
        merge_group(goto_group_model(), select_goto_group_model()).get(key_ch('f')) == Some(
            cmd("goto_file"),
        ),
        // stickiness
        r.normal@.get(key_ch('Z')) == Some(TrieModel::Group(view_sticky_group_model())),
        r.normal@.get(key_ch('z')) == Some(TrieModel::Group(view_group_model())),
        view_sticky_group_model().sticky,
        !view_group_model().sticky,
        r.normal@.get(key_ch(' ')) == Some(TrieModel::Group(space_group_model())),
        space_group_model().get(key_ch('G')) == Some(
            TrieModel::Group(debug_experimental_sticky_group_model()),
        ),
        debug_experimental_sticky_group_model().sticky,
        // insert mode
        flat(r.insert@),
        r.insert@.get(key_named(KeyCode::Esc)) == Some(cmd("normal_mode")),
        r.insert@.get(key_ctrl('h')) == Some(cmd("delete_char_backward")),
        r.insert@.get(key_named(KeyCode::Backspace)) == Some(cmd("delete_char_backward")),
        r.insert@.get(key_shift(KeyCode::Backspace)) == Some(cmd("delete_char_backward")),
        // no plain digit is bound at a root
        forall|k: KeyEvent| #[trigger] digit_of(k) is Some ==> r.normal@.get(k) is None,
        forall|k: KeyEvent| #[trigger] digit_of(k) is Some ==> r.insert@.get(k) is None,
{
    let normal = normal_map();
    let mut select = normal.duplicate();
    let overlay = select_overlay();
    let ghost o = overlay@;
    select.merge_nodes(overlay);
    let insert = insert_map();
    let r = ModeMaps { normal, select, insert };
    proof {
        let n = r.normal@;
        lemma_default_aliases(n);
        lemma_default_counts(n);
        lemma_default_views(n);
        lemma_default_goto(n);
        lemma_merge_overlay_wins(n, o, key_ch('r'));
        lemma_merge_overlay_wins(n, o, key_ch('E'));
        lemma_merge_overlay_wins(n, o, key_ch('N'));
        lemma_merge_overlay_wins(n, o, key_ch('g'));
        let gm = goto_group_model();
        let sg = select_goto_group_model();
        lemma_merge_overlay_wins(gm, sg, key_ch('g'));
        lemma_merge_overlay_wins(gm, sg, key_ch('w'));
        lemma_merge_overlay_wins(gm, sg, key_ch('f'));
    }
    r
}

/// Alias keys and chords of one binding resolve alike on a normal map with these bindings.
#[verifier::rlimit(100)]
proof fn lemma_default_aliases(n: GroupModel)
    requires
        n.get(key_ch('m')) == Some(cmd("move_char_left")),
        n.get(key_named(KeyCode::Left)) == Some(cmd("move_char_left")),
        n.get(key_ctrl('E')) == Some(cmd("page_up")),
        n.get(key_ctrl('b')) == Some(cmd("page_up")),
        n.get(key_named(KeyCode::PageUp)) == Some(cmd("page_up")),
        n.get(key_ctrl('w')) == Some(TrieModel::Group(window_group_model())),
        !window_group_model().sticky,
        window_group_model().get(key_ctrl('m')) == Some(cmd("jump_view_left")),
        window_group_model().get(key_ch('m')) == Some(cmd("jump_view_left")),
        window_group_model().get(key_named(KeyCode::Left)) == Some(cmd("jump_view_left")),
        n.get(key_ch(' ')) == Some(TrieModel::Group(space_group_model())),
        !space_group_model().sticky,
        space_group_model().get(key_ch('w')) == Some(TrieModel::Group(window_group_model())),
        n.get(key_ch('w')) == Some(cmd("move_next_word_start")),
        n.get(key_ch('Z')) == Some(TrieModel::Group(view_sticky_group_model())),
        n.get(key_ch('z')) == Some(TrieModel::Group(view_group_model())),
        view_sticky_group_model().sticky,
        !view_group_model().sticky,
        view_sticky_group_model().get(key_ch('z')) == Some(cmd("align_view_center")),
        view_sticky_group_model().get(key_ch('t')) == Some(cmd("align_view_top")),
        view_group_model().get(key_ch('z')) == Some(cmd("align_view_center")),
        n.get(key_ch('t')) == Some(TrieModel::Group(tap_group_model())),
        !tap_group_model().sticky,
        n.get(key_ch('g')) == Some(TrieModel::Group(goto_group_model())),
        !goto_group_model().sticky,
        goto_group_model().get(key_ch('g')) == Some(cmd("goto_file_start")),
        goto_group_model().get(key_ch('x')) is None,
        forall|k: KeyEvent| #[trigger] digit_of(k) is Some ==> n.get(k) is None,
    ensures
        run(n, fresh_cursor(), seq![key_ch('m')]) == (
            fresh_cursor(),
            matched("move_char_left", 1),
        ),
        run(n, fresh_cursor(), seq![key_named(KeyCode::Left)]) == (
            fresh_cursor(),
            matched("move_char_left", 1),
        ),
        run(n, fresh_cursor(), seq![key_ctrl('E')]) == (fresh_cursor(), matched("page_up", 1)),
        run(n, fresh_cursor(), seq![key_ctrl('b')]) == (fresh_cursor(), matched("page_up", 1)),
        run(n, fresh_cursor(), seq![key_named(KeyCode::PageUp)]) == (
            fresh_cursor(),
            matched("page_up", 1),
        ),
        run(n, fresh_cursor(), seq![key_ctrl('w'), key_ch('m')]) == (
            fresh_cursor(),
            matched("jump_view_left", 1),
        ),
        run(n, fresh_cursor(), seq![key_ctrl('w'), key_named(KeyCode::Left)]) == (
            fresh_cursor(),
            matched("jump_view_left", 1),
        ),
        run(n, fresh_cursor(), seq![key_ch(' '), key_ch('w'), key_ctrl('m')]) == (
            fresh_cursor(),
            matched("jump_view_left", 1),
        ),
{
    let left = key_named(KeyCode::Left);
    let w = Command { name: "move_next_word_start" };
    let jump = Command { name: "jump_view_left" };
    let center = Command { name: "align_view_center" };
    let top = Command { name: "align_view_top" };
    let start = Command { name: "goto_file_start" };
    assert(digit_of(key_ch('2')) == Some(2nat));
    assert(digit_of(key_ch('3')) == Some(3nat));
    assert(digit_of(key_ch('5')) == Some(5nat));
    assert(digit_of(key_ch('0')) == Some(0nat));
    lemma_single_key(n, key_ch('m'), Command { name: "move_char_left" });
    lemma_single_key(n, left, Command { name: "move_char_left" });
    lemma_single_key(n, key_ctrl('E'), Command { name: "page_up" });
    lemma_single_key(n, key_ctrl('b'), Command { name: "page_up" });
    lemma_single_key(n, key_named(KeyCode::PageUp), Command { name: "page_up" });
    lemma_single_key(n, key_ch('w'), w);
    lemma_non_sticky_reset(n, key_ctrl('w'), window_group_model(), key_ch('m'), jump, key_ch('m'));
    lemma_non_sticky_reset(n, key_ctrl('w'), window_group_model(), left, jump, left);
    lemma_three_key_chord(
        n,
        key_ch(' '),
        space_group_model(),
        key_ch('w'),
        window_group_model(),
        key_ctrl('m'),
        jump,
    );
    lemma_count_prefix(n, key_ch('2'), key_ch('3'), key_ch('w'), w);
    lemma_unbound_zero(n, key_ch('0'), key_ch('w'), w);
}

/// Counts and the unbound zero on a normal map with these bindings.
#[verifier::rlimit(100)]
proof fn lemma_default_counts(n: GroupModel)
    requires
        n.get(key_ch('m')) == Some(cmd("move_char_left")),
        n.get(key_named(KeyCode::Left)) == Some(cmd("move_char_left")),
        n.get(key_ctrl('E')) == Some(cmd("page_up")),
        n.get(key_ctrl('b')) == Some(cmd("page_up")),
        n.get(key_named(KeyCode::PageUp)) == Some(cmd("page_up")),
        n.get(key_ctrl('w')) == Some(TrieModel::Group(window_group_model())),
        !window_group_model().sticky,
        window_group_model().get(key_ctrl('m')) == Some(cmd("jump_view_left")),
        window_group_model().get(key_ch('m')) == Some(cmd("jump_view_left")),
        window_group_model().get(key_named(KeyCode::Left)) == Some(cmd("jump_view_left")),
        n.get(key_ch(' ')) == Some(TrieModel::Group(space_group_model())),
        !space_group_model().sticky,
        space_group_model().get(key_ch('w')) == Some(TrieModel::Group(window_group_model())),
        n.get(key_ch('w')) == Some(cmd("move_next_word_start")),
        n.get(key_ch('Z')) == Some(TrieModel::Group(view_sticky_group_model())),
        n.get(key_ch('z')) == Some(TrieModel::Group(view_group_model())),
        view_sticky_group_model().sticky,
        !view_group_model().sticky,
        view_sticky_group_model().get(key_ch('z')) == Some(cmd("align_view_center")),
        view_sticky_group_model().get(key_ch('t')) == Some(cmd("align_view_top")),
        view_group_model().get(key_ch('z')) == Some(cmd("align_view_center")),
        n.get(key_ch('t')) == Some(TrieModel::Group(tap_group_model())),
        !tap_group_model().sticky,
        n.get(key_ch('g')) == Some(TrieModel::Group(goto_group_model())),
        !goto_group_model().sticky,
        goto_group_model().get(key_ch('g')) == Some(cmd("goto_file_start")),
        goto_group_model().get(key_ch('x')) is None,
        forall|k: KeyEvent| #[trigger] digit_of(k) is Some ==> n.get(k) is None,
    ensures
        run(n, fresh_cursor(), seq![key_ch('2'), key_ch('3'), key_ch('w')]).1 == matched(
            "move_next_word_start",
            23,
        ),
        step(n, fresh_cursor(), key_ch('0')) == (fresh_cursor(), KeymapResult::NotFound),
        run(n, fresh_cursor(), seq![key_ch('0'), key_ch('w')]) == (
            fresh_cursor(),
            matched("move_next_word_start", 1),
        ),
{
    let left = key_named(KeyCode::Left);
    let w = Command { name: "move_next_word_start" };
    let jump = Command { name: "jump_view_left" };
    let center = Command { name: "align_view_center" };
    let top = Command { name: "align_view_top" };
    let start = Command { name: "goto_file_start" };
    assert(digit_of(key_ch('2')) == Some(2nat));
    assert(digit_of(key_ch('3')) == Some(3nat));
    assert(digit_of(key_ch('5')) == Some(5nat));
    assert(digit_of(key_ch('0')) == Some(0nat));
    lemma_single_key(n, key_ch('m'), Command { name: "move_char_left" });
    lemma_single_key(n, left, Command { name: "move_char_left" });
    lemma_single_key(n, key_ctrl('E'), Command { name: "page_up" });
    lemma_single_key(n, key_ctrl('b'), Command { name: "page_up" });
    lemma_single_key(n, key_named(KeyCode::PageUp), Command { name: "page_up" });
    lemma_single_key(n, key_ch('w'), w);
    lemma_non_sticky_reset(n, key_ctrl('w'), window_group_model(), key_ch('m'), jump, key_ch('m'));
    lemma_non_sticky_reset(n, key_ctrl('w'), window_group_model(), left, jump, left);
    lemma_three_key_chord(
        n,
        key_ch(' '),
        space_group_model(),
        key_ch('w'),
        window_group_model(),
        key_ctrl('m'),
        jump,
    );
    lemma_count_prefix(n, key_ch('2'), key_ch('3'), key_ch('w'), w);
    lemma_unbound_zero(n, key_ch('0'), key_ch('w'), w);
}

/// The sticky and the non-sticky view group on a normal map with these bindings.
#[verifier::rlimit(100)]
proof fn lemma_default_views(n: GroupModel)
    requires
        n.get(key_ch('m')) == Some(cmd("move_char_left")),
        n.get(key_named(KeyCode::Left)) == Some(cmd("move_char_left")),
        n.get(key_ctrl('E')) == Some(cmd("page_up")),
        n.get(key_ctrl('b')) == Some(cmd("page_up")),
        n.get(key_named(KeyCode::PageUp)) == Some(cmd("page_up")),
        n.get(key_ctrl('w')) == Some(TrieModel::Group(window_group_model())),
        !window_group_model().sticky,
        window_group_model().get(key_ctrl('m')) == Some(cmd("jump_view_left")),
        window_group_model().get(key_ch('m')) == Some(cmd("jump_view_left")),
        window_group_model().get(key_named(KeyCode::Left)) == Some(cmd("jump_view_left")),
        n.get(key_ch(' ')) == Some(TrieModel::Group(space_group_model())),
        !space_group_model().sticky,
        space_group_model().get(key_ch('w')) == Some(TrieModel::Group(window_group_model())),
        n.get(key_ch('w')) == Some(cmd("move_next_word_start")),
        n.get(key_ch('Z')) == Some(TrieModel::Group(view_sticky_group_model())),
        n.get(key_ch('z')) == Some(TrieModel::Group(view_group_model())),
        view_sticky_group_model().sticky,
        !view_group_model().sticky,
        view_sticky_group_model().get(key_ch('z')) == Some(cmd("align_view_center")),
        view_sticky_group_model().get(key_ch('t')) == Some(cmd("align_view_top")),
        view_group_model().get(key_ch('z')) == Some(cmd("align_view_center")),
        n.get(key_ch('t')) == Some(TrieModel::Group(tap_group_model())),
        !tap_group_model().sticky,
        n.get(key_ch('g')) == Some(TrieModel::Group(goto_group_model())),
        !goto_group_model().sticky,
        goto_group_model().get(key_ch('g')) == Some(cmd("goto_file_start")),
        goto_group_model().get(key_ch('x')) is None,
        forall|k: KeyEvent| #[trigger] digit_of(k) is Some ==> n.get(k) is None,
    ensures
        run(n, fresh_cursor(), seq![key_ch('Z'), key_ch('z')]).1 == matched(
            "align_view_center",
            1,
        ),
        run(n, fresh_cursor(), seq![key_ch('Z'), key_ch('z'), key_ch('t')]).1 == matched(
            "align_view_top",
            1,
        ),
        run(n, fresh_cursor(), seq![key_ch('z'), key_ch('z')]) == (
            fresh_cursor(),
            matched("align_view_center", 1),
        ),
        run(n, fresh_cursor(), seq![key_ch('z'), key_ch('z'), key_ch('t')]).1
            == KeymapResult::Pending,
{
    let left = key_named(KeyCode::Left);
    let w = Command { name: "move_next_word_start" };
    let jump = Command { name: "jump_view_left" };
    let center = Command { name: "align_view_center" };
    let top = Command { name: "align_view_top" };
    let start = Command { name: "goto_file_start" };
    assert(digit_of(key_ch('2')) == Some(2nat));
    assert(digit_of(key_ch('3')) == Some(3nat));
    assert(digit_of(key_ch('5')) == Some(5nat));
    assert(digit_of(key_ch('0')) == Some(0nat));
    lemma_sticky_persists(
        n,
        key_ch('Z'),
        view_sticky_group_model(),
        key_ch('z'),
        center,
        key_ch('t'),
        top,
    );
    lemma_non_sticky_reset(n, key_ch('z'), view_group_model(), key_ch('z'), center, key_ch('t'));
    lemma_enter_group(n, fresh_cursor(), key_ch('t'), tap_group_model());
    assert(seq![key_ch('z'), key_ch('z'), key_ch('t')].drop_last() =~= seq![key_ch('z'), key_ch('z')]);
}

/// The goto group, with and without a count, and a miss inside it.
#[verifier::rlimit(100)]
proof fn lemma_default_goto(n: GroupModel)
    requires
        n.get(key_ch('m')) == Some(cmd("move_char_left")),
        n.get(key_named(KeyCode::Left)) == Some(cmd("move_char_left")),
        n.get(key_ctrl('E')) == Some(cmd("page_up")),
        n.get(key_ctrl('b')) == Some(cmd("page_up")),
        n.get(key_named(KeyCode::PageUp)) == Some(cmd("page_up")),
        n.get(key_ctrl('w')) == Some(TrieModel::Group(window_group_model())),
        !window_group_model().sticky,
        window_group_model().get(key_ctrl('m')) == Some(cmd("jump_view_left")),
        window_group_model().get(key_ch('m')) == Some(cmd("jump_view_left")),
        window_group_model().get(key_named(KeyCode::Left)) == Some(cmd("jump_view_left")),
        n.get(key_ch(' ')) == Some(TrieModel::Group(space_group_model())),
        !space_group_model().sticky,
        space_group_model().get(key_ch('w')) == Some(TrieModel::Group(window_group_model())),
        n.get(key_ch('w')) == Some(cmd("move_next_word_start")),
        n.get(key_ch('Z')) == Some(TrieModel::Group(view_sticky_group_model())),
        n.get(key_ch('z')) == Some(TrieModel::Group(view_group_model())),
        view_sticky_group_model().sticky,
        !view_group_model().sticky,
        view_sticky_group_model().get(key_ch('z')) == Some(cmd("align_view_center")),
        view_sticky_group_model().get(key_ch('t')) == Some(cmd("align_view_top")),
        view_group_model().get(key_ch('z')) == Some(cmd("align_view_center")),
        n.get(key_ch('t')) == Some(TrieModel::Group(tap_group_model())),
        !tap_group_model().sticky,
        n.get(key_ch('g')) == Some(TrieModel::Group(goto_group_model())),
        !goto_group_model().sticky,
        goto_group_model().get(key_ch('g')) == Some(cmd("goto_file_start")),
        goto_group_model().get(key_ch('x')) is None,
        forall|k: KeyEvent| #[trigger] digit_of(k) is Some ==> n.get(k) is None,
    ensures
        run(n, fresh_cursor(), seq![key_ch('g'), key_ch('g')]) == (
            fresh_cursor(),
            matched("goto_file_start", 1),
        ),
        run(n, fresh_cursor(), seq![key_ch('3'), key_ch('g'), key_ch('g')]) == (
            fresh_cursor(),
            matched("goto_file_start", 3),
        ),
        run(n, fresh_cursor(), seq![key_ch('g'), key_ch('x')]) == (
            fresh_cursor(),
            KeymapResult::NotFound,
        ),
        run(n, fresh_cursor(), seq![key_ch('5'), key_ch('g'), key_ch('x')]) == (
            fresh_cursor(),
            KeymapResult::NotFound,
        ),
        run(n, fresh_cursor(), seq![key_ch('5'), key_ch('g'), key_ch('x'), key_ch('w')])
            == (fresh_cursor(), matched("move_next_word_start", 1)),
{
    let left = key_named(KeyCode::Left);
    let w = Command { name: "move_next_word_start" };
    let jump = Command { name: "jump_view_left" };
    let center = Command { name: "align_view_center" };
    let top = Command { name: "align_view_top" };
    let start = Command { name: "goto_file_start" };
    assert(digit_of(key_ch('2')) == Some(2nat));
    assert(digit_of(key_ch('3')) == Some(3nat));
    assert(digit_of(key_ch('5')) == Some(5nat));
    assert(digit_of(key_ch('0')) == Some(0nat));
    lemma_single_key(n, key_ch('m'), Command { name: "move_char_left" });
    lemma_single_key(n, left, Command { name: "move_char_left" });
    lemma_single_key(n, key_ctrl('E'), Command { name: "page_up" });
    lemma_single_key(n, key_ctrl('b'), Command { name: "page_up" });
    lemma_single_key(n, key_named(KeyCode::PageUp), Command { name: "page_up" });
    lemma_single_key(n, key_ch('w'), w);
    lemma_non_sticky_reset(n, key_ctrl('w'), window_group_model(), key_ch('m'), jump, key_ch('m'));
    lemma_non_sticky_reset(n, key_ctrl('w'), window_group_model(), left, jump, left);
    lemma_three_key_chord(
        n,
        key_ch(' '),
        space_group_model(),
        key_ch('w'),
        window_group_model(),
        key_ctrl('m'),
        jump,
    );
    lemma_count_prefix(n, key_ch('2'), key_ch('3'), key_ch('w'), w);
    lemma_unbound_zero(n, key_ch('0'), key_ch('w'), w);
    lemma_non_sticky_reset(n, key_ch('g'), goto_group_model(), key_ch('g'), start, key_ch('w'));
    lemma_counted_chord(n, key_ch('3'), key_ch('g'), goto_group_model(), key_ch('g'));
    lemma_chord_miss(n, key_ch('g'), goto_group_model(), key_ch('x'));
    lemma_counted_chord(n, key_ch('5'), key_ch('g'), goto_group_model(), key_ch('x'));
    assert(seq![key_ch('5'), key_ch('g'), key_ch('x'), key_ch('w')].drop_last() =~= seq![
        key_ch('5'),
        key_ch('g'),
        key_ch('x'),
    ]);
}


/// The normal mode keymap.
pub open spec fn normal_model() -> GroupModel {
    let g = named_group("Normal mode"@, false);
    let g = normal_map_part1_model(g);
    let g = normal_map_part2_model(g);
    let g = normal_map_part3_model(g);
    let g = normal_map_part4_model(g);
    let g = normal_map_part5_model(g);
    let g = normal_map_part6_model(g);
    g
}

fn normal_map() -> (r: KeyTrieNode)
    ensures
        r@ == normal_model(),
        r@.wf(),
        tap_group_model().name == "Tap"@,
        !tap_group_model().sticky,
        goto_group_model().name == "Goto"@,
        !goto_group_model().sticky,
        goto_group_model().wf(),
        goto_group_model().get(key_ch('g')) == Some(cmd("goto_file_start")),
        goto_group_model().get(key_ch('f')) == Some(cmd("goto_file")),
        goto_group_model().get(key_ch('x')) is None,
        !window_group_model().sticky,
        window_group_model().get(key_ctrl('m')) == Some(cmd("jump_view_left")),
        window_group_model().get(key_ch('m')) == Some(cmd("jump_view_left")),
        window_group_model().get(key_named(KeyCode::Left)) == Some(cmd("jump_view_left")),
        debug_experimental_sticky_group_model().sticky,
        debug_experimental_sticky_group_model().name == "Debug (experimental)"@,
        !space_group_model().sticky,
        space_group_model().get(key_ch('w')) == Some(TrieModel::Group(window_group_model())),
        space_group_model().get(key_ch('G')) == Some(TrieModel::Group(debug_experimental_sticky_group_model())),
        !view_group_model().sticky,
        view_group_model().get(key_ch('z')) == Some(cmd("align_view_center")),
        view_group_model().get(key_ch('t')) == Some(cmd("align_view_top")),
        view_sticky_group_model().sticky,
        view_sticky_group_model().get(key_ch('z')) == Some(cmd("align_view_center")),
        view_sticky_group_model().get(key_ch('t')) == Some(cmd("align_view_top")),
        r@.get(key_ch('m')) == Some(cmd("move_char_left")),
        r@.get(key_named(KeyCode::Left)) == Some(cmd("move_char_left")),
        r@.get(key_ctrl('E')) == Some(cmd("page_up")),
        r@.get(key_ctrl('b')) == Some(cmd("page_up")),
        r@.get(key_named(KeyCode::PageUp)) == Some(cmd("page_up")),
        r@.get(key_ctrl('w')) == Some(TrieModel::Group(window_group_model())),
        r@.get(key_ch(' ')) == Some(TrieModel::Group(space_group_model())),
        r@.get(key_ch('r')) == Some(cmd("select_mode")),
        r@.get(key_ch('w')) == Some(cmd("move_next_word_start")),
        r@.get(key_ch('g')) == Some(TrieModel::Group(goto_group_model())),
        r@.get(key_ch('Z')) == Some(TrieModel::Group(view_sticky_group_model())),
        r@.get(key_ch('z')) == Some(TrieModel::Group(view_group_model())),
        r@.get(key_ch('t')) == Some(TrieModel::Group(tap_group_model())),
        r@.get(key_ch('E')) is None,
        r@.get(key_ch('N')) is None,
        r@.get(key_named(KeyCode::Esc)) == Some(cmd("normal_mode")),
        forall|k: KeyEvent| #[trigger] digit_of(k) is Some ==> r@.get(k) is None,
{
    let mut root = KeyTrieNode::new("Normal mode".to_string(), false);
    normal_map_part1(&mut root);
    normal_map_part2(&mut root);
    normal_map_part3(&mut root);
    normal_map_part4(&mut root);
    normal_map_part5(&mut root);
    normal_map_part6(&mut root);
    root
}

pub open spec fn normal_map_part1_model(g: GroupModel) -> GroupModel {
    g
        .with_child(key_ch('m'), cmd("move_char_left"))
        .with_child(key_named(KeyCode::Left), cmd("move_char_left"))
        .with_child(key_ch('n'), cmd("move_visual_line_down"))
        .with_child(key_named(KeyCode::Down), cmd("move_visual_line_down"))
        .with_child(key_ch('e'), cmd("move_visual_line_up"))
        .with_child(key_named(KeyCode::Up), cmd("move_visual_line_up"))
        .with_child(key_ch('i'), cmd("move_char_right"))
        .with_child(key_named(KeyCode::Right), cmd("move_char_right"))
        .with_child(key_ch('s'), TrieModel::Group(search_group_model()))
        .with_child(key_ch('S'), cmd("find_prev_char"))
        .with_child(key_ch('T'), cmd("till_prev_char"))
        .with_child(key_ch('t'), TrieModel::Group(tap_group_model()))
        .with_child(key_ch('v'), cmd("replace"))
        .with_child(key_ch('V'), cmd("replace_with_yanked"))
        .with_child(key_ch('\''), cmd("repeat_last_motion"))
        .with_child(key_ch('"'), cmd("repeat_last_motion_reverse"))
        .with_child(key_ch('~'), cmd("switch_case"))
        .with_child(key_ch('`'), cmd("switch_to_lowercase"))
        .with_child(key_alt(KeyCode::Char('`')), cmd("switch_to_uppercase"))
        .with_child(key_named(KeyCode::Home), cmd("goto_line_start"))
}

#[verifier::rlimit(100)]
fn normal_map_part1(root: &mut KeyTrieNode)
    requires
        old(root)@.wf(),
    ensures
        final(root)@ == normal_map_part1_model(old(root)@),
        final(root)@.wf(),
        tap_group_model().name == "Tap"@,
        !tap_group_model().sticky,
        final(root)@.get(key_ch('m')) == Some(cmd("move_char_left")),
        final(root)@.get(key_named(KeyCode::Left)) == Some(cmd("move_char_left")),
        final(root)@.get(key_ctrl('E')) == old(root)@.get(key_ctrl('E')),
        final(root)@.get(key_ctrl('b')) == old(root)@.get(key_ctrl('b')),
        final(root)@.get(key_named(KeyCode::PageUp)) == old(root)@.get(key_named(KeyCode::PageUp)),
        final(root)@.get(key_ctrl('w')) == old(root)@.get(key_ctrl('w')),
        final(root)@.get(key_ch(' ')) == old(root)@.get(key_ch(' ')),
        final(root)@.get(key_ch('r')) == old(root)@.get(key_ch('r')),
        final(root)@.get(key_ch('w')) == old(root)@.get(key_ch('w')),
        final(root)@.get(key_ch('g')) == old(root)@.get(key_ch('g')),
        final(root)@.get(key_ch('Z')) == old(root)@.get(key_ch('Z')),
        final(root)@.get(key_ch('z')) == old(root)@.get(key_ch('z')),
        final(root)@.get(key_ch('t')) == Some(TrieModel::Group(tap_group_model())),
        final(root)@.get(key_ch('E')) == old(root)@.get(key_ch('E')),
        final(root)@.get(key_ch('N')) == old(root)@.get(key_ch('N')),
        final(root)@.get(key_named(KeyCode::Esc)) == old(root)@.get(key_named(KeyCode::Esc)),
        forall|k: KeyEvent| #[trigger] digit_of(k) is Some ==> final(root)@.get(k) == old(root)@.get(k),
{
    command(root, ch('m'), "move_char_left");
    command(root, named(KeyCode::Left), "move_char_left");
    command(root, ch('n'), "move_visual_line_down");
    command(root, named(KeyCode::Down), "move_visual_line_down");
    command(root, ch('e'), "move_visual_line_up");
    command(root, named(KeyCode::Up), "move_visual_line_up");
    command(root, ch('i'), "move_char_right");
    command(root, named(KeyCode::Right), "move_char_right");
    group(root, ch('s'), search_group());
    command(root, ch('S'), "find_prev_char");
    command(root, ch('T'), "till_prev_char");
    group(root, ch('t'), tap_group());
    command(root, ch('v'), "replace");
    command(root, ch('V'), "replace_with_yanked");
    command(root, ch('\''), "repeat_last_motion");
    command(root, ch('"'), "repeat_last_motion_reverse");
    command(root, ch('~'), "switch_case");
    command(root, ch('`'), "switch_to_lowercase");
    command(root, alt(KeyCode::Char('`')), "switch_to_uppercase");
    command(root, named(KeyCode::Home), "goto_line_start");
}

pub open spec fn normal_map_part2_model(g: GroupModel) -> GroupModel {
    g
        .with_child(key_named(KeyCode::End), cmd("goto_line_end"))
        .with_child(key_ch('M'), cmd("goto_line_start"))
        .with_child(key_ch('I'), cmd("goto_line_end"))
        .with_child(key_ch('^'), cmd("goto_first_nonwhitespace"))
        .with_child(key_ch('$'), cmd("goto_line_end"))
        .with_child(key_ch('w'), cmd("move_next_word_start"))
        .with_child(key_ch('b'), cmd("move_prev_word_start"))
        .with_child(key_ch('f'), cmd("move_next_word_end"))
        .with_child(key_ch('W'), cmd("move_next_long_word_start"))
        .with_child(key_ch('B'), cmd("move_prev_long_word_start"))
        .with_child(key_ch('F'), cmd("move_next_long_word_end"))
        .with_child(key_ch('r'), cmd("select_mode"))
        .with_child(key_ch('G'), cmd("goto_last_line"))
        .with_child(key_ch('j'), TrieModel::Group(jump_group_model()))
        .with_child(key_ch('g'), TrieModel::Group(goto_group_model()))
        .with_child(key_ch(':'), cmd("command_mode"))
}

#[verifier::rlimit(100)]
fn normal_map_part2(root: &mut KeyTrieNode)
    requires
        old(root)@.wf(),
    ensures
        final(root)@ == normal_map_part2_model(old(root)@),
        final(root)@.wf(),
        goto_group_model().name == "Goto"@,
        !goto_group_model().sticky,
        goto_group_model().wf(),
        goto_group_model().get(key_ch('g')) == Some(cmd("goto_file_start")),
        goto_group_model().get(key_ch('f')) == Some(cmd("goto_file")),
        goto_group_model().get(key_ch('x')) is None,
        final(root)@.get(key_ch('m')) == old(root)@.get(key_ch('m')),
        final(root)@.get(key_named(KeyCode::Left)) == old(root)@.get(key_named(KeyCode::Left)),
        final(root)@.get(key_ctrl('E')) == old(root)@.get(key_ctrl('E')),
        final(root)@.get(key_ctrl('b')) == old(root)@.get(key_ctrl('b')),
        final(root)@.get(key_named(KeyCode::PageUp)) == old(root)@.get(key_named(KeyCode::PageUp)),
        final(root)@.get(key_ctrl('w')) == old(root)@.get(key_ctrl('w')),
        final(root)@.get(key_ch(' ')) == old(root)@.get(key_ch(' ')),
        final(root)@.get(key_ch('r')) == Some(cmd("select_mode")),
        final(root)@.get(key_ch('w')) == Some(cmd("move_next_word_start")),
        final(root)@.get(key_ch('g')) == Some(TrieModel::Group(goto_group_model())),
        final(root)@.get(key_ch('Z')) == old(root)@.get(key_ch('Z')),
        final(root)@.get(key_ch('z')) == old(root)@.get(key_ch('z')),
        final(root)@.get(key_ch('t')) == old(root)@.get(key_ch('t')),
        final(root)@.get(key_ch('E')) == old(root)@.get(key_ch('E')),
        final(root)@.get(key_ch('N')) == old(root)@.get(key_ch('N')),
        final(root)@.get(key_named(KeyCode::Esc)) == old(root)@.get(key_named(KeyCode::Esc)),
        forall|k: KeyEvent| #[trigger] digit_of(k) is Some ==> final(root)@.get(k) == old(root)@.get(k),
{
    command(root, named(KeyCode::End), "goto_line_end");
    command(root, ch('M'), "goto_line_start");
    command(root, ch('I'), "goto_line_end");
    command(root, ch('^'), "goto_first_nonwhitespace");
    command(root, ch('$'), "goto_line_end");
    command(root, ch('w'), "move_next_word_start");
    command(root, ch('b'), "move_prev_word_start");
    command(root, ch('f'), "move_next_word_end");
    command(root, ch('W'), "move_next_long_word_start");
    command(root, ch('B'), "move_prev_long_word_start");
    command(root, ch('F'), "move_next_long_word_end");
    command(root, ch('r'), "select_mode");
    command(root, ch('G'), "goto_last_line");
    group(root, ch('j'), jump_group());
    group(root, ch('g'), goto_group());
    command(root, ch(':'), "command_mode");
}

pub open spec fn normal_map_part3_model(g: GroupModel) -> GroupModel {
    g
        .with_child(key_ch('l'), cmd("insert_mode"))
        .with_child(key_ch('L'), cmd("insert_at_line_start"))
        .with_child(key_ch('a'), cmd("append_mode"))
        .with_child(key_ch('A'), cmd("insert_at_line_end"))
        .with_child(key_ch('o'), cmd("open_below"))
        .with_child(key_ch('O'), cmd("open_above"))
        .with_child(key_ch('d'), cmd("delete_selection"))
        .with_child(key_alt(KeyCode::Char('d')), cmd("delete_selection_noyank"))
        .with_child(key_ch('c'), cmd("change_selection"))
        .with_child(key_alt(KeyCode::Char('c')), cmd("change_selection_noyank"))
        .with_child(key_ch('C'), cmd("copy_selection_on_next_line"))
        .with_child(key_alt(KeyCode::Char('C')), cmd("copy_selection_on_prev_line"))
        .with_child(key_ch('x'), cmd("extend_line_below"))
        .with_child(key_ch('X'), cmd("extend_line_above"))
        .with_child(key_ch('%'), cmd("match_brackets"))
        .with_child(key_ch('k'), TrieModel::Group(knit_group_model()))
}

#[verifier::rlimit(100)]
fn normal_map_part3(root: &mut KeyTrieNode)
    requires
        old(root)@.wf(),
    ensures
        final(root)@ == normal_map_part3_model(old(root)@),
        final(root)@.wf(),
        final(root)@.get(key_ch('m')) == old(root)@.get(key_ch('m')),
        final(root)@.get(key_named(KeyCode::Left)) == old(root)@.get(key_named(KeyCode::Left)),
        final(root)@.get(key_ctrl('E')) == old(root)@.get(key_ctrl('E')),
        final(root)@.get(key_ctrl('b')) == old(root)@.get(key_ctrl('b')),
        final(root)@.get(key_named(KeyCode::PageUp)) == old(root)@.get(key_named(KeyCode::PageUp)),
        final(root)@.get(key_ctrl('w')) == old(root)@.get(key_ctrl('w')),
        final(root)@.get(key_ch(' ')) == old(root)@.get(key_ch(' ')),
        final(root)@.get(key_ch('r')) == old(root)@.get(key_ch('r')),
        final(root)@.get(key_ch('w')) == old(root)@.get(key_ch('w')),
        final(root)@.get(key_ch('g')) == old(root)@.get(key_ch('g')),
        final(root)@.get(key_ch('Z')) == old(root)@.get(key_ch('Z')),
        final(root)@.get(key_ch('z')) == old(root)@.get(key_ch('z')),
        final(root)@.get(key_ch('t')) == old(root)@.get(key_ch('t')),
        final(root)@.get(key_ch('E')) == old(root)@.get(key_ch('E')),
        final(root)@.get(key_ch('N')) == old(root)@.get(key_ch('N')),
        final(root)@.get(key_named(KeyCode::Esc)) == old(root)@.get(key_named(KeyCode::Esc)),
        forall|k: KeyEvent| #[trigger] digit_of(k) is Some ==> final(root)@.get(k) == old(root)@.get(k),
{
    command(root, ch('l'), "insert_mode");
    command(root, ch('L'), "insert_at_line_start");
    command(root, ch('a'), "append_mode");
    command(root, ch('A'), "insert_at_line_end");
    command(root, ch('o'), "open_below");
    command(root, ch('O'), "open_above");
    command(root, ch('d'), "delete_selection");
    command(root, alt(KeyCode::Char('d')), "delete_selection_noyank");
    command(root, ch('c'), "change_selection");
    command(root, alt(KeyCode::Char('c')), "change_selection_noyank");
    command(root, ch('C'), "copy_selection_on_next_line");
    command(root, alt(KeyCode::Char('C')), "copy_selection_on_prev_line");
    command(root, ch('x'), "extend_line_below");
    command(root, ch('X'), "extend_line_above");
    command(root, ch('%'), "match_brackets");
    group(root, ch('k'), knit_group());
}

pub open spec fn normal_map_part4_model(g: GroupModel) -> GroupModel {
    g
        .with_child(key_ch('['), TrieModel::Group(left_bracket_group_model()))
        .with_child(key_ch(']'), TrieModel::Group(right_bracket_group_model()))
        .with_child(key_ch('/'), cmd("search"))
        .with_child(key_ch('?'), cmd("rsearch"))
        .with_child(key_ch('h'), cmd("search_next"))
        .with_child(key_ch('H'), cmd("search_prev"))
        .with_child(key_ch('*'), cmd("search_selection_detect_word_boundaries"))
        .with_child(key_ch('u'), cmd("undo"))
        .with_child(key_ch('U'), cmd("redo"))
        .with_child(key_ch('y'), cmd("yank"))
        .with_child(key_ch('Y'), cmd("yank_joined"))
        .with_child(key_ch('p'), cmd("paste_after"))
        .with_child(key_ch('P'), cmd("paste_before"))
        .with_child(key_ch('Q'), cmd("record_macro"))
        .with_child(key_ch('q'), cmd("replay_macro"))
        .with_child(key_ch('>'), cmd("indent"))
}

#[verifier::rlimit(100)]
fn normal_map_part4(root: &mut KeyTrieNode)
    requires
        old(root)@.wf(),
    ensures
        final(root)@ == normal_map_part4_model(old(root)@),
        final(root)@.wf(),
        final(root)@.get(key_ch('m')) == old(root)@.get(key_ch('m')),
        final(root)@.get(key_named(KeyCode::Left)) == old(root)@.get(key_named(KeyCode::Left)),
        final(root)@.get(key_ctrl('E')) == old(root)@.get(key_ctrl('E')),
        final(root)@.get(key_ctrl('b')) == old(root)@.get(key_ctrl('b')),
        final(root)@.get(key_named(KeyCode::PageUp)) == old(root)@.get(key_named(KeyCode::PageUp)),
        final(root)@.get(key_ctrl('w')) == old(root)@.get(key_ctrl('w')),
        final(root)@.get(key_ch(' ')) == old(root)@.get(key_ch(' ')),
        final(root)@.get(key_ch('r')) == old(root)@.get(key_ch('r')),
        final(root)@.get(key_ch('w')) == old(root)@.get(key_ch('w')),
        final(root)@.get(key_ch('g')) == old(root)@.get(key_ch('g')),
        final(root)@.get(key_ch('Z')) == old(root)@.get(key_ch('Z')),
        final(root)@.get(key_ch('z')) == old(root)@.get(key_ch('z')),
        final(root)@.get(key_ch('t')) == old(root)@.get(key_ch('t')),
        final(root)@.get(key_ch('E')) == old(root)@.get(key_ch('E')),
        final(root)@.get(key_ch('N')) == old(root)@.get(key_ch('N')),
        final(root)@.get(key_named(KeyCode::Esc)) == old(root)@.get(key_named(KeyCode::Esc)),
        forall|k: KeyEvent| #[trigger] digit_of(k) is Some ==> final(root)@.get(k) == old(root)@.get(k),
{
    group(root, ch('['), left_bracket_group());
    group(root, ch(']'), right_bracket_group());
    command(root, ch('/'), "search");
    command(root, ch('?'), "rsearch");
    command(root, ch('h'), "search_next");
    command(root, ch('H'), "search_prev");
    command(root, ch('*'), "search_selection_detect_word_boundaries");
    command(root, ch('u'), "undo");
    command(root, ch('U'), "redo");
    command(root, ch('y'), "yank");
    command(root, ch('Y'), "yank_joined");
    command(root, ch('p'), "paste_after");
    command(root, ch('P'), "paste_before");
    command(root, ch('Q'), "record_macro");
    command(root, ch('q'), "replay_macro");
    command(root, ch('>'), "indent");
}

pub open spec fn normal_map_part5_model(g: GroupModel) -> GroupModel {
    g
        .with_child(key_ch('<'), cmd("unindent"))
        .with_child(key_ch('J'), cmd("join_selections"))
        .with_child(key_alt(KeyCode::Char('J')), cmd("join_selections_space"))
        .with_child(key_ch(','), cmd("keep_primary_selection"))
        .with_child(key_ch(';'), cmd("remove_primary_selection"))
        .with_child(key_ch('='), cmd("align_selections"))
        .with_child(key_ch('_'), cmd("trim_selections"))
        .with_child(key_ch('('), cmd("rotate_selections_backward"))
        .with_child(key_ch(')'), cmd("rotate_selections_forward"))
        .with_child(key_alt(KeyCode::Char('(')), cmd("rotate_selection_contents_backward"))
        .with_child(key_alt(KeyCode::Char(')')), cmd("rotate_selection_contents_forward"))
        .with_child(key_named(KeyCode::Esc), cmd("normal_mode"))
        .with_child(key_ctrl('E'), cmd("page_up"))
        .with_child(key_ctrl('b'), cmd("page_up"))
        .with_child(key_named(KeyCode::PageUp), cmd("page_up"))
        .with_child(key_ctrl('N'), cmd("page_down"))
        .with_child(key_ctrl('f'), cmd("page_down"))
        .with_child(key_named(KeyCode::PageDown), cmd("page_down"))
        .with_child(key_ctrl('u'), cmd("page_cursor_half_up"))
        .with_child(key_ctrl('d'), cmd("page_cursor_half_down"))
}

#[verifier::rlimit(100)]
fn normal_map_part5(root: &mut KeyTrieNode)
    requires
        old(root)@.wf(),
    ensures
        final(root)@ == normal_map_part5_model(old(root)@),
        final(root)@.wf(),
        final(root)@.get(key_ch('m')) == old(root)@.get(key_ch('m')),
        final(root)@.get(key_named(KeyCode::Left)) == old(root)@.get(key_named(KeyCode::Left)),
        final(root)@.get(key_ctrl('E')) == Some(cmd("page_up")),
        final(root)@.get(key_ctrl('b')) == Some(cmd("page_up")),
        final(root)@.get(key_named(KeyCode::PageUp)) == Some(cmd("page_up")),
        final(root)@.get(key_ctrl('w')) == old(root)@.get(key_ctrl('w')),
        final(root)@.get(key_ch(' ')) == old(root)@.get(key_ch(' ')),
        final(root)@.get(key_ch('r')) == old(root)@.get(key_ch('r')),
        final(root)@.get(key_ch('w')) == old(root)@.get(key_ch('w')),
        final(root)@.get(key_ch('g')) == old(root)@.get(key_ch('g')),
        final(root)@.get(key_ch('Z')) == old(root)@.get(key_ch('Z')),
        final(root)@.get(key_ch('z')) == old(root)@.get(key_ch('z')),
        final(root)@.get(key_ch('t')) == old(root)@.get(key_ch('t')),
        final(root)@.get(key_ch('E')) == old(root)@.get(key_ch('E')),
        final(root)@.get(key_ch('N')) == old(root)@.get(key_ch('N')),
        final(root)@.get(key_named(KeyCode::Esc)) == Some(cmd("normal_mode")),
        forall|k: KeyEvent| #[trigger] digit_of(k) is Some ==> final(root)@.get(k) == old(root)@.get(k),
{
    command(root, ch('<'), "unindent");
    command(root, ch('J'), "join_selections");
    command(root, alt(KeyCode::Char('J')), "join_selections_space");
    command(root, ch(','), "keep_primary_selection");
    command(root, ch(';'), "remove_primary_selection");
    command(root, ch('='), "align_selections");
    command(root, ch('_'), "trim_selections");
    command(root, ch('('), "rotate_selections_backward");
    command(root, ch(')'), "rotate_selections_forward");
    command(root, alt(KeyCode::Char('(')), "rotate_selection_contents_backward");
    command(root, alt(KeyCode::Char(')')), "rotate_selection_contents_forward");
    command(root, named(KeyCode::Esc), "normal_mode");
    command(root, ctrl('E'), "page_up");
    command(root, ctrl('b'), "page_up");
    command(root, named(KeyCode::PageUp), "page_up");
    command(root, ctrl('N'), "page_down");
    command(root, ctrl('f'), "page_down");
    command(root, named(KeyCode::PageDown), "page_down");
    command(root, ctrl('u'), "page_cursor_half_up");
    command(root, ctrl('d'), "page_cursor_half_down");
}

pub open spec fn normal_map_part6_model(g: GroupModel) -> GroupModel {
    g
        .with_child(key_ctrl('w'), TrieModel::Group(window_group_model()))
        .with_child(key_ctrl('i'), cmd("jump_forward"))
        .with_child(key_named(KeyCode::Tab), cmd("jump_forward"))
        .with_child(key_ctrl('o'), cmd("jump_backward"))
        .with_child(key_ctrl('s'), cmd("save_selection"))
        .with_child(key_ctrl('l'), cmd("align_view_top"))
        .with_child(key_ch(' '), TrieModel::Group(space_group_model()))
        .with_child(key_ch('z'), TrieModel::Group(view_group_model()))
        .with_child(key_ch('Z'), TrieModel::Group(view_sticky_group_model()))
        .with_child(key_ch('&'), cmd("select_register"))
        .with_child(key_ch('+'), cmd("increment"))
        .with_child(key_ch('-'), cmd("decrement"))
}

#[verifier::rlimit(100)]
fn normal_map_part6(root: &mut KeyTrieNode)
    requires
        old(root)@.wf(),
    ensures
        final(root)@ == normal_map_part6_model(old(root)@),
        final(root)@.wf(),
        !window_group_model().sticky,
        window_group_model().get(key_ctrl('m')) == Some(cmd("jump_view_left")),
        window_group_model().get(key_ch('m')) == Some(cmd("jump_view_left")),
        window_group_model().get(key_named(KeyCode::Left)) == Some(cmd("jump_view_left")),
        debug_experimental_sticky_group_model().sticky,
        debug_experimental_sticky_group_model().name == "Debug (experimental)"@,
        !space_group_model().sticky,
        space_group_model().get(key_ch('w')) == Some(TrieModel::Group(window_group_model())),
        space_group_model().get(key_ch('G')) == Some(TrieModel::Group(debug_experimental_sticky_group_model())),
        !view_group_model().sticky,
        view_group_model().get(key_ch('z')) == Some(cmd("align_view_center")),
        view_group_model().get(key_ch('t')) == Some(cmd("align_view_top")),
        view_sticky_group_model().sticky,
        view_sticky_group_model().get(key_ch('z')) == Some(cmd("align_view_center")),
        view_sticky_group_model().get(key_ch('t')) == Some(cmd("align_view_top")),
        final(root)@.get(key_ch('m')) == old(root)@.get(key_ch('m')),
        final(root)@.get(key_named(KeyCode::Left)) == old(root)@.get(key_named(KeyCode::Left)),
        final(root)@.get(key_ctrl('E')) == old(root)@.get(key_ctrl('E')),
        final(root)@.get(key_ctrl('b')) == old(root)@.get(key_ctrl('b')),
        final(root)@.get(key_named(KeyCode::PageUp)) == old(root)@.get(key_named(KeyCode::PageUp)),
        final(root)@.get(key_ctrl('w')) == Some(TrieModel::Group(window_group_model())),
        final(root)@.get(key_ch(' ')) == Some(TrieModel::Group(space_group_model())),
        final(root)@.get(key_ch('r')) == old(root)@.get(key_ch('r')),
        final(root)@.get(key_ch('w')) == old(root)@.get(key_ch('w')),
        final(root)@.get(key_ch('g')) == old(root)@.get(key_ch('g')),
        final(root)@.get(key_ch('Z')) == Some(TrieModel::Group(view_sticky_group_model())),
        final(root)@.get(key_ch('z')) == Some(TrieModel::Group(view_group_model())),
        final(root)@.get(key_ch('t')) == old(root)@.get(key_ch('t')),
        final(root)@.get(key_ch('E')) == old(root)@.get(key_ch('E')),
        final(root)@.get(key_ch('N')) == old(root)@.get(key_ch('N')),
        final(root)@.get(key_named(KeyCode::Esc)) == old(root)@.get(key_named(KeyCode::Esc)),
        forall|k: KeyEvent| #[trigger] digit_of(k) is Some ==> final(root)@.get(k) == old(root)@.get(k),
{
    group(root, ctrl('w'), window_group());
    command(root, ctrl('i'), "jump_forward");
    command(root, named(KeyCode::Tab), "jump_forward");
    command(root, ctrl('o'), "jump_backward");
    command(root, ctrl('s'), "save_selection");
    command(root, ctrl('l'), "align_view_top");
    group(root, ch(' '), space_group());
    group(root, ch('z'), view_group());
    group(root, ch('Z'), view_sticky_group());
    command(root, ch('&'), "select_register");
    command(root, ch('+'), "increment");
    command(root, ch('-'), "decrement");
}

/// The "Search" group.
pub open spec fn search_group_model() -> GroupModel {
    named_group("Search"@, false)
        .with_child(key_ch('s'), cmd("find_next_char"))
        .with_child(key_ch('t'), cmd("find_till_char"))
        .with_child(key_ch('w'), cmd("search_selection_detect_word_boundaries"))
        .with_child(key_ch('W'), cmd("search_selection"))
}

fn search_group() -> (r: KeyTrieNode)
    ensures
        r@ == search_group_model(),
        r@.wf(),
        r@.get(key_ch('s')) == Some(cmd("find_next_char")),
        r@.get(key_ch('t')) == Some(cmd("find_till_char")),
        r@.get(key_ch('w')) == Some(cmd("search_selection_detect_word_boundaries")),
        r@.get(key_ch('W')) == Some(cmd("search_selection")),
        forall|k: KeyEvent|
            
                k != key_ch('s')
                && k != key_ch('t')
                && k != key_ch('w')
                && k != key_ch('W')
                 ==> #[trigger] r@.get(k) is None,
{
    let mut root = KeyTrieNode::new("Search".to_string(), false);
    command(&mut root, ch('s'), "find_next_char");
    command(&mut root, ch('t'), "find_till_char");
    command(&mut root, ch('w'), "search_selection_detect_word_boundaries");
    command(&mut root, ch('W'), "search_selection");
    root
}

/// The "Tap" group.
pub open spec fn tap_group_model() -> GroupModel {
    named_group("Tap"@, false)
        .with_child(key_ch('a'), cmd("select_all"))
        .with_child(key_ch('c'), cmd("collapse_selection"))
        .with_child(key_ch('f'), cmd("ensure_selections_forward"))
        .with_child(key_ch('r'), cmd("select_regex"))
        .with_child(key_ch('s'), cmd("split_selection"))
        .with_child(key_ch('t'), cmd("flip_selections"))
        .with_child(key_ch('k'), cmd("keep_selections"))
        .with_child(key_ch('K'), cmd("remove_selections"))
        .with_child(key_ch('M'), cmd("merge_consecutive_selections"))
        .with_child(key_ch('m'), cmd("merge_selections"))
        .with_child(key_ch('l'), cmd("split_selection_on_newline"))
        .with_child(key_ch('i'), cmd("shrink_selection"))
        .with_child(key_ch('o'), cmd("expand_selection"))
        .with_child(key_ch('n'), cmd("select_next_sibling"))
        .with_child(key_ch('p'), cmd("select_prev_sibling"))
}

fn tap_group() -> (r: KeyTrieNode)
    ensures
        r@ == tap_group_model(),
        r@.wf(),
        r@.get(key_ch('a')) == Some(cmd("select_all")),
        r@.get(key_ch('c')) == Some(cmd("collapse_selection")),
        r@.get(key_ch('f')) == Some(cmd("ensure_selections_forward")),
        r@.get(key_ch('r')) == Some(cmd("select_regex")),
        r@.get(key_ch('s')) == Some(cmd("split_selection")),
        r@.get(key_ch('t')) == Some(cmd("flip_selections")),
        r@.get(key_ch('k')) == Some(cmd("keep_selections")),
        r@.get(key_ch('K')) == Some(cmd("remove_selections")),
        r@.get(key_ch('M')) == Some(cmd("merge_consecutive_selections")),
        r@.get(key_ch('m')) == Some(cmd("merge_selections")),
        r@.get(key_ch('l')) == Some(cmd("split_selection_on_newline")),
        r@.get(key_ch('i')) == Some(cmd("shrink_selection")),
        r@.get(key_ch('o')) == Some(cmd("expand_selection")),
        r@.get(key_ch('n')) == Some(cmd("select_next_sibling")),
        r@.get(key_ch('p')) == Some(cmd("select_prev_sibling")),
        forall|k: KeyEvent|
            
                k != key_ch('a')
                && k != key_ch('c')
                && k != key_ch('f')
                && k != key_ch('r')
                && k != key_ch('s')
                && k != key_ch('t')
                && k != key_ch('k')
                && k != key_ch('K')
                && k != key_ch('M')
                && k != key_ch('m')
                && k != key_ch('l')
                && k != key_ch('i')
                && k != key_ch('o')
                && k != key_ch('n')
                && k != key_ch('p')
                 ==> #[trigger] r@.get(k) is None,
        tap_group_model().name == "Tap"@,
        !tap_group_model().sticky,
{
    let mut root = KeyTrieNode::new("Tap".to_string(), false);
    command(&mut root, ch('a'), "select_all");
    command(&mut root, ch('c'), "collapse_selection");
    command(&mut root, ch('f'), "ensure_selections_forward");
    command(&mut root, ch('r'), "select_regex");
    command(&mut root, ch('s'), "split_selection");
    command(&mut root, ch('t'), "flip_selections");
    command(&mut root, ch('k'), "keep_selections");
    command(&mut root, ch('K'), "remove_selections");
    command(&mut root, ch('M'), "merge_consecutive_selections");
    command(&mut root, ch('m'), "merge_selections");
    command(&mut root, ch('l'), "split_selection_on_newline");
    command(&mut root, ch('i'), "shrink_selection");
    command(&mut root, ch('o'), "expand_selection");
    command(&mut root, ch('n'), "select_next_sibling");
    command(&mut root, ch('p'), "select_prev_sibling");
    root
}

/// The "Jump" group.
pub open spec fn jump_group_model() -> GroupModel {
    named_group("Jump"@, false)
        .with_child(key_ch('j'), cmd("goto_line"))
        .with_child(key_ch('s'), cmd("move_parent_node_start"))
        .with_child(key_ch('e'), cmd("move_parent_node_end"))
        .with_child(key_ch('('), cmd("rotate_selections_first"))
        .with_child(key_ch(')'), cmd("rotate_selections_last"))
}

fn jump_group() -> (r: KeyTrieNode)
    ensures
        r@ == jump_group_model(),
        r@.wf(),
        r@.get(key_ch('j')) == Some(cmd("goto_line")),
        r@.get(key_ch('s')) == Some(cmd("move_parent_node_start")),
        r@.get(key_ch('e')) == Some(cmd("move_parent_node_end")),
        r@.get(key_ch('(')) == Some(cmd("rotate_selections_first")),
        r@.get(key_ch(')')) == Some(cmd("rotate_selections_last")),
        forall|k: KeyEvent|
            
                k != key_ch('j')
                && k != key_ch('s')
                && k != key_ch('e')
                && k != key_ch('(')
                && k != key_ch(')')
                 ==> #[trigger] r@.get(k) is None,
{
    let mut root = KeyTrieNode::new("Jump".to_string(), false);
    command(&mut root, ch('j'), "goto_line");
    command(&mut root, ch('s'), "move_parent_node_start");
    command(&mut root, ch('e'), "move_parent_node_end");
    command(&mut root, ch('('), "rotate_selections_first");
    command(&mut root, ch(')'), "rotate_selections_last");
    root
}

/// The "Goto" group.
pub open spec fn goto_group_model() -> GroupModel {
    named_group("Goto"@, false)
        .with_child(key_ch('g'), cmd("goto_file_start"))
        .with_child(key_ch('|'), cmd("goto_column"))
        .with_child(key_ch('e'), cmd("goto_last_line"))
        .with_child(key_ch('f'), cmd("goto_file"))
        .with_child(key_ch('m'), cmd("goto_line_start"))
        .with_child(key_ch('i'), cmd("goto_line_end"))
        .with_child(key_ch('d'), cmd("goto_definition"))
        .with_child(key_ch('D'), cmd("goto_declaration"))
        .with_child(key_ch('y'), cmd("goto_type_definition"))
        .with_child(key_ch('r'), cmd("goto_reference"))
        .with_child(key_ch('I'), cmd("goto_implementation"))
        .with_child(key_ch('t'), cmd("goto_window_top"))
        .with_child(key_ch('c'), cmd("goto_window_center"))
        .with_child(key_ch('b'), cmd("goto_window_bottom"))
        .with_child(key_ch('A'), cmd("goto_last_accessed_file"))
        .with_child(key_ch('M'), cmd("goto_last_modified_file"))
        .with_child(key_ch('n'), cmd("goto_next_buffer"))
        .with_child(key_ch('p'), cmd("goto_previous_buffer"))
        .with_child(key_ch('.'), cmd("goto_last_modification"))
        .with_child(key_ch('w'), cmd("goto_word"))
}

fn goto_group() -> (r: KeyTrieNode)
    ensures
        r@ == goto_group_model(),
        r@.wf(),
        r@.get(key_ch('g')) == Some(cmd("goto_file_start")),
        r@.get(key_ch('|')) == Some(cmd("goto_column")),
        r@.get(key_ch('e')) == Some(cmd("goto_last_line")),
        r@.get(key_ch('f')) == Some(cmd("goto_file")),
        r@.get(key_ch('m')) == Some(cmd("goto_line_start")),
        r@.get(key_ch('i')) == Some(cmd("goto_line_end")),
        r@.get(key_ch('d')) == Some(cmd("goto_definition")),
        r@.get(key_ch('D')) == Some(cmd("goto_declaration")),
        r@.get(key_ch('y')) == Some(cmd("goto_type_definition")),
        r@.get(key_ch('r')) == Some(cmd("goto_reference")),
        r@.get(key_ch('I')) == Some(cmd("goto_implementation")),
        r@.get(key_ch('t')) == Some(cmd("goto_window_top")),
        r@.get(key_ch('c')) == Some(cmd("goto_window_center")),
        r@.get(key_ch('b')) == Some(cmd("goto_window_bottom")),
        r@.get(key_ch('A')) == Some(cmd("goto_last_accessed_file")),
        r@.get(key_ch('M')) == Some(cmd("goto_last_modified_file")),
        r@.get(key_ch('n')) == Some(cmd("goto_next_buffer")),
        r@.get(key_ch('p')) == Some(cmd("goto_previous_buffer")),
        r@.get(key_ch('.')) == Some(cmd("goto_last_modification")),
        r@.get(key_ch('w')) == Some(cmd("goto_word")),
        forall|k: KeyEvent|
            
                k != key_ch('g')
                && k != key_ch('|')
                && k != key_ch('e')
                && k != key_ch('f')
                && k != key_ch('m')
                && k != key_ch('i')
                && k != key_ch('d')
                && k != key_ch('D')
                && k != key_ch('y')
                && k != key_ch('r')
                && k != key_ch('I')
                && k != key_ch('t')
                && k != key_ch('c')
                && k != key_ch('b')
                && k != key_ch('A')
                && k != key_ch('M')
                && k != key_ch('n')
                && k != key_ch('p')
                && k != key_ch('.')
                && k != key_ch('w')
                 ==> #[trigger] r@.get(k) is None,
        goto_group_model().name == "Goto"@,
        !goto_group_model().sticky,
        goto_group_model().wf(),
        goto_group_model().get(key_ch('g')) == Some(cmd("goto_file_start")),
        goto_group_model().get(key_ch('f')) == Some(cmd("goto_file")),
        goto_group_model().get(key_ch('x')) is None,
{
    let mut root = KeyTrieNode::new("Goto".to_string(), false);
    command(&mut root, ch('g'), "goto_file_start");
    command(&mut root, ch('|'), "goto_column");
    command(&mut root, ch('e'), "goto_last_line");
    command(&mut root, ch('f'), "goto_file");
    command(&mut root, ch('m'), "goto_line_start");
    command(&mut root, ch('i'), "goto_line_end");
    command(&mut root, ch('d'), "goto_definition");
    command(&mut root, ch('D'), "goto_declaration");
    command(&mut root, ch('y'), "goto_type_definition");
    command(&mut root, ch('r'), "goto_reference");
    command(&mut root, ch('I'), "goto_implementation");
    command(&mut root, ch('t'), "goto_window_top");
    command(&mut root, ch('c'), "goto_window_center");
    command(&mut root, ch('b'), "goto_window_bottom");
    command(&mut root, ch('A'), "goto_last_accessed_file");
    command(&mut root, ch('M'), "goto_last_modified_file");
    command(&mut root, ch('n'), "goto_next_buffer");
    command(&mut root, ch('p'), "goto_previous_buffer");
    command(&mut root, ch('.'), "goto_last_modification");
    command(&mut root, ch('w'), "goto_word");
    root
}

/// The "Knit" group.
pub open spec fn knit_group_model() -> GroupModel {
    named_group("Knit"@, false)
        .with_child(key_ch('k'), cmd("match_brackets"))
        .with_child(key_ch('s'), cmd("surround_add"))
        .with_child(key_ch('r'), cmd("surround_replace"))
        .with_child(key_ch('d'), cmd("surround_delete"))
        .with_child(key_ch('a'), cmd("select_textobject_around"))
        .with_child(key_ch('i'), cmd("select_textobject_inner"))
}

fn knit_group() -> (r: KeyTrieNode)
    ensures
        r@ == knit_group_model(),
        r@.wf(),
        r@.get(key_ch('k')) == Some(cmd("match_brackets")),
        r@.get(key_ch('s')) == Some(cmd("surround_add")),
        r@.get(key_ch('r')) == Some(cmd("surround_replace")),
        r@.get(key_ch('d')) == Some(cmd("surround_delete")),
        r@.get(key_ch('a')) == Some(cmd("select_textobject_around")),
        r@.get(key_ch('i')) == Some(cmd("select_textobject_inner")),
        forall|k: KeyEvent|
            
                k != key_ch('k')
                && k != key_ch('s')
                && k != key_ch('r')
                && k != key_ch('d')
                && k != key_ch('a')
                && k != key_ch('i')
                 ==> #[trigger] r@.get(k) is None,
{
    let mut root = KeyTrieNode::new("Knit".to_string(), false);
    command(&mut root, ch('k'), "match_brackets");
    command(&mut root, ch('s'), "surround_add");
    command(&mut root, ch('r'), "surround_replace");
    command(&mut root, ch('d'), "surround_delete");
    command(&mut root, ch('a'), "select_textobject_around");
    command(&mut root, ch('i'), "select_textobject_inner");
    root
}

/// The "Left bracket" group.
pub open spec fn left_bracket_group_model() -> GroupModel {
    named_group("Left bracket"@, false)
        .with_child(key_ch('d'), cmd("goto_prev_diag"))
        .with_child(key_ch('D'), cmd("goto_first_diag"))
        .with_child(key_ch('g'), cmd("goto_prev_change"))
        .with_child(key_ch('G'), cmd("goto_first_change"))
        .with_child(key_ch('f'), cmd("goto_prev_function"))
        .with_child(key_ch('t'), cmd("goto_prev_class"))
        .with_child(key_ch('a'), cmd("goto_prev_parameter"))
        .with_child(key_ch('c'), cmd("goto_prev_comment"))
        .with_child(key_ch('e'), cmd("goto_prev_entry"))
        .with_child(key_ch('T'), cmd("goto_prev_test"))
        .with_child(key_ch('p'), cmd("goto_prev_paragraph"))
        .with_child(key_ch('x'), cmd("goto_prev_xml_element"))
        .with_child(key_ch(' '), cmd("add_newline_above"))
}

fn left_bracket_group() -> (r: KeyTrieNode)
    ensures
        r@ == left_bracket_group_model(),
        r@.wf(),
        r@.get(key_ch('d')) == Some(cmd("goto_prev_diag")),
        r@.get(key_ch('D')) == Some(cmd("goto_first_diag")),
        r@.get(key_ch('g')) == Some(cmd("goto_prev_change")),
        r@.get(key_ch('G')) == Some(cmd("goto_first_change")),
        r@.get(key_ch('f')) == Some(cmd("goto_prev_function")),
        r@.get(key_ch('t')) == Some(cmd("goto_prev_class")),
        r@.get(key_ch('a')) == Some(cmd("goto_prev_parameter")),
        r@.get(key_ch('c')) == Some(cmd("goto_prev_comment")),
        r@.get(key_ch('e')) == Some(cmd("goto_prev_entry")),
        r@.get(key_ch('T')) == Some(cmd("goto_prev_test")),
        r@.get(key_ch('p')) == Some(cmd("goto_prev_paragraph")),
        r@.get(key_ch('x')) == Some(cmd("goto_prev_xml_element")),
        r@.get(key_ch(' ')) == Some(cmd("add_newline_above")),
        forall|k: KeyEvent|
            
                k != key_ch('d')
                && k != key_ch('D')
                && k != key_ch('g')
                && k != key_ch('G')
                && k != key_ch('f')
                && k != key_ch('t')
                && k != key_ch('a')
                && k != key_ch('c')
                && k != key_ch('e')
                && k != key_ch('T')
                && k != key_ch('p')
                && k != key_ch('x')
                && k != key_ch(' ')
                 ==> #[trigger] r@.get(k) is None,
{
    let mut root = KeyTrieNode::new("Left bracket".to_string(), false);
    command(&mut root, ch('d'), "goto_prev_diag");
    command(&mut root, ch('D'), "goto_first_diag");
    command(&mut root, ch('g'), "goto_prev_change");
    command(&mut root, ch('G'), "goto_first_change");
    command(&mut root, ch('f'), "goto_prev_function");
    command(&mut root, ch('t'), "goto_prev_class");
    command(&mut root, ch('a'), "goto_prev_parameter");
    command(&mut root, ch('c'), "goto_prev_comment");
    command(&mut root, ch('e'), "goto_prev_entry");
    command(&mut root, ch('T'), "goto_prev_test");
    command(&mut root, ch('p'), "goto_prev_paragraph");
    command(&mut root, ch('x'), "goto_prev_xml_element");
    command(&mut root, ch(' '), "add_newline_above");
    root
}

/// The "Right bracket" group.
pub open spec fn right_bracket_group_model() -> GroupModel {
    named_group("Right bracket"@, false)
        .with_child(key_ch('d'), cmd("goto_next_diag"))
        .with_child(key_ch('D'), cmd("goto_last_diag"))
        .with_child(key_ch('g'), cmd("goto_next_change"))
        .with_child(key_ch('G'), cmd("goto_last_change"))
        .with_child(key_ch('f'), cmd("goto_next_function"))
        .with_child(key_ch('t'), cmd("goto_next_class"))
        .with_child(key_ch('a'), cmd("goto_next_parameter"))
        .with_child(key_ch('c'), cmd("goto_next_comment"))
        .with_child(key_ch('e'), cmd("goto_next_entry"))
        .with_child(key_ch('T'), cmd("goto_next_test"))
        .with_child(key_ch('p'), cmd("goto_next_paragraph"))
        .with_child(key_ch('x'), cmd("goto_next_xml_element"))
        .with_child(key_ch(' '), cmd("add_newline_below"))
}

fn right_bracket_group() -> (r: KeyTrieNode)
    ensures
        r@ == right_bracket_group_model(),
        r@.wf(),
        r@.get(key_ch('d')) == Some(cmd("goto_next_diag")),
        r@.get(key_ch('D')) == Some(cmd("goto_last_diag")),
        r@.get(key_ch('g')) == Some(cmd("goto_next_change")),
        r@.get(key_ch('G')) == Some(cmd("goto_last_change")),
        r@.get(key_ch('f')) == Some(cmd("goto_next_function")),
        r@.get(key_ch('t')) == Some(cmd("goto_next_class")),
        r@.get(key_ch('a')) == Some(cmd("goto_next_parameter")),
        r@.get(key_ch('c')) == Some(cmd("goto_next_comment")),
        r@.get(key_ch('e')) == Some(cmd("goto_next_entry")),
        r@.get(key_ch('T')) == Some(cmd("goto_next_test")),
        r@.get(key_ch('p')) == Some(cmd("goto_next_paragraph")),
        r@.get(key_ch('x')) == Some(cmd("goto_next_xml_element")),
        r@.get(key_ch(' ')) == Some(cmd("add_newline_below")),
        forall|k: KeyEvent|
            
                k != key_ch('d')
                && k != key_ch('D')
                && k != key_ch('g')
                && k != key_ch('G')
                && k != key_ch('f')
                && k != key_ch('t')
                && k != key_ch('a')
                && k != key_ch('c')
                && k != key_ch('e')
                && k != key_ch('T')
                && k != key_ch('p')
                && k != key_ch('x')
                && k != key_ch(' ')
                 ==> #[trigger] r@.get(k) is None,
{
    let mut root = KeyTrieNode::new("Right bracket".to_string(), false);
    command(&mut root, ch('d'), "goto_next_diag");
    command(&mut root, ch('D'), "goto_last_diag");
    command(&mut root, ch('g'), "goto_next_change");
    command(&mut root, ch('G'), "goto_last_change");
    command(&mut root, ch('f'), "goto_next_function");
    command(&mut root, ch('t'), "goto_next_class");
    command(&mut root, ch('a'), "goto_next_parameter");
    command(&mut root, ch('c'), "goto_next_comment");
    command(&mut root, ch('e'), "goto_next_entry");
    command(&mut root, ch('T'), "goto_next_test");
    command(&mut root, ch('p'), "goto_next_paragraph");
    command(&mut root, ch('x'), "goto_next_xml_element");
    command(&mut root, ch(' '), "add_newline_below");
    root
}

/// The "New split scratch buffer" group.
pub open spec fn new_split_scratch_buffer_group_model() -> GroupModel {
    named_group("New split scratch buffer"@, false)
        .with_child(key_ctrl('s'), cmd("hsplit_new"))
        .with_child(key_ch('s'), cmd("hsplit_new"))
        .with_child(key_ctrl('b'), cmd("vsplit_new"))
        .with_child(key_ch('b'), cmd("vsplit_new"))
        .with_child(key_ctrl('v'), cmd("vsplit_new"))
        .with_child(key_ch('v'), cmd("vsplit_new"))
}

fn new_split_scratch_buffer_group() -> (r: KeyTrieNode)
    ensures
        r@ == new_split_scratch_buffer_group_model(),
        r@.wf(),
        r@.get(key_ctrl('s')) == Some(cmd("hsplit_new")),
        r@.get(key_ch('s')) == Some(cmd("hsplit_new")),
        r@.get(key_ctrl('b')) == Some(cmd("vsplit_new")),
        r@.get(key_ch('b')) == Some(cmd("vsplit_new")),
        r@.get(key_ctrl('v')) == Some(cmd("vsplit_new")),
        r@.get(key_ch('v')) == Some(cmd("vsplit_new")),
        forall|k: KeyEvent|
            
                k != key_ctrl('s')
                && k != key_ch('s')
                && k != key_ctrl('b')
                && k != key_ch('b')
                && k != key_ctrl('v')
                && k != key_ch('v')
                 ==> #[trigger] r@.get(k) is None,
{
    let mut root = KeyTrieNode::new("New split scratch buffer".to_string(), false);
    command(&mut root, ctrl('s'), "hsplit_new");
    command(&mut root, ch('s'), "hsplit_new");
    command(&mut root, ctrl('b'), "vsplit_new");
    command(&mut root, ch('b'), "vsplit_new");
    command(&mut root, ctrl('v'), "vsplit_new");
    command(&mut root, ch('v'), "vsplit_new");
    root
}

/// The "Window" group.
pub open spec fn window_group_model() -> GroupModel {
    named_group("Window"@, false)
        .with_child(key_ctrl('w'), cmd("rotate_view"))
        .with_child(key_ch('w'), cmd("rotate_view"))
        .with_child(key_ctrl('s'), cmd("hsplit"))
        .with_child(key_ch('s'), cmd("hsplit"))
        .with_child(key_ctrl('v'), cmd("vsplit"))
        .with_child(key_ch('v'), cmd("vsplit"))
        .with_child(key_ctrl('t'), cmd("transpose_view"))
        .with_child(key_ch('t'), cmd("transpose_view"))
        .with_child(key_ch('f'), cmd("goto_file_vsplit"))
        .with_child(key_ch('F'), cmd("goto_file_hsplit"))
        .with_child(key_ctrl('k'), cmd("wclose"))
        .with_child(key_ch('k'), cmd("wclose"))
        .with_child(key_ctrl('q'), cmd("wclose"))
        .with_child(key_ch('q'), cmd("wclose"))
        .with_child(key_ctrl('o'), cmd("wonly"))
        .with_child(key_ch('o'), cmd("wonly"))
        .with_child(key_ctrl('m'), cmd("jump_view_left"))
        .with_child(key_ch('m'), cmd("jump_view_left"))
        .with_child(key_named(KeyCode::Left), cmd("jump_view_left"))
        .with_child(key_ctrl('n'), cmd("jump_view_down"))
        .with_child(key_ch('n'), cmd("jump_view_down"))
        .with_child(key_named(KeyCode::Down), cmd("jump_view_down"))
        .with_child(key_ctrl('e'), cmd("jump_view_up"))
        .with_child(key_ch('e'), cmd("jump_view_up"))
        .with_child(key_named(KeyCode::Up), cmd("jump_view_up"))
        .with_child(key_ctrl('i'), cmd("jump_view_right"))
        .with_child(key_ch('i'), cmd("jump_view_right"))
        .with_child(key_named(KeyCode::Right), cmd("jump_view_right"))
        .with_child(key_ch('M'), cmd("swap_view_left"))
        .with_child(key_ch('E'), cmd("swap_view_down"))
        .with_child(key_ch('N'), cmd("swap_view_up"))
        .with_child(key_ch('I'), cmd("swap_view_right"))
        .with_child(key_ch('b'), TrieModel::Group(new_split_scratch_buffer_group_model()))
}

fn window_group() -> (r: KeyTrieNode)
    ensures
        r@ == window_group_model(),
        r@.wf(),
        r@.get(key_ctrl('w')) == Some(cmd("rotate_view")),
        r@.get(key_ch('w')) == Some(cmd("rotate_view")),
        r@.get(key_ctrl('s')) == Some(cmd("hsplit")),
        r@.get(key_ch('s')) == Some(cmd("hsplit")),
        r@.get(key_ctrl('v')) == Some(cmd("vsplit")),
        r@.get(key_ch('v')) == Some(cmd("vsplit")),
        r@.get(key_ctrl('t')) == Some(cmd("transpose_view")),
        r@.get(key_ch('t')) == Some(cmd("transpose_view")),
        r@.get(key_ch('f')) == Some(cmd("goto_file_vsplit")),
        r@.get(key_ch('F')) == Some(cmd("goto_file_hsplit")),
        r@.get(key_ctrl('k')) == Some(cmd("wclose")),
        r@.get(key_ch('k')) == Some(cmd("wclose")),
        r@.get(key_ctrl('q')) == Some(cmd("wclose")),
        r@.get(key_ch('q')) == Some(cmd("wclose")),
        r@.get(key_ctrl('o')) == Some(cmd("wonly")),
        r@.get(key_ch('o')) == Some(cmd("wonly")),
        r@.get(key_ctrl('m')) == Some(cmd("jump_view_left")),
        r@.get(key_ch('m')) == Some(cmd("jump_view_left")),
        r@.get(key_named(KeyCode::Left)) == Some(cmd("jump_view_left")),
        r@.get(key_ctrl('n')) == Some(cmd("jump_view_down")),
        r@.get(key_ch('n')) == Some(cmd("jump_view_down")),
        r@.get(key_named(KeyCode::Down)) == Some(cmd("jump_view_down")),
        r@.get(key_ctrl('e')) == Some(cmd("jump_view_up")),
        r@.get(key_ch('e')) == Some(cmd("jump_view_up")),
        r@.get(key_named(KeyCode::Up)) == Some(cmd("jump_view_up")),
        r@.get(key_ctrl('i')) == Some(cmd("jump_view_right")),
        r@.get(key_ch('i')) == Some(cmd("jump_view_right")),
        r@.get(key_named(KeyCode::Right)) == Some(cmd("jump_view_right")),
        r@.get(key_ch('M')) == Some(cmd("swap_view_left")),
        r@.get(key_ch('E')) == Some(cmd("swap_view_down")),
        r@.get(key_ch('N')) == Some(cmd("swap_view_up")),
        r@.get(key_ch('I')) == Some(cmd("swap_view_right")),
        r@.get(key_ch('b')) == Some(TrieModel::Group(new_split_scratch_buffer_group_model())),
        forall|k: KeyEvent|
            
                k != key_ctrl('w')
                && k != key_ch('w')
                && k != key_ctrl('s')
                && k != key_ch('s')
                && k != key_ctrl('v')
                && k != key_ch('v')
                && k != key_ctrl('t')
                && k != key_ch('t')
                && k != key_ch('f')
                && k != key_ch('F')
                && k != key_ctrl('k')
                && k != key_ch('k')
                && k != key_ctrl('q')
                && k != key_ch('q')
                && k != key_ctrl('o')
                && k != key_ch('o')
                && k != key_ctrl('m')
                && k != key_ch('m')
                && k != key_named(KeyCode::Left)
                && k != key_ctrl('n')
                && k != key_ch('n')
                && k != key_named(KeyCode::Down)
                && k != key_ctrl('e')
                && k != key_ch('e')
                && k != key_named(KeyCode::Up)
                && k != key_ctrl('i')
                && k != key_ch('i')
                && k != key_named(KeyCode::Right)
                && k != key_ch('M')
                && k != key_ch('E')
                && k != key_ch('N')
                && k != key_ch('I')
                && k != key_ch('b')
                 ==> #[trigger] r@.get(k) is None,
        !window_group_model().sticky,
        window_group_model().get(key_ctrl('m')) == Some(cmd("jump_view_left")),
        window_group_model().get(key_ch('m')) == Some(cmd("jump_view_left")),
        window_group_model().get(key_named(KeyCode::Left)) == Some(cmd("jump_view_left")),
{
    let mut root = KeyTrieNode::new("Window".to_string(), false);
    command(&mut root, ctrl('w'), "rotate_view");
    command(&mut root, ch('w'), "rotate_view");
    command(&mut root, ctrl('s'), "hsplit");
    command(&mut root, ch('s'), "hsplit");
    command(&mut root, ctrl('v'), "vsplit");
    command(&mut root, ch('v'), "vsplit");
    command(&mut root, ctrl('t'), "transpose_view");
    command(&mut root, ch('t'), "transpose_view");
    command(&mut root, ch('f'), "goto_file_vsplit");
    command(&mut root, ch('F'), "goto_file_hsplit");
    command(&mut root, ctrl('k'), "wclose");
    command(&mut root, ch('k'), "wclose");
    command(&mut root, ctrl('q'), "wclose");
    command(&mut root, ch('q'), "wclose");
    command(&mut root, ctrl('o'), "wonly");
    command(&mut root, ch('o'), "wonly");
    command(&mut root, ctrl('m'), "jump_view_left");
    command(&mut root, ch('m'), "jump_view_left");
    command(&mut root, named(KeyCode::Left), "jump_view_left");
    command(&mut root, ctrl('n'), "jump_view_down");
    command(&mut root, ch('n'), "jump_view_down");
    command(&mut root, named(KeyCode::Down), "jump_view_down");
    command(&mut root, ctrl('e'), "jump_view_up");
    command(&mut root, ch('e'), "jump_view_up");
    command(&mut root, named(KeyCode::Up), "jump_view_up");
    command(&mut root, ctrl('i'), "jump_view_right");
    command(&mut root, ch('i'), "jump_view_right");
    command(&mut root, named(KeyCode::Right), "jump_view_right");
    command(&mut root, ch('M'), "swap_view_left");
    command(&mut root, ch('E'), "swap_view_down");
    command(&mut root, ch('N'), "swap_view_up");
    command(&mut root, ch('I'), "swap_view_right");
    group(&mut root, ch('b'), new_split_scratch_buffer_group());
    root
}

/// The "File" group.
pub open spec fn file_group_model() -> GroupModel {
    named_group("File"@, false)
        .with_child(key_ch('f'), cmd("file_picker"))
        .with_child(key_ch('F'), cmd("file_picker_in_current_directory"))
}

fn file_group() -> (r: KeyTrieNode)
    ensures
        r@ == file_group_model(),
        r@.wf(),
        r@.get(key_ch('f')) == Some(cmd("file_picker")),
        r@.get(key_ch('F')) == Some(cmd("file_picker_in_current_directory")),
        forall|k: KeyEvent|
            k != key_ch('f') && k != key_ch('F') ==> #[trigger] r@.get(k) is None,
{
    let mut root = KeyTrieNode::new("File".to_string(), false);
    command(&mut root, ch('f'), "file_picker");
    command(&mut root, ch('F'), "file_picker_in_current_directory");
    root
}

/// The "Buffer" group.
pub open spec fn buffer_group_model() -> GroupModel {
    named_group("Buffer"@, false)
        .with_child(key_ch('b'), cmd("buffer_picker"))
}

fn buffer_group() -> (r: KeyTrieNode)
    ensures
        r@ == buffer_group_model(),
        r@.wf(),
        r@.get(key_ch('b')) == Some(cmd("buffer_picker")),
        forall|k: KeyEvent|
            k != key_ch('b') ==> #[trigger] r@.get(k) is None,
{
    let mut root = KeyTrieNode::new("Buffer".to_string(), false);
    command(&mut root, ch('b'), "buffer_picker");
    root
}

/// The "Rapid" group.
pub open spec fn rapid_group_model() -> GroupModel {
    named_group("Rapid"@, false)
        .with_child(key_ch('_'), cmd("no_op"))
}

fn rapid_group() -> (r: KeyTrieNode)
    ensures
        r@ == rapid_group_model(),
        r@.wf(),
        r@.get(key_ch('_')) == Some(cmd("no_op")),
        forall|k: KeyEvent|
            k != key_ch('_') ==> #[trigger] r@.get(k) is None,
{
    let mut root = KeyTrieNode::new("Rapid".to_string(), false);
    command(&mut root, ch('_'), "no_op");
    root
}

/// The "Switch" group.
pub open spec fn switch_group_model() -> GroupModel {
    named_group("Switch"@, false)
        .with_child(key_ch('t'), cmd("dap_switch_thread"))
        .with_child(key_ch('f'), cmd("dap_switch_stack_frame"))
}

fn switch_group() -> (r: KeyTrieNode)
    ensures
        r@ == switch_group_model(),
        r@.wf(),
        r@.get(key_ch('t')) == Some(cmd("dap_switch_thread")),
        r@.get(key_ch('f')) == Some(cmd("dap_switch_stack_frame")),
        forall|k: KeyEvent|
            k != key_ch('t') && k != key_ch('f') ==> #[trigger] r@.get(k) is None,
{
    let mut root = KeyTrieNode::new("Switch".to_string(), false);
    command(&mut root, ch('t'), "dap_switch_thread");
    command(&mut root, ch('f'), "dap_switch_stack_frame");
    root
}

/// The "Debug (experimental)" group, which stays open after a command.
pub open spec fn debug_experimental_sticky_group_model() -> GroupModel {
    named_group("Debug (experimental)"@, true)
        .with_child(key_ch('l'), cmd("dap_launch"))
        .with_child(key_ch('r'), cmd("dap_restart"))
        .with_child(key_ch('b'), cmd("dap_toggle_breakpoint"))
        .with_child(key_ch('c'), cmd("dap_continue"))
        .with_child(key_ch('h'), cmd("dap_pause"))
        .with_child(key_ch('i'), cmd("dap_step_in"))
        .with_child(key_ch('o'), cmd("dap_step_out"))
        .with_child(key_ch('n'), cmd("dap_next"))
        .with_child(key_ch('v'), cmd("dap_variables"))
        .with_child(key_ch('t'), cmd("dap_terminate"))
        .with_child(key_ctrl('c'), cmd("dap_edit_condition"))
        .with_child(key_ctrl('l'), cmd("dap_edit_log"))
        .with_child(key_ch('s'), TrieModel::Group(switch_group_model()))
        .with_child(key_ch('e'), cmd("dap_enable_exceptions"))
        .with_child(key_ch('E'), cmd("dap_disable_exceptions"))
}

fn debug_experimental_sticky_group() -> (r: KeyTrieNode)
    ensures
        r@ == debug_experimental_sticky_group_model(),
        r@.wf(),
        r@.get(key_ch('l')) == Some(cmd("dap_launch")),
        r@.get(key_ch('r')) == Some(cmd("dap_restart")),
        r@.get(key_ch('b')) == Some(cmd("dap_toggle_breakpoint")),
        r@.get(key_ch('c')) == Some(cmd("dap_continue")),
        r@.get(key_ch('h')) == Some(cmd("dap_pause")),
        r@.get(key_ch('i')) == Some(cmd("dap_step_in")),
        r@.get(key_ch('o')) == Some(cmd("dap_step_out")),
        r@.get(key_ch('n')) == Some(cmd("dap_next")),
        r@.get(key_ch('v')) == Some(cmd("dap_variables")),
        r@.get(key_ch('t')) == Some(cmd("dap_terminate")),
        r@.get(key_ctrl('c')) == Some(cmd("dap_edit_condition")),
        r@.get(key_ctrl('l')) == Some(cmd("dap_edit_log")),
        r@.get(key_ch('s')) == Some(TrieModel::Group(switch_group_model())),
        r@.get(key_ch('e')) == Some(cmd("dap_enable_exceptions")),
        r@.get(key_ch('E')) == Some(cmd("dap_disable_exceptions")),
        forall|k: KeyEvent|
            
                k != key_ch('l')
                && k != key_ch('r')
                && k != key_ch('b')
                && k != key_ch('c')
                && k != key_ch('h')
                && k != key_ch('i')
                && k != key_ch('o')
                && k != key_ch('n')
                && k != key_ch('v')
                && k != key_ch('t')
                && k != key_ctrl('c')
                && k != key_ctrl('l')
                && k != key_ch('s')
                && k != key_ch('e')
                && k != key_ch('E')
                 ==> #[trigger] r@.get(k) is None,
        debug_experimental_sticky_group_model().sticky,
        debug_experimental_sticky_group_model().name == "Debug (experimental)"@,
{
    let mut root = KeyTrieNode::new("Debug (experimental)".to_string(), true);
    command(&mut root, ch('l'), "dap_launch");
    command(&mut root, ch('r'), "dap_restart");
    command(&mut root, ch('b'), "dap_toggle_breakpoint");
    command(&mut root, ch('c'), "dap_continue");
    command(&mut root, ch('h'), "dap_pause");
    command(&mut root, ch('i'), "dap_step_in");
    command(&mut root, ch('o'), "dap_step_out");
    command(&mut root, ch('n'), "dap_next");
    command(&mut root, ch('v'), "dap_variables");
    command(&mut root, ch('t'), "dap_terminate");
    command(&mut root, ctrl('c'), "dap_edit_condition");
    command(&mut root, ctrl('l'), "dap_edit_log");
    group(&mut root, ch('s'), switch_group());
    command(&mut root, ch('e'), "dap_enable_exceptions");
    command(&mut root, ch('E'), "dap_disable_exceptions");
    root
}

/// The "Comments" group.
pub open spec fn comments_group_model() -> GroupModel {
    named_group("Comments"@, false)
        .with_child(key_ch('c'), cmd("toggle_comments"))
        .with_child(key_ch('C'), cmd("toggle_block_comments"))
        .with_child(key_ch('l'), cmd("toggle_line_comments"))
}

fn comments_group() -> (r: KeyTrieNode)
    ensures
        r@ == comments_group_model(),
        r@.wf(),
        r@.get(key_ch('c')) == Some(cmd("toggle_comments")),
        r@.get(key_ch('C')) == Some(cmd("toggle_block_comments")),
        r@.get(key_ch('l')) == Some(cmd("toggle_line_comments")),
        forall|k: KeyEvent|
            
                k != key_ch('c')
                && k != key_ch('C')
                && k != key_ch('l')
                 ==> #[trigger] r@.get(k) is None,
{
    let mut root = KeyTrieNode::new("Comments".to_string(), false);
    command(&mut root, ch('c'), "toggle_comments");
    command(&mut root, ch('C'), "toggle_block_comments");
    command(&mut root, ch('l'), "toggle_line_comments");
    root
}

/// The "Project" group.
pub open spec fn project_group_model() -> GroupModel {
    named_group("Project"@, false)
        .with_child(key_ch('a'), cmd("code_action"))
        .with_child(key_ch('d'), cmd("diagnostics_picker"))
        .with_child(key_ch('D'), cmd("workspace_diagnostics_picker"))
        .with_child(key_ch('k'), cmd("hover"))
        .with_child(key_ch('r'), cmd("rename_symbol"))
        .with_child(key_ch('R'), cmd("select_references_to_symbol_under_cursor"))
        .with_child(key_ch('s'), cmd("lsp_or_syntax_symbol_picker"))
        .with_child(key_ch('S'), cmd("lsp_or_syntax_workspace_symbol_picker"))
}

fn project_group() -> (r: KeyTrieNode)
    ensures
        r@ == project_group_model(),
        r@.wf(),
        r@.get(key_ch('a')) == Some(cmd("code_action")),
        r@.get(key_ch('d')) == Some(cmd("diagnostics_picker")),
        r@.get(key_ch('D')) == Some(cmd("workspace_diagnostics_picker")),
        r@.get(key_ch('k')) == Some(cmd("hover")),
        r@.get(key_ch('r')) == Some(cmd("rename_symbol")),
        r@.get(key_ch('R')) == Some(cmd("select_references_to_symbol_under_cursor")),
        r@.get(key_ch('s')) == Some(cmd("lsp_or_syntax_symbol_picker")),
        r@.get(key_ch('S')) == Some(cmd("lsp_or_syntax_workspace_symbol_picker")),
        forall|k: KeyEvent|
            
                k != key_ch('a')
                && k != key_ch('d')
                && k != key_ch('D')
                && k != key_ch('k')
                && k != key_ch('r')
                && k != key_ch('R')
                && k != key_ch('s')
                && k != key_ch('S')
                 ==> #[trigger] r@.get(k) is None,
{
    let mut root = KeyTrieNode::new("Project".to_string(), false);
    command(&mut root, ch('a'), "code_action");
    command(&mut root, ch('d'), "diagnostics_picker");
    command(&mut root, ch('D'), "workspace_diagnostics_picker");
    command(&mut root, ch('k'), "hover");
    command(&mut root, ch('r'), "rename_symbol");
    command(&mut root, ch('R'), "select_references_to_symbol_under_cursor");
    command(&mut root, ch('s'), "lsp_or_syntax_symbol_picker");
    command(&mut root, ch('S'), "lsp_or_syntax_workspace_symbol_picker");
    root
}

/// The "Toggle" group.
pub open spec fn toggle_group_model() -> GroupModel {
    named_group("Toggle"@, false)
        .with_child(key_ch('_'), cmd("no_op"))
}

fn toggle_group() -> (r: KeyTrieNode)
    ensures
        r@ == toggle_group_model(),
        r@.wf(),
        r@.get(key_ch('_')) == Some(cmd("no_op")),
        forall|k: KeyEvent|
            k != key_ch('_') ==> #[trigger] r@.get(k) is None,
{
    let mut root = KeyTrieNode::new("Toggle".to_string(), false);
    command(&mut root, ch('_'), "no_op");
    root
}

/// The "Text manipulation" group.
pub open spec fn text_manipulation_group_model() -> GroupModel {
    named_group("Text manipulation"@, false)
        .with_child(key_ch('='), cmd("format_selections"))
        .with_child(key_ch('p'), cmd("paste_clipboard_after"))
        .with_child(key_ch('P'), cmd("paste_clipboard_before"))
        .with_child(key_ch('y'), cmd("yank_to_clipboard"))
        .with_child(key_ch('Y'), cmd("yank_joined_to_clipboard"))
        .with_child(key_ch('V'), cmd("replace_selections_with_clipboard"))
}

fn text_manipulation_group() -> (r: KeyTrieNode)
    ensures
        r@ == text_manipulation_group_model(),
        r@.wf(),
        r@.get(key_ch('=')) == Some(cmd("format_selections")),
        r@.get(key_ch('p')) == Some(cmd("paste_clipboard_after")),
        r@.get(key_ch('P')) == Some(cmd("paste_clipboard_before")),
        r@.get(key_ch('y')) == Some(cmd("yank_to_clipboard")),
        r@.get(key_ch('Y')) == Some(cmd("yank_joined_to_clipboard")),
        r@.get(key_ch('V')) == Some(cmd("replace_selections_with_clipboard")),
        forall|k: KeyEvent|
            
                k != key_ch('=')
                && k != key_ch('p')
                && k != key_ch('P')
                && k != key_ch('y')
                && k != key_ch('Y')
                && k != key_ch('V')
                 ==> #[trigger] r@.get(k) is None,
{
    let mut root = KeyTrieNode::new("Text manipulation".to_string(), false);
    command(&mut root, ch('='), "format_selections");
    command(&mut root, ch('p'), "paste_clipboard_after");
    command(&mut root, ch('P'), "paste_clipboard_before");
    command(&mut root, ch('y'), "yank_to_clipboard");
    command(&mut root, ch('Y'), "yank_joined_to_clipboard");
    command(&mut root, ch('V'), "replace_selections_with_clipboard");
    root
}

/// The "Quit" group.
pub open spec fn quit_group_model() -> GroupModel {
    named_group("Quit"@, false)
        .with_child(key_ch('_'), cmd("no_op"))
}

fn quit_group() -> (r: KeyTrieNode)
    ensures
        r@ == quit_group_model(),
        r@.wf(),
        r@.get(key_ch('_')) == Some(cmd("no_op")),
        forall|k: KeyEvent|
            k != key_ch('_') ==> #[trigger] r@.get(k) is None,
{
    let mut root = KeyTrieNode::new("Quit".to_string(), false);
    command(&mut root, ch('_'), "no_op");
    root
}

/// The "Background/Shell" group.
pub open spec fn background_shell_group_model() -> GroupModel {
    named_group("Background/Shell"@, false)
        .with_child(key_ch('a'), cmd("shell_append_output"))
        .with_child(key_ch('i'), cmd("shell_insert_output"))
        .with_child(key_ch('k'), cmd("shell_keep_pipe"))
        .with_child(key_ch('p'), cmd("shell_pipe"))
        .with_child(key_ch('P'), cmd("shell_pipe_to"))
        .with_child(key_ch('z'), cmd("suspend"))
}

fn background_shell_group() -> (r: KeyTrieNode)
    ensures
        r@ == background_shell_group_model(),
        r@.wf(),
        r@.get(key_ch('a')) == Some(cmd("shell_append_output")),
        r@.get(key_ch('i')) == Some(cmd("shell_insert_output")),
        r@.get(key_ch('k')) == Some(cmd("shell_keep_pipe")),
        r@.get(key_ch('p')) == Some(cmd("shell_pipe")),
        r@.get(key_ch('P')) == Some(cmd("shell_pipe_to")),
        r@.get(key_ch('z')) == Some(cmd("suspend")),
        forall|k: KeyEvent|
            
                k != key_ch('a')
                && k != key_ch('i')
                && k != key_ch('k')
                && k != key_ch('p')
                && k != key_ch('P')
                && k != key_ch('z')
                 ==> #[trigger] r@.get(k) is None,
{
    let mut root = KeyTrieNode::new("Background/Shell".to_string(), false);
    command(&mut root, ch('a'), "shell_append_output");
    command(&mut root, ch('i'), "shell_insert_output");
    command(&mut root, ch('k'), "shell_keep_pipe");
    command(&mut root, ch('p'), "shell_pipe");
    command(&mut root, ch('P'), "shell_pipe_to");
    command(&mut root, ch('z'), "suspend");
    root
}

/// The "Space" group.
pub open spec fn space_group_model() -> GroupModel {
    named_group("Space"@, false)
        .with_child(key_ch('f'), TrieModel::Group(file_group_model()))
        .with_child(key_ch('e'), cmd("file_explorer"))
        .with_child(key_ch('E'), cmd("file_explorer_in_current_buffer_directory"))
        .with_child(key_ch('b'), TrieModel::Group(buffer_group_model()))
        .with_child(key_ch('r'), TrieModel::Group(rapid_group_model()))
        .with_child(key_ch('j'), cmd("jumplist_picker"))
        .with_child(key_ch('g'), cmd("changed_file_picker"))
        .with_child(key_ch('\''), cmd("last_picker"))
        .with_child(key_ch('G'), TrieModel::Group(debug_experimental_sticky_group_model()))
        .with_child(key_ch('w'), TrieModel::Group(window_group_model()))
        .with_child(key_ch('/'), cmd("global_search"))
        .with_child(key_ch('?'), cmd("command_palette"))
        .with_child(key_ch('c'), TrieModel::Group(comments_group_model()))
        .with_child(key_ch('p'), TrieModel::Group(project_group_model()))
        .with_child(key_ch('t'), TrieModel::Group(toggle_group_model()))
        .with_child(key_ch('x'), TrieModel::Group(text_manipulation_group_model()))
        .with_child(key_ch('q'), TrieModel::Group(quit_group_model()))
        .with_child(key_ch('z'), TrieModel::Group(background_shell_group_model()))
}

fn space_group() -> (r: KeyTrieNode)
    ensures
        r@ == space_group_model(),
        r@.wf(),
        r@.get(key_ch('f')) == Some(TrieModel::Group(file_group_model())),
        r@.get(key_ch('e')) == Some(cmd("file_explorer")),
        r@.get(key_ch('E')) == Some(cmd("file_explorer_in_current_buffer_directory")),
        r@.get(key_ch('b')) == Some(TrieModel::Group(buffer_group_model())),
        r@.get(key_ch('r')) == Some(TrieModel::Group(rapid_group_model())),
        r@.get(key_ch('j')) == Some(cmd("jumplist_picker")),
        r@.get(key_ch('g')) == Some(cmd("changed_file_picker")),
        r@.get(key_ch('\'')) == Some(cmd("last_picker")),
        r@.get(key_ch('G')) == Some(TrieModel::Group(debug_experimental_sticky_group_model())),
        r@.get(key_ch('w')) == Some(TrieModel::Group(window_group_model())),
        r@.get(key_ch('/')) == Some(cmd("global_search")),
        r@.get(key_ch('?')) == Some(cmd("command_palette")),
        r@.get(key_ch('c')) == Some(TrieModel::Group(comments_group_model())),
        r@.get(key_ch('p')) == Some(TrieModel::Group(project_group_model())),
        r@.get(key_ch('t')) == Some(TrieModel::Group(toggle_group_model())),
        r@.get(key_ch('x')) == Some(TrieModel::Group(text_manipulation_group_model())),
        r@.get(key_ch('q')) == Some(TrieModel::Group(quit_group_model())),
        r@.get(key_ch('z')) == Some(TrieModel::Group(background_shell_group_model())),
        forall|k: KeyEvent|
            
                k != key_ch('f')
                && k != key_ch('e')
                && k != key_ch('E')
                && k != key_ch('b')
                && k != key_ch('r')
                && k != key_ch('j')
                && k != key_ch('g')
                && k != key_ch('\'')
                && k != key_ch('G')
                && k != key_ch('w')
                && k != key_ch('/')
                && k != key_ch('?')
                && k != key_ch('c')
                && k != key_ch('p')
                && k != key_ch('t')
                && k != key_ch('x')
                && k != key_ch('q')
                && k != key_ch('z')
                 ==> #[trigger] r@.get(k) is None,
        debug_experimental_sticky_group_model().sticky,
        debug_experimental_sticky_group_model().name == "Debug (experimental)"@,
        !window_group_model().sticky,
        window_group_model().get(key_ctrl('m')) == Some(cmd("jump_view_left")),
        window_group_model().get(key_ch('m')) == Some(cmd("jump_view_left")),
        window_group_model().get(key_named(KeyCode::Left)) == Some(cmd("jump_view_left")),
        !space_group_model().sticky,
        space_group_model().get(key_ch('w')) == Some(TrieModel::Group(window_group_model())),
        space_group_model().get(key_ch('G')) == Some(TrieModel::Group(debug_experimental_sticky_group_model())),
{
    let mut root = KeyTrieNode::new("Space".to_string(), false);
    group(&mut root, ch('f'), file_group());
    command(&mut root, ch('e'), "file_explorer");
    command(&mut root, ch('E'), "file_explorer_in_current_buffer_directory");
    group(&mut root, ch('b'), buffer_group());
    group(&mut root, ch('r'), rapid_group());
    command(&mut root, ch('j'), "jumplist_picker");
    command(&mut root, ch('g'), "changed_file_picker");
    command(&mut root, ch('\''), "last_picker");
    group(&mut root, ch('G'), debug_experimental_sticky_group());
    group(&mut root, ch('w'), window_group());
    command(&mut root, ch('/'), "global_search");
    command(&mut root, ch('?'), "command_palette");
    group(&mut root, ch('c'), comments_group());
    group(&mut root, ch('p'), project_group());
    group(&mut root, ch('t'), toggle_group());
    group(&mut root, ch('x'), text_manipulation_group());
    group(&mut root, ch('q'), quit_group());
    group(&mut root, ch('z'), background_shell_group());
    root
}

/// The "View" group.
pub open spec fn view_group_model() -> GroupModel {
    named_group("View"@, false)
        .with_child(key_ch('z'), cmd("align_view_center"))
        .with_child(key_ch('c'), cmd("align_view_center"))
        .with_child(key_ch('t'), cmd("align_view_top"))
        .with_child(key_ch('b'), cmd("align_view_bottom"))
        .with_child(key_ch('m'), cmd("align_view_middle"))
        .with_child(key_ch('e'), cmd("scroll_up"))
        .with_child(key_named(KeyCode::Up), cmd("scroll_up"))
        .with_child(key_ch('n'), cmd("scroll_down"))
        .with_child(key_named(KeyCode::Down), cmd("scroll_down"))
        .with_child(key_ctrl('E'), cmd("page_up"))
        .with_child(key_ctrl('b'), cmd("page_up"))
        .with_child(key_named(KeyCode::PageUp), cmd("page_up"))
        .with_child(key_ctrl('N'), cmd("page_down"))
        .with_child(key_ctrl('f'), cmd("page_down"))
        .with_child(key_named(KeyCode::PageDown), cmd("page_down"))
        .with_child(key_ctrl('u'), cmd("page_cursor_half_up"))
        .with_child(key_named(KeyCode::Backspace), cmd("page_cursor_half_up"))
        .with_child(key_ctrl('d'), cmd("page_cursor_half_down"))
        .with_child(key_ch(' '), cmd("page_cursor_half_down"))
        .with_child(key_ch('/'), cmd("search"))
        .with_child(key_ch('?'), cmd("rsearch"))
        .with_child(key_ch('h'), cmd("search_next"))
        .with_child(key_ch('H'), cmd("search_prev"))
}

fn view_group() -> (r: KeyTrieNode)
    ensures
        r@ == view_group_model(),
        r@.wf(),
        r@.get(key_ch('z')) == Some(cmd("align_view_center")),
        r@.get(key_ch('c')) == Some(cmd("align_view_center")),
        r@.get(key_ch('t')) == Some(cmd("align_view_top")),
        r@.get(key_ch('b')) == Some(cmd("align_view_bottom")),
        r@.get(key_ch('m')) == Some(cmd("align_view_middle")),
        r@.get(key_ch('e')) == Some(cmd("scroll_up")),
        r@.get(key_named(KeyCode::Up)) == Some(cmd("scroll_up")),
        r@.get(key_ch('n')) == Some(cmd("scroll_down")),
        r@.get(key_named(KeyCode::Down)) == Some(cmd("scroll_down")),
        r@.get(key_ctrl('E')) == Some(cmd("page_up")),
        r@.get(key_ctrl('b')) == Some(cmd("page_up")),
        r@.get(key_named(KeyCode::PageUp)) == Some(cmd("page_up")),
        r@.get(key_ctrl('N')) == Some(cmd("page_down")),
        r@.get(key_ctrl('f')) == Some(cmd("page_down")),
        r@.get(key_named(KeyCode::PageDown)) == Some(cmd("page_down")),
        r@.get(key_ctrl('u')) == Some(cmd("page_cursor_half_up")),
        r@.get(key_named(KeyCode::Backspace)) == Some(cmd("page_cursor_half_up")),
        r@.get(key_ctrl('d')) == Some(cmd("page_cursor_half_down")),
        r@.get(key_ch(' ')) == Some(cmd("page_cursor_half_down")),
        r@.get(key_ch('/')) == Some(cmd("search")),
        r@.get(key_ch('?')) == Some(cmd("rsearch")),
        r@.get(key_ch('h')) == Some(cmd("search_next")),
        r@.get(key_ch('H')) == Some(cmd("search_prev")),
        forall|k: KeyEvent|
            
                k != key_ch('z')
                && k != key_ch('c')
                && k != key_ch('t')
                && k != key_ch('b')
                && k != key_ch('m')
                && k != key_ch('e')
                && k != key_named(KeyCode::Up)
                && k != key_ch('n')
                && k != key_named(KeyCode::Down)
                && k != key_ctrl('E')
                && k != key_ctrl('b')
                && k != key_named(KeyCode::PageUp)
                && k != key_ctrl('N')
                && k != key_ctrl('f')
                && k != key_named(KeyCode::PageDown)
                && k != key_ctrl('u')
                && k != key_named(KeyCode::Backspace)
                && k != key_ctrl('d')
                && k != key_ch(' ')
                && k != key_ch('/')
                && k != key_ch('?')
                && k != key_ch('h')
                && k != key_ch('H')
                 ==> #[trigger] r@.get(k) is None,
        !view_group_model().sticky,
        view_group_model().get(key_ch('z')) == Some(cmd("align_view_center")),
        view_group_model().get(key_ch('t')) == Some(cmd("align_view_top")),
{
    let mut root = KeyTrieNode::new("View".to_string(), false);
    command(&mut root, ch('z'), "align_view_center");
    command(&mut root, ch('c'), "align_view_center");
    command(&mut root, ch('t'), "align_view_top");
    command(&mut root, ch('b'), "align_view_bottom");
    command(&mut root, ch('m'), "align_view_middle");
    command(&mut root, ch('e'), "scroll_up");
    command(&mut root, named(KeyCode::Up), "scroll_up");
    command(&mut root, ch('n'), "scroll_down");
    command(&mut root, named(KeyCode::Down), "scroll_down");
    command(&mut root, ctrl('E'), "page_up");
    command(&mut root, ctrl('b'), "page_up");
    command(&mut root, named(KeyCode::PageUp), "page_up");
    command(&mut root, ctrl('N'), "page_down");
    command(&mut root, ctrl('f'), "page_down");
    command(&mut root, named(KeyCode::PageDown), "page_down");
    command(&mut root, ctrl('u'), "page_cursor_half_up");
    command(&mut root, named(KeyCode::Backspace), "page_cursor_half_up");
    command(&mut root, ctrl('d'), "page_cursor_half_down");
    command(&mut root, ch(' '), "page_cursor_half_down");
    command(&mut root, ch('/'), "search");
    command(&mut root, ch('?'), "rsearch");
    command(&mut root, ch('h'), "search_next");
    command(&mut root, ch('H'), "search_prev");
    root
}

/// The "View" group, which stays open after a command.
pub open spec fn view_sticky_group_model() -> GroupModel {
    named_group("View"@, true)
        .with_child(key_ch('z'), cmd("align_view_center"))
        .with_child(key_ch('c'), cmd("align_view_center"))
        .with_child(key_ch('t'), cmd("align_view_top"))
        .with_child(key_ch('b'), cmd("align_view_bottom"))
        .with_child(key_ch('m'), cmd("align_view_middle"))
        .with_child(key_ch('e'), cmd("scroll_up"))
        .with_child(key_named(KeyCode::Up), cmd("scroll_up"))
        .with_child(key_ch('n'), cmd("scroll_down"))
        .with_child(key_named(KeyCode::Down), cmd("scroll_down"))
        .with_child(key_ctrl('E'), cmd("page_up"))
        .with_child(key_ctrl('b'), cmd("page_up"))
        .with_child(key_named(KeyCode::PageUp), cmd("page_up"))
        .with_child(key_ctrl('N'), cmd("page_down"))
        .with_child(key_ctrl('f'), cmd("page_down"))
        .with_child(key_named(KeyCode::PageDown), cmd("page_down"))
        .with_child(key_ctrl('u'), cmd("page_cursor_half_up"))
        .with_child(key_named(KeyCode::Backspace), cmd("page_cursor_half_up"))
        .with_child(key_ctrl('d'), cmd("page_cursor_half_down"))
        .with_child(key_ch(' '), cmd("page_cursor_half_down"))
        .with_child(key_ch('/'), cmd("search"))
        .with_child(key_ch('?'), cmd("rsearch"))
        .with_child(key_ch('h'), cmd("search_next"))
        .with_child(key_ch('H'), cmd("search_prev"))
}

fn view_sticky_group() -> (r: KeyTrieNode)
    ensures
        r@ == view_sticky_group_model(),
        r@.wf(),
        r@.get(key_ch('z')) == Some(cmd("align_view_center")),
        r@.get(key_ch('c')) == Some(cmd("align_view_center")),
        r@.get(key_ch('t')) == Some(cmd("align_view_top")),
        r@.get(key_ch('b')) == Some(cmd("align_view_bottom")),
        r@.get(key_ch('m')) == Some(cmd("align_view_middle")),
        r@.get(key_ch('e')) == Some(cmd("scroll_up")),
        r@.get(key_named(KeyCode::Up)) == Some(cmd("scroll_up")),
        r@.get(key_ch('n')) == Some(cmd("scroll_down")),
        r@.get(key_named(KeyCode::Down)) == Some(cmd("scroll_down")),
        r@.get(key_ctrl('E')) == Some(cmd("page_up")),
        r@.get(key_ctrl('b')) == Some(cmd("page_up")),
        r@.get(key_named(KeyCode::PageUp)) == Some(cmd("page_up")),
        r@.get(key_ctrl('N')) == Some(cmd("page_down")),
        r@.get(key_ctrl('f')) == Some(cmd("page_down")),
        r@.get(key_named(KeyCode::PageDown)) == Some(cmd("page_down")),
        r@.get(key_ctrl('u')) == Some(cmd("page_cursor_half_up")),
        r@.get(key_named(KeyCode::Backspace)) == Some(cmd("page_cursor_half_up")),
        r@.get(key_ctrl('d')) == Some(cmd("page_cursor_half_down")),
        r@.get(key_ch(' ')) == Some(cmd("page_cursor_half_down")),
        r@.get(key_ch('/')) == Some(cmd("search")),
        r@.get(key_ch('?')) == Some(cmd("rsearch")),
        r@.get(key_ch('h')) == Some(cmd("search_next")),
        r@.get(key_ch('H')) == Some(cmd("search_prev")),
        forall|k: KeyEvent|
            
                k != key_ch('z')
                && k != key_ch('c')
                && k != key_ch('t')
                && k != key_ch('b')
                && k != key_ch('m')
                && k != key_ch('e')
                && k != key_named(KeyCode::Up)
                && k != key_ch('n')
                && k != key_named(KeyCode::Down)
                && k != key_ctrl('E')
                && k != key_ctrl('b')
                && k != key_named(KeyCode::PageUp)
                && k != key_ctrl('N')
                && k != key_ctrl('f')
                && k != key_named(KeyCode::PageDown)
                && k != key_ctrl('u')
                && k != key_named(KeyCode::Backspace)
                && k != key_ctrl('d')
                && k != key_ch(' ')
                && k != key_ch('/')
                && k != key_ch('?')
                && k != key_ch('h')
                && k != key_ch('H')
                 ==> #[trigger] r@.get(k) is None,
        view_sticky_group_model().sticky,
        view_sticky_group_model().get(key_ch('z')) == Some(cmd("align_view_center")),
        view_sticky_group_model().get(key_ch('t')) == Some(cmd("align_view_top")),
{
    let mut root = KeyTrieNode::new("View".to_string(), true);
    command(&mut root, ch('z'), "align_view_center");
    command(&mut root, ch('c'), "align_view_center");
    command(&mut root, ch('t'), "align_view_top");
    command(&mut root, ch('b'), "align_view_bottom");
    command(&mut root, ch('m'), "align_view_middle");
    command(&mut root, ch('e'), "scroll_up");
    command(&mut root, named(KeyCode::Up), "scroll_up");
    command(&mut root, ch('n'), "scroll_down");
    command(&mut root, named(KeyCode::Down), "scroll_down");
    command(&mut root, ctrl('E'), "page_up");
    command(&mut root, ctrl('b'), "page_up");
    command(&mut root, named(KeyCode::PageUp), "page_up");
    command(&mut root, ctrl('N'), "page_down");
    command(&mut root, ctrl('f'), "page_down");
    command(&mut root, named(KeyCode::PageDown), "page_down");
    command(&mut root, ctrl('u'), "page_cursor_half_up");
    command(&mut root, named(KeyCode::Backspace), "page_cursor_half_up");
    command(&mut root, ctrl('d'), "page_cursor_half_down");
    command(&mut root, ch(' '), "page_cursor_half_down");
    command(&mut root, ch('/'), "search");
    command(&mut root, ch('?'), "rsearch");
    command(&mut root, ch('h'), "search_next");
    command(&mut root, ch('H'), "search_prev");
    root
}

/// What select mode changes relative to normal mode.
pub open spec fn select_overlay_model() -> GroupModel {
    let g = named_group("Select mode"@, false);
    let g = select_overlay_part1_model(g);
    let g = select_overlay_part2_model(g);
    g
}

fn select_overlay() -> (r: KeyTrieNode)
    ensures
        r@ == select_overlay_model(),
        r@.wf(),
        select_goto_group_model().wf(),
        select_goto_group_model().get(key_ch('g')) == Some(cmd("extend_to_file_start")),
        select_goto_group_model().get(key_ch('w')) == Some(cmd("extend_to_word")),
        select_goto_group_model().get(key_ch('f')) is None,
        r@.get(key_ch('r')) == Some(cmd("normal_mode")),
        r@.get(key_ch('g')) == Some(TrieModel::Group(select_goto_group_model())),
        r@.get(key_ch('E')) == Some(cmd("page_cursor_half_up")),
        r@.get(key_ch('N')) == Some(cmd("page_cursor_half_down")),
        r@.get(key_ch('m')) == Some(cmd("extend_char_left")),
        forall|k: KeyEvent| #[trigger] digit_of(k) is Some ==> r@.get(k) is None,
{
    let mut root = KeyTrieNode::new("Select mode".to_string(), false);
    select_overlay_part1(&mut root);
    select_overlay_part2(&mut root);
    root
}

pub open spec fn select_overlay_part1_model(g: GroupModel) -> GroupModel {
    g
        .with_child(key_ch('m'), cmd("extend_char_left"))
        .with_child(key_named(KeyCode::Left), cmd("extend_char_left"))
        .with_child(key_ch('n'), cmd("extend_visual_line_down"))
        .with_child(key_named(KeyCode::Down), cmd("extend_visual_line_down"))
        .with_child(key_ch('e'), cmd("extend_visual_line_up"))
        .with_child(key_named(KeyCode::Up), cmd("extend_visual_line_up"))
        .with_child(key_ch('i'), cmd("extend_char_right"))
        .with_child(key_named(KeyCode::Right), cmd("extend_char_right"))
        .with_child(key_ch('E'), cmd("page_cursor_half_up"))
        .with_child(key_ch('N'), cmd("page_cursor_half_down"))
        .with_child(key_ch('w'), cmd("extend_next_word_start"))
        .with_child(key_ch('b'), cmd("extend_prev_word_start"))
        .with_child(key_ch('f'), cmd("extend_next_word_end"))
        .with_child(key_ch('W'), cmd("extend_next_long_word_start"))
        .with_child(key_ch('B'), cmd("extend_prev_long_word_start"))
        .with_child(key_ch('F'), cmd("extend_next_long_word_end"))
        .with_child(key_ch('j'), TrieModel::Group(select_jump_group_model()))
        .with_child(key_ch('h'), cmd("extend_search_next"))
        .with_child(key_ch('H'), cmd("extend_search_prev"))
        .with_child(key_ch('s'), TrieModel::Group(select_search_group_model()))
}

#[verifier::rlimit(100)]
fn select_overlay_part1(root: &mut KeyTrieNode)
    requires
        old(root)@.wf(),
    ensures
        final(root)@ == select_overlay_part1_model(old(root)@),
        final(root)@.wf(),
        final(root)@.get(key_ch('r')) == old(root)@.get(key_ch('r')),
        final(root)@.get(key_ch('g')) == old(root)@.get(key_ch('g')),
        final(root)@.get(key_ch('E')) == Some(cmd("page_cursor_half_up")),
        final(root)@.get(key_ch('N')) == Some(cmd("page_cursor_half_down")),
        final(root)@.get(key_ch('m')) == Some(cmd("extend_char_left")),
        forall|k: KeyEvent| #[trigger] digit_of(k) is Some ==> final(root)@.get(k) == old(root)@.get(k),
{
    command(root, ch('m'), "extend_char_left");
    command(root, named(KeyCode::Left), "extend_char_left");
    command(root, ch('n'), "extend_visual_line_down");
    command(root, named(KeyCode::Down), "extend_visual_line_down");
    command(root, ch('e'), "extend_visual_line_up");
    command(root, named(KeyCode::Up), "extend_visual_line_up");
    command(root, ch('i'), "extend_char_right");
    command(root, named(KeyCode::Right), "extend_char_right");
    command(root, ch('E'), "page_cursor_half_up");
    command(root, ch('N'), "page_cursor_half_down");
    command(root, ch('w'), "extend_next_word_start");
    command(root, ch('b'), "extend_prev_word_start");
    command(root, ch('f'), "extend_next_word_end");
    command(root, ch('W'), "extend_next_long_word_start");
    command(root, ch('B'), "extend_prev_long_word_start");
    command(root, ch('F'), "extend_next_long_word_end");
    group(root, ch('j'), select_jump_group());
    command(root, ch('h'), "extend_search_next");
    command(root, ch('H'), "extend_search_prev");
    group(root, ch('s'), select_search_group());
}

pub open spec fn select_overlay_part2_model(g: GroupModel) -> GroupModel {
    g
        .with_child(key_ch('\''), cmd("extend_repeat_last_motion"))
        .with_child(key_ch('"'), cmd("extend_repeat_last_motion_reverse"))
        .with_child(key_named(KeyCode::Home), cmd("extend_to_line_start"))
        .with_child(key_named(KeyCode::End), cmd("extend_to_line_end"))
        .with_child(key_named(KeyCode::Esc), cmd("exit_select_mode"))
        .with_child(key_ch('r'), cmd("normal_mode"))
        .with_child(key_ch('G'), cmd("extend_to_last_line"))
        .with_child(key_ch('g'), TrieModel::Group(select_goto_group_model()))
}

#[verifier::rlimit(100)]
fn select_overlay_part2(root: &mut KeyTrieNode)
    requires
        old(root)@.wf(),
    ensures
        final(root)@ == select_overlay_part2_model(old(root)@),
        final(root)@.wf(),
        select_goto_group_model().wf(),
        select_goto_group_model().get(key_ch('g')) == Some(cmd("extend_to_file_start")),
        select_goto_group_model().get(key_ch('w')) == Some(cmd("extend_to_word")),
        select_goto_group_model().get(key_ch('f')) is None,
        final(root)@.get(key_ch('r')) == Some(cmd("normal_mode")),
        final(root)@.get(key_ch('g')) == Some(TrieModel::Group(select_goto_group_model())),
        final(root)@.get(key_ch('E')) == old(root)@.get(key_ch('E')),
        final(root)@.get(key_ch('N')) == old(root)@.get(key_ch('N')),
        final(root)@.get(key_ch('m')) == old(root)@.get(key_ch('m')),
        forall|k: KeyEvent| #[trigger] digit_of(k) is Some ==> final(root)@.get(k) == old(root)@.get(k),
{
    command(root, ch('\''), "extend_repeat_last_motion");
    command(root, ch('"'), "extend_repeat_last_motion_reverse");
    command(root, named(KeyCode::Home), "extend_to_line_start");
    command(root, named(KeyCode::End), "extend_to_line_end");
    command(root, named(KeyCode::Esc), "exit_select_mode");
    command(root, ch('r'), "normal_mode");
    command(root, ch('G'), "extend_to_last_line");
    group(root, ch('g'), select_goto_group());
}

/// The "Jump" group.
pub open spec fn select_jump_group_model() -> GroupModel {
    named_group("Jump"@, false)
        .with_child(key_ch('b'), cmd("extend_parent_node_start"))
        .with_child(key_ch('e'), cmd("extend_parent_node_end"))
}

fn select_jump_group() -> (r: KeyTrieNode)
    ensures
        r@ == select_jump_group_model(),
        r@.wf(),
        r@.get(key_ch('b')) == Some(cmd("extend_parent_node_start")),
        r@.get(key_ch('e')) == Some(cmd("extend_parent_node_end")),
        forall|k: KeyEvent|
            k != key_ch('b') && k != key_ch('e') ==> #[trigger] r@.get(k) is None,
{
    let mut root = KeyTrieNode::new("Jump".to_string(), false);
    command(&mut root, ch('b'), "extend_parent_node_start");
    command(&mut root, ch('e'), "extend_parent_node_end");
    root
}

/// The "Search" group.
pub open spec fn select_search_group_model() -> GroupModel {
    named_group("Search"@, false)
        .with_child(key_ch('s'), cmd("extend_next_char"))
        .with_child(key_ch('S'), cmd("extend_prev_char"))
        .with_child(key_ch('t'), cmd("extend_till_char"))
        .with_child(key_ch('T'), cmd("extend_till_prev_char"))
}

fn select_search_group() -> (r: KeyTrieNode)
    ensures
        r@ == select_search_group_model(),
        r@.wf(),
        r@.get(key_ch('s')) == Some(cmd("extend_next_char")),
        r@.get(key_ch('S')) == Some(cmd("extend_prev_char")),
        r@.get(key_ch('t')) == Some(cmd("extend_till_char")),
        r@.get(key_ch('T')) == Some(cmd("extend_till_prev_char")),
        forall|k: KeyEvent|
            
                k != key_ch('s')
                && k != key_ch('S')
                && k != key_ch('t')
                && k != key_ch('T')
                 ==> #[trigger] r@.get(k) is None,
{
    let mut root = KeyTrieNode::new("Search".to_string(), false);
    command(&mut root, ch('s'), "extend_next_char");
    command(&mut root, ch('S'), "extend_prev_char");
    command(&mut root, ch('t'), "extend_till_char");
    command(&mut root, ch('T'), "extend_till_prev_char");
    root
}

/// The "Goto" group.
pub open spec fn select_goto_group_model() -> GroupModel {
    named_group("Goto"@, false)
        .with_child(key_ch('g'), cmd("extend_to_file_start"))
        .with_child(key_ch('|'), cmd("extend_to_column"))
        .with_child(key_ch('e'), cmd("extend_to_last_line"))
        .with_child(key_ch('w'), cmd("extend_to_word"))
}

fn select_goto_group() -> (r: KeyTrieNode)
    ensures
        r@ == select_goto_group_model(),
        r@.wf(),
        r@.get(key_ch('g')) == Some(cmd("extend_to_file_start")),
        r@.get(key_ch('|')) == Some(cmd("extend_to_column")),
        r@.get(key_ch('e')) == Some(cmd("extend_to_last_line")),
        r@.get(key_ch('w')) == Some(cmd("extend_to_word")),
        forall|k: KeyEvent|
            
                k != key_ch('g')
                && k != key_ch('|')
                && k != key_ch('e')
                && k != key_ch('w')
                 ==> #[trigger] r@.get(k) is None,
        select_goto_group_model().wf(),
        select_goto_group_model().get(key_ch('g')) == Some(cmd("extend_to_file_start")),
        select_goto_group_model().get(key_ch('w')) == Some(cmd("extend_to_word")),
        select_goto_group_model().get(key_ch('f')) is None,
{
    let mut root = KeyTrieNode::new("Goto".to_string(), false);
    command(&mut root, ch('g'), "extend_to_file_start");
    command(&mut root, ch('|'), "extend_to_column");
    command(&mut root, ch('e'), "extend_to_last_line");
    command(&mut root, ch('w'), "extend_to_word");
    root
}

/// The insert mode keymap.
pub open spec fn insert_model() -> GroupModel {
    let g = named_group("Insert mode"@, false);
    let g = insert_map_part1_model(g);
    let g = insert_map_part2_model(g);
    g
}

fn insert_map() -> (r: KeyTrieNode)
    ensures
        r@ == insert_model(),
        r@.wf(),
        flat(r@),
        r@.get(key_named(KeyCode::Esc)) == Some(cmd("normal_mode")),
        r@.get(key_ctrl('h')) == Some(cmd("delete_char_backward")),
        r@.get(key_named(KeyCode::Backspace)) == Some(cmd("delete_char_backward")),
        r@.get(key_shift(KeyCode::Backspace)) == Some(cmd("delete_char_backward")),
        forall|k: KeyEvent| #[trigger] digit_of(k) is Some ==> r@.get(k) is None,
{
    let mut root = KeyTrieNode::new("Insert mode".to_string(), false);
    insert_map_part1(&mut root);
    insert_map_part2(&mut root);
    root
}

pub open spec fn insert_map_part1_model(g: GroupModel) -> GroupModel {
    g
        .with_child(key_named(KeyCode::Esc), cmd("normal_mode"))
        .with_child(key_ctrl('s'), cmd("commit_undo_checkpoint"))
        .with_child(key_ctrl('x'), cmd("completion"))
        .with_child(key_ctrl('r'), cmd("insert_register"))
        .with_child(key_ctrl('w'), cmd("delete_word_backward"))
        .with_child(key_alt(KeyCode::Backspace), cmd("delete_word_backward"))
        .with_child(key_alt(KeyCode::Char('d')), cmd("delete_word_forward"))
        .with_child(key_alt(KeyCode::Delete), cmd("delete_word_forward"))
        .with_child(key_ctrl('u'), cmd("kill_to_line_start"))
        .with_child(key_ctrl('k'), cmd("kill_to_line_end"))
        .with_child(key_ctrl('h'), cmd("delete_char_backward"))
        .with_child(key_named(KeyCode::Backspace), cmd("delete_char_backward"))
        .with_child(key_shift(KeyCode::Backspace), cmd("delete_char_backward"))
        .with_child(key_ctrl('d'), cmd("delete_char_forward"))
        .with_child(key_named(KeyCode::Delete), cmd("delete_char_forward"))
        .with_child(key_ctrl('j'), cmd("insert_newline"))
        .with_child(key_named(KeyCode::Enter), cmd("insert_newline"))
        .with_child(key_named(KeyCode::Tab), cmd("smart_tab"))
        .with_child(key_shift(KeyCode::Tab), cmd("insert_tab"))
        .with_child(key_named(KeyCode::Up), cmd("move_visual_line_up"))
        .with_child(key_named(KeyCode::Down), cmd("move_visual_line_down"))
        .with_child(key_named(KeyCode::Left), cmd("move_char_left"))
}

#[verifier::rlimit(100)]
fn insert_map_part1(root: &mut KeyTrieNode)
    requires
        old(root)@.wf(),
        flat(old(root)@),
    ensures
        final(root)@ == insert_map_part1_model(old(root)@),
        final(root)@.wf(),
        flat(final(root)@),
        final(root)@.get(key_named(KeyCode::Esc)) == Some(cmd("normal_mode")),
        final(root)@.get(key_ctrl('h')) == Some(cmd("delete_char_backward")),
        final(root)@.get(key_named(KeyCode::Backspace)) == Some(cmd("delete_char_backward")),
        final(root)@.get(key_shift(KeyCode::Backspace)) == Some(cmd("delete_char_backward")),
        forall|k: KeyEvent| #[trigger] digit_of(k) is Some ==> final(root)@.get(k) == old(root)@.get(k),
{
    command(root, named(KeyCode::Esc), "normal_mode");
    command(root, ctrl('s'), "commit_undo_checkpoint");
    command(root, ctrl('x'), "completion");
    command(root, ctrl('r'), "insert_register");
    command(root, ctrl('w'), "delete_word_backward");
    command(root, alt(KeyCode::Backspace), "delete_word_backward");
    command(root, alt(KeyCode::Char('d')), "delete_word_forward");
    command(root, alt(KeyCode::Delete), "delete_word_forward");
    command(root, ctrl('u'), "kill_to_line_start");
    command(root, ctrl('k'), "kill_to_line_end");
    command(root, ctrl('h'), "delete_char_backward");
    command(root, named(KeyCode::Backspace), "delete_char_backward");
    command(root, shift(KeyCode::Backspace), "delete_char_backward");
    command(root, ctrl('d'), "delete_char_forward");
    command(root, named(KeyCode::Delete), "delete_char_forward");
    command(root, ctrl('j'), "insert_newline");
    command(root, named(KeyCode::Enter), "insert_newline");
    command(root, named(KeyCode::Tab), "smart_tab");
    command(root, shift(KeyCode::Tab), "insert_tab");
    command(root, named(KeyCode::Up), "move_visual_line_up");
    command(root, named(KeyCode::Down), "move_visual_line_down");
    command(root, named(KeyCode::Left), "move_char_left");
}

pub open spec fn insert_map_part2_model(g: GroupModel) -> GroupModel {
    g
        .with_child(key_named(KeyCode::Right), cmd("move_char_right"))
        .with_child(key_named(KeyCode::PageUp), cmd("page_up"))
        .with_child(key_named(KeyCode::PageDown), cmd("page_down"))
        .with_child(key_named(KeyCode::Home), cmd("goto_line_start"))
        .with_child(key_named(KeyCode::End), cmd("goto_line_end_newline"))
        .with_child(key_ctrl('a'), cmd("goto_line_start"))
        .with_child(key_ctrl('e'), cmd("goto_line_end_newline"))
}

#[verifier::rlimit(100)]
fn insert_map_part2(root: &mut KeyTrieNode)
    requires
        old(root)@.wf(),
        flat(old(root)@),
    ensures
        final(root)@ == insert_map_part2_model(old(root)@),
        final(root)@.wf(),
        flat(final(root)@),
        final(root)@.get(key_named(KeyCode::Esc)) == old(root)@.get(key_named(KeyCode::Esc)),
        final(root)@.get(key_ctrl('h')) == old(root)@.get(key_ctrl('h')),
        final(root)@.get(key_named(KeyCode::Backspace)) == old(root)@.get(key_named(KeyCode::Backspace)),
        final(root)@.get(key_shift(KeyCode::Backspace)) == old(root)@.get(key_shift(KeyCode::Backspace)),
        forall|k: KeyEvent| #[trigger] digit_of(k) is Some ==> final(root)@.get(k) == old(root)@.get(k),
{
    command(root, named(KeyCode::Right), "move_char_right");
    command(root, named(KeyCode::PageUp), "page_up");
    command(root, named(KeyCode::PageDown), "page_down");
    command(root, named(KeyCode::Home), "goto_line_start");
    command(root, named(KeyCode::End), "goto_line_end_newline");
    command(root, ctrl('a'), "goto_line_start");
    command(root, ctrl('e'), "goto_line_end_newline");
}

} // verus!
