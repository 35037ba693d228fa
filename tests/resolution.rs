use keymap::{
    BuildError, Command, Cursor, KeyCode, KeyEvent, KeyTrie, KeyTrieNode, KeymapResult, Keymaps,
    Mode,
};

fn k(c: char) -> KeyEvent {
    KeyEvent::ch(c)
}

fn esc() -> KeyEvent {
    KeyEvent::key(KeyCode::Esc)
}

fn leaf(name: &'static str) -> KeyTrie {
    KeyTrie::Leaf(Command::new(name))
}

fn matched(name: &'static str, count: usize) -> KeymapResult {
    KeymapResult::Matched(Command::new(name), count)
}

fn feed_all(cursor: &mut Cursor, root: &KeyTrieNode, keys: &[KeyEvent]) -> Vec<KeymapResult> {
    keys.iter().map(|key| cursor.feed(root, *key)).collect()
}

/// A root with `g` leading to a "Goto" group that binds `g`, and `w` bound at the root.
fn goto_map() -> KeyTrieNode {
    let mut goto = KeyTrieNode::new("Goto".to_string(), false);
    goto.bind(&[k('g')], leaf("goto_file_start")).unwrap();
    let mut root = KeyTrieNode::new("Normal mode".to_string(), false);
    root.bind(&[k('g')], KeyTrie::Node(goto)).unwrap();
    root.bind(&[k('w')], leaf("move_next_word_start")).unwrap();
    root
}

#[test]
fn goto_scenario_end_to_end() {
    let root = goto_map();
    let mut cursor = Cursor::new();
    assert_eq!(
        feed_all(&mut cursor, &root, &[k('g'), k('g')]),
        vec![KeymapResult::Pending, matched("goto_file_start", 1)]
    );
    assert_eq!(
        feed_all(&mut cursor, &root, &[k('3'), k('g'), k('g')]),
        vec![KeymapResult::Pending, KeymapResult::Pending, matched("goto_file_start", 3)]
    );
    assert_eq!(
        feed_all(&mut cursor, &root, &[k('g'), k('x')]),
        vec![KeymapResult::Pending, KeymapResult::NotFound]
    );
    assert!(cursor.pending().is_empty());
    assert_eq!(cursor.count(), None);
    assert_eq!(cursor.current(&root).name, "Normal mode");
}

#[test]
fn aliases_resolve_alike() {
    let maps = keymap::default::default();
    let mut cursor = Cursor::new();
    let a = cursor.feed(&maps.normal, k('m'));
    let b = cursor.feed(&maps.normal, KeyEvent::key(KeyCode::Left));
    assert_eq!(a, matched("move_char_left", 1));
    assert_eq!(a, b);
    let via_ctrl = feed_all(&mut cursor, &maps.normal, &[KeyEvent::ctrl('w'), KeyEvent::ctrl('w')]);
    let via_plain = feed_all(&mut cursor, &maps.normal, &[KeyEvent::ctrl('w'), k('w')]);
    assert_eq!(via_ctrl, via_plain);
    assert_eq!(via_plain[1], matched("rotate_view", 1));
}

#[test]
fn aliases_bind_independent_copies() {
    let mut sub = KeyTrieNode::new("Sub".to_string(), false);
    sub.bind(&[k('a')], leaf("first")).unwrap();
    let mut root = KeyTrieNode::new(String::new(), false);
    root.bind_aliases(&[vec![k('x')], vec![k('y'), k('z')]], KeyTrie::Node(sub)).unwrap();
    let x = root.group_at(&[k('x')]);
    let yz = root.group_at(&[k('y'), k('z')]);
    assert_eq!(x, yz);
    assert_eq!(x.unwrap().name, "Sub");
}

#[test]
fn merge_is_not_commutative() {
    let mut a = KeyTrieNode::new("A".to_string(), false);
    a.bind(&[k('x')], leaf("from_a")).unwrap();
    let mut b = KeyTrieNode::new("B".to_string(), false);
    b.bind(&[k('x')], leaf("from_b")).unwrap();
    let mut ab = a.duplicate();
    ab.merge_nodes(b.duplicate());
    let mut ba = b.duplicate();
    ba.merge_nodes(a.duplicate());
    assert_eq!(ab.get(&k('x')), Some(&leaf("from_b")));
    assert_eq!(ba.get(&k('x')), Some(&leaf("from_a")));
    assert_ne!(ab, ba);
}

#[test]
fn count_digits_accumulate() {
    let maps = keymap::default::default();
    let mut cursor = Cursor::new();
    assert_eq!(
        feed_all(&mut cursor, &maps.normal, &[k('2'), k('3'), k('w')]),
        vec![KeymapResult::Pending, KeymapResult::Pending, matched("move_next_word_start", 23)]
    );
    assert_eq!(cursor.count(), None);
}

#[test]
fn leading_zero_is_a_key() {
    let mut root = KeyTrieNode::new(String::new(), false);
    root.bind(&[k('0')], leaf("goto_first_nonwhitespace")).unwrap();
    root.bind(&[k('w')], leaf("move_next_word_start")).unwrap();
    let mut cursor = Cursor::new();
    assert_eq!(cursor.feed(&root, k('0')), matched("goto_first_nonwhitespace", 1));
    assert_eq!(
        feed_all(&mut cursor, &root, &[k('1'), k('0'), k('w')]),
        vec![KeymapResult::Pending, KeymapResult::Pending, matched("move_next_word_start", 10)]
    );
}

#[test]
fn unbound_leading_zero_is_not_found() {
    let root = goto_map();
    let mut cursor = Cursor::new();
    assert_eq!(cursor.feed(&root, k('0')), KeymapResult::NotFound);
    assert_eq!(cursor.count(), None);
}

#[test]
fn bound_digit_is_looked_up_first() {
    let mut root = KeyTrieNode::new(String::new(), false);
    root.bind(&[k('5')], leaf("five")).unwrap();
    let mut cursor = Cursor::new();
    assert_eq!(cursor.feed(&root, k('5')), matched("five", 1));
}

#[test]
fn count_saturates() {
    let root = goto_map();
    let mut cursor = Cursor::new();
    for _ in 0..30 {
        assert_eq!(cursor.feed(&root, k('9')), KeymapResult::Pending);
    }
    assert_eq!(cursor.feed(&root, k('w')), matched("move_next_word_start", usize::MAX));
}

#[test]
fn count_inside_chord() {
    let root = goto_map();
    let mut cursor = Cursor::new();
    assert_eq!(
        feed_all(&mut cursor, &root, &[k('g'), k('4'), k('g')]),
        vec![KeymapResult::Pending, KeymapResult::Pending, matched("goto_file_start", 4)]
    );
}

#[test]
fn sticky_group_stays_open() {
    let maps = keymap::default::default();
    let mut cursor = Cursor::new();
    let space = KeyEvent::key(KeyCode::Char(' '));
    assert_eq!(
        feed_all(&mut cursor, &maps.normal, &[space, k('G'), k('l'), k('r')]),
        vec![
            KeymapResult::Pending,
            KeymapResult::Pending,
            matched("dap_launch", 1),
            matched("dap_restart", 1)
        ]
    );
    assert!(cursor.is_sticky());
    assert_eq!(cursor.current(&maps.normal).name, "Debug (experimental)");
    assert_eq!(
        feed_all(&mut cursor, &maps.normal, &[k('s'), k('t')]),
        vec![KeymapResult::Pending, matched("dap_switch_thread", 1)]
    );
    assert_eq!(cursor.feed(&maps.normal, k('q')), KeymapResult::NotFound);
    assert_eq!(cursor.feed(&maps.normal, k('v')), matched("dap_variables", 1));
}

#[test]
fn escape_leaves_sticky_group() {
    let maps = keymap::default::default();
    let mut cursor = Cursor::new();
    assert_eq!(cursor.feed(&maps.normal, k('Z')), KeymapResult::Pending);
    assert_eq!(cursor.feed(&maps.normal, k('t')), matched("align_view_top", 1));
    assert_eq!(cursor.feed(&maps.normal, esc()), matched("normal_mode", 1));
    assert!(!cursor.is_sticky());
    assert_eq!(cursor.feed(&maps.normal, k('t')), KeymapResult::Pending);
    assert_eq!(cursor.current(&maps.normal).name, "Tap");
}

#[test]
fn non_sticky_group_returns_to_root() {
    let maps = keymap::default::default();
    let mut cursor = Cursor::new();
    assert_eq!(
        feed_all(&mut cursor, &maps.normal, &[k('z'), k('t')]),
        vec![KeymapResult::Pending, matched("align_view_top", 1)]
    );
    assert!(!cursor.is_sticky());
    let mut fresh = Cursor::new();
    assert_eq!(cursor.feed(&maps.normal, k('t')), fresh.feed(&maps.normal, k('t')));
}

#[test]
fn unknown_key_resets() {
    let maps = keymap::default::default();
    let mut cursor = Cursor::new();
    assert_eq!(
        feed_all(&mut cursor, &maps.normal, &[k('3'), k('g'), KeyEvent::ctrl('z')]),
        vec![KeymapResult::Pending, KeymapResult::Pending, KeymapResult::NotFound]
    );
    assert_eq!(cursor.count(), None);
    assert!(cursor.pending().is_empty());
    assert_eq!(cursor.feed(&maps.normal, k('w')), matched("move_next_word_start", 1));
}

#[test]
fn escape_cancels_open_chord() {
    let maps = keymap::default::default();
    let mut cursor = Cursor::new();
    assert_eq!(
        feed_all(&mut cursor, &maps.normal, &[k('2'), k('g'), esc()]),
        vec![KeymapResult::Pending, KeymapResult::Pending, KeymapResult::Cancelled]
    );
    assert_eq!(cursor.count(), None);
    assert_eq!(cursor.feed(&maps.normal, k('w')), matched("move_next_word_start", 1));
}

#[test]
fn empty_alias_set_is_refused() {
    let mut root = KeyTrieNode::new(String::new(), false);
    let before = root.duplicate();
    assert_eq!(root.bind_aliases(&[], leaf("x")), Err(BuildError::NoKeys));
    assert_eq!(
        root.bind_aliases(&[vec![k('a')], vec![]], leaf("x")),
        Err(BuildError::EmptyKeySequence)
    );
    assert_eq!(root.bind(&[], leaf("x")), Err(BuildError::EmptyKeySequence));
    assert_eq!(root, before);
}

#[test]
fn later_binding_wins() {
    let mut root = KeyTrieNode::new(String::new(), false);
    root.bind(&[k('a')], leaf("first")).unwrap();
    root.bind(&[k('b')], leaf("other")).unwrap();
    root.bind(&[k('a')], leaf("second")).unwrap();
    assert_eq!(root.children.len(), 2);
    assert_eq!(root.children[0].0, k('a'));
    assert_eq!(root.get(&k('a')), Some(&leaf("second")));
}

#[test]
fn binding_through_a_leaf_makes_a_group() {
    let mut root = KeyTrieNode::new(String::new(), false);
    root.bind(&[k('a')], leaf("first")).unwrap();
    root.bind(&[k('a'), k('b')], leaf("deep")).unwrap();
    let sub = root.group_at(&[k('a')]).unwrap();
    assert_eq!(sub.name, "");
    assert!(!sub.sticky);
    assert_eq!(sub.get(&k('b')), Some(&leaf("deep")));
    let t = KeyTrie::Node(root.duplicate());
    assert_eq!(t.search(&[k('a'), k('b')]), Some(&leaf("deep")));
    assert_eq!(t.search(&[k('a'), k('c')]), None);
    assert_eq!(t.search(&[k('a'), k('b'), k('c')]), None);
}

#[test]
fn merge_recurses_into_groups_and_keeps_base_keys() {
    let mut base = KeyTrieNode::new("Base".to_string(), false);
    base.bind(&[k('g'), k('g')], leaf("goto_file_start")).unwrap();
    base.bind(&[k('g'), k('e')], leaf("goto_last_line")).unwrap();
    base.bind(&[k('w')], leaf("move_word")).unwrap();
    let mut overlay = KeyTrieNode::new(String::new(), false);
    overlay.bind(&[k('g'), k('g')], leaf("extend_to_file_start")).unwrap();
    overlay.bind(&[k('n')], leaf("new_key")).unwrap();
    base.merge_nodes(overlay);
    assert_eq!(base.name, "Base");
    let t = KeyTrie::Node(base.duplicate());
    assert_eq!(t.search(&[k('g'), k('g')]), Some(&leaf("extend_to_file_start")));
    assert_eq!(t.search(&[k('g'), k('e')]), Some(&leaf("goto_last_line")));
    assert_eq!(t.search(&[k('w')]), Some(&leaf("move_word")));
    assert_eq!(base.children.last().unwrap().0, k('n'));
}

#[test]
fn named_overlay_brings_its_metadata() {
    let mut base = KeyTrieNode::new("Base".to_string(), false);
    base.bind(&[k('a')], leaf("a")).unwrap();
    let mut overlay = KeyTrieNode::new("Over".to_string(), true);
    overlay.bind(&[k('b')], leaf("b")).unwrap();
    base.merge_nodes(overlay);
    assert_eq!(base.name, "Over");
    assert!(base.sticky);
    assert_eq!(base.children.len(), 2);
}

#[test]
fn leaf_replaces_group_on_merge() {
    let mut base = KeyTrieNode::new(String::new(), false);
    base.bind(&[k('g'), k('g')], leaf("deep")).unwrap();
    let mut overlay = KeyTrieNode::new(String::new(), false);
    overlay.bind(&[k('g')], leaf("flat")).unwrap();
    base.merge_nodes(overlay);
    assert_eq!(base.get(&k('g')), Some(&leaf("flat")));
}

#[test]
fn select_mode_inherits_and_overrides() {
    let maps = keymap::default::default();
    let mut cursor = Cursor::new();
    let s = &maps.select;
    assert_eq!(s.name, "Select mode");
    assert_eq!(
        feed_all(&mut cursor, s, &[k('g'), k('g')])[1],
        matched("extend_to_file_start", 1)
    );
    assert_eq!(feed_all(&mut cursor, s, &[k('g'), k('f')])[1], matched("goto_file", 1));
    assert_eq!(feed_all(&mut cursor, s, &[k('j'), k('j')])[1], matched("goto_line", 1));
    assert_eq!(
        feed_all(&mut cursor, s, &[k('j'), k('b')])[1],
        matched("extend_parent_node_start", 1)
    );
    assert_eq!(cursor.feed(s, k('m')), matched("extend_char_left", 1));
    assert_eq!(cursor.feed(s, k('r')), matched("normal_mode", 1));
    assert_eq!(cursor.feed(s, k('u')), matched("undo", 1));
    assert_eq!(cursor.feed(&maps.normal, k('m')), matched("move_char_left", 1));
}

#[test]
fn insert_mode_aliases() {
    let maps = keymap::default::default();
    let mut cursor = Cursor::new();
    let i = &maps.insert;
    assert_eq!(cursor.feed(i, KeyEvent::ctrl('h')), matched("delete_char_backward", 1));
    assert_eq!(
        cursor.feed(i, KeyEvent::key(KeyCode::Backspace)),
        matched("delete_char_backward", 1)
    );
    assert_eq!(
        cursor.feed(i, KeyEvent::shift(KeyCode::Backspace)),
        matched("delete_char_backward", 1)
    );
    assert_eq!(cursor.feed(i, KeyEvent::alt(KeyCode::Delete)), matched("delete_word_forward", 1));
    assert_eq!(cursor.feed(i, k('x')), KeymapResult::NotFound);
}

#[test]
fn modes_keep_separate_cursors() {
    let mut keymaps = Keymaps::new(keymap::default::default());
    assert_eq!(keymaps.get(Mode::Normal, k('g')), KeymapResult::Pending);
    assert_eq!(keymaps.get(Mode::Insert, esc()), matched("normal_mode", 1));
    assert_eq!(keymaps.current(Mode::Normal).name, "Goto");
    assert_eq!(keymaps.get(Mode::Normal, k('g')), matched("goto_file_start", 1));
    assert_eq!(keymaps.get(Mode::Select, k('g')), KeymapResult::Pending);
    keymaps.reload(keymap::default::default());
    assert_eq!(keymaps.current(Mode::Select).name, "Select mode");
    assert_eq!(keymaps.map(Mode::Insert).name, "Insert mode");
}

#[test]
fn stale_cursor_falls_back_to_root() {
    let maps = keymap::default::default();
    let mut cursor = Cursor::new();
    assert_eq!(cursor.feed(&maps.normal, k('g')), KeymapResult::Pending);
    let other = goto_map();
    let mut small = KeyTrieNode::new(String::new(), false);
    small.bind(&[k('w')], leaf("only")).unwrap();
    assert_eq!(cursor.feed(&small, k('w')), matched("only", 1));
    assert_eq!(cursor.feed(&other, k('w')), matched("move_next_word_start", 1));
    cursor.reset();
    assert!(cursor.pending().is_empty());
}

#[test]
fn digit_and_escape_keys() {
    assert_eq!(k('7').digit(), Some(7));
    assert_eq!(k('a').digit(), None);
    assert_eq!(KeyEvent::ctrl('7').digit(), None);
    assert!(esc().is_escape());
    assert!(!KeyEvent::alt(KeyCode::Esc).is_escape());
}

#[test]
fn default_sequences_from_a_fresh_cursor() {
    let maps = keymap::default::default();
    let n = &maps.normal;
    assert_eq!(
        feed_all(&mut Cursor::new(), n, &[k('5'), k('g'), k('x'), k('w')]),
        vec![
            KeymapResult::Pending,
            KeymapResult::Pending,
            KeymapResult::NotFound,
            matched("move_next_word_start", 1)
        ]
    );
    assert_eq!(
        feed_all(&mut Cursor::new(), n, &[k('0'), k('w')]),
        vec![KeymapResult::NotFound, matched("move_next_word_start", 1)]
    );
    assert_eq!(
        feed_all(&mut Cursor::new(), n, &[k('Z'), k('z'), k('t')]),
        vec![KeymapResult::Pending, matched("align_view_center", 1), matched("align_view_top", 1)]
    );
    assert_eq!(
        feed_all(&mut Cursor::new(), n, &[k('z'), k('z'), k('t')]),
        vec![KeymapResult::Pending, matched("align_view_center", 1), KeymapResult::Pending]
    );
    let space = KeyEvent::key(KeyCode::Char(' '));
    assert_eq!(
        feed_all(&mut Cursor::new(), n, &[space, k('w'), KeyEvent::ctrl('m')])[2],
        matched("jump_view_left", 1)
    );
}

#[test]
fn select_mode_adds_e_and_n() {
    let maps = keymap::default::default();
    assert_eq!(maps.normal.get(&k('E')), None);
    assert_eq!(maps.select.get(&k('E')), Some(&leaf("page_cursor_half_up")));
    assert_eq!(maps.select.get(&k('N')), Some(&leaf("page_cursor_half_down")));
    assert_eq!(maps.select.children.len(), maps.normal.children.len() + 2);
}
