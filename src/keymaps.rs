use vstd::prelude::*;

use crate::key::KeyEvent;
use crate::resolver::{fresh_cursor, step, Cursor, CursorModel, KeymapResult};
use crate::trie::{GroupModel, KeyTrieNode};

verus! {

/// An editor mode with a keymap of its own.
#[derive(Clone, Copy, PartialEq, Eq, Structural, Debug, Hash)]
pub enum Mode {
    Normal,
    Select,
    Insert,
}

/// One root group per mode.
pub struct ModeMaps {
    pub normal: KeyTrieNode,
    pub select: KeyTrieNode,
    pub insert: KeyTrieNode,
}

impl ModeMaps {
    pub open spec fn spec_map(&self, mode: Mode) -> GroupModel {
        match mode {
            Mode::Normal => self.normal@,
            Mode::Select => self.select@,
            Mode::Insert => self.insert@,
        }
    }

    /// The root group of `mode`.
    pub fn map(&self, mode: Mode) -> (r: &KeyTrieNode)
        ensures
            r@ == self.spec_map(mode),
    {
        match mode {
            Mode::Normal => &self.normal,
            Mode::Select => &self.select,
            Mode::Insert => &self.insert,
        }
    }
}

/// The keymaps of all modes together with a resolution cursor for each.
pub struct Keymaps {
    maps: ModeMaps,
    normal: Cursor,
    select: Cursor,
    insert: Cursor,
}

impl Keymaps {
    pub closed spec fn spec_map(&self, mode: Mode) -> GroupModel {
        self.maps.spec_map(mode)
    }

    pub closed spec fn spec_cursor(&self, mode: Mode) -> CursorModel {
        match mode {
            Mode::Normal => self.normal@,
            Mode::Select => self.select@,
            Mode::Insert => self.insert@,
        }
    }

    /// Takes ownership of `maps`, with every cursor at its mode's root.
    pub fn new(maps: ModeMaps) -> (r: Keymaps)
        ensures
            forall|m: Mode| #[trigger] r.spec_map(m) == maps.spec_map(m),
            forall|m: Mode| #[trigger] r.spec_cursor(m) == fresh_cursor(),
    {
        Keymaps { maps, normal: Cursor::new(), select: Cursor::new(), insert: Cursor::new() }
    }

    /// Replaces every mode's map at once; cursors into the old maps go back to their roots.
    pub fn reload(&mut self, maps: ModeMaps)
        ensures
            forall|m: Mode| #[trigger] final(self).spec_map(m) == maps.spec_map(m),
            forall|m: Mode| #[trigger] final(self).spec_cursor(m) == fresh_cursor(),
    {
        *self = Keymaps::new(maps);
    }

    /// The root group of `mode`.
    pub fn map(&self, mode: Mode) -> (r: &KeyTrieNode)
        ensures
            r@ == self.spec_map(mode),
    {
        self.maps.map(mode)
    }

    /// The group that `mode`'s cursor stands in.
    pub fn current(&self, mode: Mode) -> (r: &KeyTrieNode)
        ensures
            r@ == crate::resolver::current_group(self.spec_map(mode), self.spec_cursor(mode)),
    {
        match mode {
            Mode::Normal => self.normal.current(&self.maps.normal),
            Mode::Select => self.select.current(&self.maps.select),
            Mode::Insert => self.insert.current(&self.maps.insert),
        }
    }

    /// Feeds one key event to `mode`'s cursor; the other modes are left as they were.
    pub fn get(&mut self, mode: Mode, key: KeyEvent) -> (r: KeymapResult)
        ensures
            (final(self).spec_cursor(mode), r) == step(
                old(self).spec_map(mode),
                old(self).spec_cursor(mode),
                key,
            ),
            forall|m: Mode| #[trigger] final(self).spec_map(m) == old(self).spec_map(m),
            forall|m: Mode|
                m != mode ==> #[trigger] final(self).spec_cursor(m) == old(self).spec_cursor(m),
    {
        match mode {
            Mode::Normal => self.normal.feed(&self.maps.normal, key),
            Mode::Select => self.select.feed(&self.maps.select, key),
            Mode::Insert => self.insert.feed(&self.maps.insert, key),
        }
    }
}

} // verus!
