//! Key-sequence resolution for a modal editor: keymap tries, their construction and merging,
//! and the state machine that turns key presses into commands.
pub mod builder;
pub mod default;
pub mod key;
pub mod keymaps;
pub mod laws;
pub mod merge;
pub mod resolver;
pub mod trie;

pub use builder::BuildError;
pub use key::{KeyCode, KeyEvent, KeyModifiers};
pub use keymaps::{Keymaps, Mode, ModeMaps};
pub use resolver::{Cursor, KeymapResult};
pub use trie::{Command, KeyTrie, KeyTrieNode};
