//! Converts pinyin syllables into shuangpin (double-pinyin) key codes under a
//! selectable scheme.

pub mod scheme;
pub mod state;
pub mod table;

pub use scheme::ShuangpinScheme;
pub use state::{PinyinResult, UserState};
pub use table::CodeTable;
