//! A terminal navigation shell: a menu state machine, banner rendering with a
//! memoizing cache, and the layout of each screen as plain data.

pub mod navigation;
pub mod banner;
pub mod header;
pub mod layout;
