pub mod calc;
pub mod clipboard;
pub mod config;
pub mod convert;
pub mod desktop;
pub mod emoji;
pub mod files;
pub mod format;
pub mod fuzzy;
pub mod ids;
pub mod item;
pub mod mode;
pub mod notes;
pub mod rat;
pub mod snippets;
pub mod ssh;
pub mod strings;
pub mod system;
pub mod timer;
pub mod todos;
pub mod websearch;
