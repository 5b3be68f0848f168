//! An atomic-CSS generator: class tokens are parsed into candidates, resolved
//! against a themed utility table, wrapped by their variants, ordered and
//! serialized into one style sheet.

pub mod css;
pub mod writer;
pub mod reader;
pub mod table;
pub mod theme;
pub mod text;
pub mod ordering;
pub mod types;
pub mod value;
pub mod parsing;
pub mod process;
pub mod builder;
pub mod variant_parse;
pub mod variant;
pub mod context;
pub mod sorting;
pub mod generator;
pub mod sheet;
pub mod preset;
pub mod config;
pub mod watch;
