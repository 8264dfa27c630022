//! Reading the hierarchy and the value changes of FST waveform files, and drawing the
//! waveforms of chosen variables as text.
//!
//! The numbered kinds of the file format live in [`codes`]; the entries of the hierarchy
//! in [`hier`]; the choice of variables and the collection of their values in
//! [`collect`]; the time axis and the waveform rows in [`render`]; the text helpers they
//! share in [`text`].

pub mod codes;
pub mod collect;
pub mod hier;
pub mod render;
pub mod text;

pub use codes::{
    file_type_from_raw, ArrayType, AttrType, EnumValueType, FileType, FromStrError, MiscType,
    PackType, ScopeType, VarDir, VarType,
};
pub use collect::{clib, end_time, scope_path, Change, Fst, Trace, VarFilter, Walk};
pub use hier::{Attr, Hier, HierType, Scope, Var};
pub use render::{draw_line, time_axis};
