//! Physical-key identity and presentation layer.
//!
//! A closed vocabulary of physical keyboard and gamepad key positions,
//! a total classification of every position into one of ten semantic
//! groups, a layout-independent display label for every key, a
//! layout-aware label resolver, and a parser that accepts each key's
//! canonical name together with a fixed set of legacy alias spellings.
//!
//! The vocabulary follows the key position names of the current web
//! standard for physical key codes; the parser additionally accepts
//! the spellings used by older runtimes, so that persisted
//! configuration written by any of them still resolves.

mod class;
mod key_code;
mod label;
mod name;
mod parse;
mod resolve;

pub use class::class_of;
pub use class::class_members;
pub use class::lemma_class_inhabited;
pub use class::lemma_class_partition;
pub use key_code::KeyCode;
pub use key_code::KeyCodeClass;
pub use label::label_of;
pub use label::lemma_label_nonempty;
pub use name::name_of;
pub use parse::is_alias;
pub use parse::lemma_name_injective;
pub use parse::lemma_name_round_trip;
pub use parse::lemma_no_collision;
pub use parse::lemma_parse_characterization;
pub use parse::parse_spec;
pub use parse::parses_to;
pub use resolve::upper_of;
