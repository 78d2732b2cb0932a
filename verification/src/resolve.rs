//! The layout-aware resolver: the best available display string for
//! the user's actual keyboard layout.
//!
//! Layout information matters only for writing-system keys; every
//! other class is labeled independently of locale. The layout query
//! itself is an injected external capability: the caller performs the
//! lookup (or declines to) and passes its optional answer in, so the
//! resolver stays pure and testable against any layout source.

use crate::class::class_of;
use crate::key_code::{KeyCode, KeyCodeClass};
use crate::label::label_of;
use crate::parse::str_eq;
use vstd::prelude::*;

verus! {

/// What uppercasing yields for a given sequence of characters.
pub uninterp spec fn upper_of(s: Seq<char>) -> Seq<char>;

/// Relies on `str::to_uppercase`: the result is a function of the
/// characters alone (Unicode uppercasing, independent of locale and
/// environment).
#[verifier::external_body]
fn to_upper(s: &str) -> (r: String)
    ensures
        r@ == upper_of(s@),
{
    s.to_uppercase()
}

impl KeyCode {
    /// The best available display string for this key under the
    /// user's active layout.
    ///
    /// `layout` is the answer of the external layout query for this
    /// key: the glyph the physical key currently produces, or nothing
    /// when the platform has no answer. For a key outside the writing
    /// system class the result is the baseline label, whatever the
    /// query would have said. For a writing-system key a reported
    /// glyph is uppercased for display, except for the German sharp s,
    /// which has no distinct uppercase form and is kept unchanged;
    /// when the query reports nothing, the resolver falls back to the
    /// baseline label. This never fails: absence of layout information
    /// degrades to the baseline label.
    pub fn resolve(self, layout: Option<&str>) -> (r: String)
        ensures
            class_of(self) != KeyCodeClass::WritingSystem ==> r@ == label_of(self),
            class_of(self) == KeyCodeClass::WritingSystem ==> (match layout {
                Some(g) => r@ == if g@ == "ß"@ {
                    g@
                } else {
                    upper_of(g@)
                },
                None => r@ == label_of(self),
            }),
    {
        let class = self.classify();
        if class == KeyCodeClass::WritingSystem {
            if let Some(glyph) = layout {
                if str_eq(glyph, "ß") {
                    return glyph.to_owned();
                } else {
                    return to_upper(glyph);
                }
            }
        }
        self.as_str().to_owned()
    }
}

} // verus!
