//! Which character stands for a lit pixel when the display is shown as text.

use vstd::prelude::*;

verus! {

/// The full block, for terminals that show Unicode.
pub const GLYPH_BLOCK: char = '\u{2588}';

/// The letter that stands in for the block elsewhere.
pub const GLYPH_X: char = 'x';

/// The lowercase form of a text, as `str::to_lowercase` gives it.
pub uninterp spec fn lowercase_of(text: Seq<char>) -> Seq<char>;

/// Whether `needle` occurs in `haystack` as a run of characters.
pub open spec fn occurs_in(needle: Seq<char>, haystack: Seq<char>) -> bool {
    exists|start: int|
        0 <= start <= haystack.len() - needle.len() && #[trigger] haystack.subrange(
            start,
            start + needle.len(),
        ) == needle
}

/// `str::to_lowercase`: the lowercase form of `text` by the Unicode rules,
/// the same for every locale. The contract only gives the result its name.
#[verifier::external_body]
fn to_lowercase(text: &str) -> (lower: String)
    ensures
        lower@ == lowercase_of(text@),
{
    text.to_lowercase()
}

/// `str::contains` with a string as the pattern: whether `needle` matches a
/// part of `haystack`.
#[verifier::external_body]
fn contains(haystack: &str, needle: &str) -> (found: bool)
    ensures
        found == occurs_in(needle@, haystack@),
{
    haystack.contains(needle)
}

/// The glyph for a lit pixel, given the language setting in lowercase: the
/// override if there is one, else the block where the setting names UTF-8, and
/// the letter where it does not.
pub fn glyph_for(override_glyph: Option<char>, lowercase_lang: &str) -> (glyph: char)
    ensures
        glyph == (match override_glyph {
            Some(chosen) => chosen,
            None => if occurs_in("utf-8"@, lowercase_lang@) {
                GLYPH_BLOCK
            } else {
                GLYPH_X
            },
        }),
{
    match override_glyph {
        Some(chosen) => chosen,
        None => {
            if contains(lowercase_lang, "utf-8") {
                GLYPH_BLOCK
            } else {
                GLYPH_X
            }
        },
    }
}

/// The glyph for a lit pixel: the override if there is one, else the block
/// where the language setting names UTF-8 in any mix of upper and lower case,
/// and the letter where it does not.
pub fn determine_display_glyph(override_glyph: Option<char>, lang: String) -> (glyph: char)
    ensures
        glyph == (match override_glyph {
            Some(chosen) => chosen,
            None => if occurs_in("utf-8"@, lowercase_of(lang@)) {
                GLYPH_BLOCK
            } else {
                GLYPH_X
            },
        }),
{
    let lower = to_lowercase(lang.as_str());
    glyph_for(override_glyph, lower.as_str())
}

} // verus!
