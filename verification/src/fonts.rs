//! Where the bundled font goes in the lists of font names.
//!
//! For each family of text the renderer holds a list of font names and looks
//! a glyph up in the first font that has it, so the first name has the
//! highest priority and the last is the final fallback.

use vstd::prelude::*;

verus! {

/// The name under which the bundled font is registered.
pub const CUSTOM_FONT: &'static str = "my_font";

/// The font names of the two families of text, each in order of priority.
pub struct FontFamilies {
    /// For proportional text.
    pub proportional: Vec<String>,
    /// For monospace text.
    pub monospace: Vec<String>,
}

/// Adds the bundled font to both families: first, so with the highest
/// priority, for proportional text; last, as the final fallback, for
/// monospace text. The fonts that were registered before all stay, in their
/// order.
pub fn setup_custom_fonts(fonts: &mut FontFamilies)
    ensures
        final(fonts).proportional.deep_view() == seq![CUSTOM_FONT@] + old(
            fonts,
        ).proportional.deep_view(),
        final(fonts).monospace.deep_view() == old(fonts).monospace.deep_view().push(CUSTOM_FONT@),
{
    fonts.proportional.insert(0, CUSTOM_FONT.to_owned());
    fonts.monospace.push(CUSTOM_FONT.to_owned());
    assert(fonts.proportional.deep_view() =~= seq![CUSTOM_FONT@] + old(
        fonts,
    ).proportional.deep_view());
    assert(fonts.monospace.deep_view() =~= old(fonts).monospace.deep_view().push(CUSTOM_FONT@));
}

} // verus!
