//! The color classification table.
//!
//! A decoded image carries one of a fixed set of color models. Each model in
//! the supported table maps to a channel count, a layout tag and a pixel
//! element type; anything outside the table degrades to the `unknown` row
//! with zero channels rather than failing.

use vstd::prelude::*;

verus! {

/// The color models the adapter distinguishes. `Other` stands for any model
/// outside the supported table.
#[derive(Clone, Copy, PartialEq, Eq, Structural, Debug)]
pub enum ColorModel {
    L8,
    La8,
    Rgb8,
    Rgba8,
    L16,
    La16,
    Rgb16,
    Rgba16,
    Bgr8,
    Bgra8,
    Other,
}

/// Channel count of a color model: 1 to 4 inside the table, 0 outside it.
pub open spec fn channel_count(m: ColorModel) -> u32 {
    match m {
        ColorModel::L8 => 1u32,
        ColorModel::La8 => 2u32,
        ColorModel::Rgb8 => 3u32,
        ColorModel::Rgba8 => 4u32,
        ColorModel::L16 => 1u32,
        ColorModel::La16 => 2u32,
        ColorModel::Rgb16 => 3u32,
        ColorModel::Rgba16 => 4u32,
        ColorModel::Bgr8 => 3u32,
        ColorModel::Bgra8 => 4u32,
        ColorModel::Other => 0u32,
    }
}

/// Layout tag of a color model: the channel order as a short lower-case name.
pub open spec fn layout_tag(m: ColorModel) -> Seq<char> {
    match m {
        ColorModel::L8 => "l"@,
        ColorModel::La8 => "la"@,
        ColorModel::Rgb8 => "rgb"@,
        ColorModel::Rgba8 => "rgba"@,
        ColorModel::L16 => "l"@,
        ColorModel::La16 => "la"@,
        ColorModel::Rgb16 => "rgb"@,
        ColorModel::Rgba16 => "rgba"@,
        ColorModel::Bgr8 => "bgr"@,
        ColorModel::Bgra8 => "bgra"@,
        ColorModel::Other => "unknown"@,
    }
}

/// Pixel element type of a color model: `u8` or `u16` inside the table.
pub open spec fn element_tag(m: ColorModel) -> Seq<char> {
    match m {
        ColorModel::L8 => "u8"@,
        ColorModel::La8 => "u8"@,
        ColorModel::Rgb8 => "u8"@,
        ColorModel::Rgba8 => "u8"@,
        ColorModel::L16 => "u16"@,
        ColorModel::La16 => "u16"@,
        ColorModel::Rgb16 => "u16"@,
        ColorModel::Rgba16 => "u16"@,
        ColorModel::Bgr8 => "u8"@,
        ColorModel::Bgra8 => "u8"@,
        ColorModel::Other => "unknown"@,
    }
}

/// Size in bytes of one channel sample: 1 for `u8` models, 2 for `u16`
/// models, 0 outside the table.
pub open spec fn element_size(m: ColorModel) -> u32 {
    match m {
        ColorModel::L8 => 1u32,
        ColorModel::La8 => 1u32,
        ColorModel::Rgb8 => 1u32,
        ColorModel::Rgba8 => 1u32,
        ColorModel::L16 => 2u32,
        ColorModel::La16 => 2u32,
        ColorModel::Rgb16 => 2u32,
        ColorModel::Rgba16 => 2u32,
        ColorModel::Bgr8 => 1u32,
        ColorModel::Bgra8 => 1u32,
        ColorModel::Other => 0u32,
    }
}

/// Look a color model up in the table: its channel count, layout tag and
/// element type, in that order. A model outside the table yields the
/// `(0, "unknown", "unknown")` row, not an error.
pub fn classify(m: ColorModel) -> (r: (u32, &'static str, &'static str))
    ensures
        r.0 == channel_count(m),
        r.1@ == layout_tag(m),
        r.2@ == element_tag(m),
{
    match m {
        ColorModel::L8 => (1, "l", "u8"),
        ColorModel::La8 => (2, "la", "u8"),
        ColorModel::Rgb8 => (3, "rgb", "u8"),
        ColorModel::Rgba8 => (4, "rgba", "u8"),
        ColorModel::L16 => (1, "l", "u16"),
        ColorModel::La16 => (2, "la", "u16"),
        ColorModel::Rgb16 => (3, "rgb", "u16"),
        ColorModel::Rgba16 => (4, "rgba", "u16"),
        ColorModel::Bgr8 => (3, "bgr", "u8"),
        ColorModel::Bgra8 => (4, "bgra", "u8"),
        ColorModel::Other => (0, "unknown", "unknown"),
    }
}

/// Bring the lengths of the seven layout tags into scope, so that two
/// distinct tags of different lengths cannot be equal.
proof fn lemma_layout_tag_lens()
    ensures
        "l"@.len() == 1,
        "la"@.len() == 2,
        "rgb"@.len() == 3,
        "rgba"@.len() == 4,
        "bgr"@.len() == 3,
        "bgra"@.len() == 4,
        "unknown"@.len() == 7,
{
    reveal_strlit("l");
    reveal_strlit("la");
    reveal_strlit("rgb");
    reveal_strlit("rgba");
    reveal_strlit("bgr");
    reveal_strlit("bgra");
    reveal_strlit("unknown");
}

/// A model outside the supported table degrades to the zero-channel
/// `unknown` row; it is never an error.
pub proof fn lemma_unknown_row()
    ensures
        channel_count(ColorModel::Other) == 0,
        layout_tag(ColorModel::Other) == "unknown"@,
        element_tag(ColorModel::Other) == "unknown"@,
{
}

/// The table is consistent: the layout tag alone already fixes the channel
/// count, so the channel count of a classified image can never contradict
/// its layout tag.
pub proof fn lemma_layout_determines_channels(m1: ColorModel, m2: ColorModel)
    requires
        layout_tag(m1) == layout_tag(m2),
    ensures
        channel_count(m1) == channel_count(m2),
{
    lemma_layout_tag_lens();
}

/// The layout tag and the element type together pin the color model down:
/// no two distinct models share both tags.
pub proof fn lemma_tags_determine_model(m1: ColorModel, m2: ColorModel)
    requires
        layout_tag(m1) == layout_tag(m2),
        element_tag(m1) == element_tag(m2),
    ensures
        m1 == m2,
{
    lemma_layout_tag_lens();
    reveal_strlit("rgb");
    reveal_strlit("bgr");
    reveal_strlit("rgba");
    reveal_strlit("bgra");
    reveal_strlit("u8");
    reveal_strlit("u16");
    assert("u8"@.len() == 2);
    assert("u16"@.len() == 3);
    assert("rgb"@[0] == 'r' && "bgr"@[0] == 'b');
    assert("rgba"@[0] == 'r' && "bgra"@[0] == 'b');
}

} // verus!
