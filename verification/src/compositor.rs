//! Layout of the status icon, and resolution of its artwork.
//!
//! The icon is a strip: a square of album art, then one line of text. How wide
//! the strip is, what the line says, where it starts and what the art is made
//! of are decided here, in whole pixels. Rasterising glyphs and images is left
//! to the caller.
use crate::protocol::{trim_line, trimmed};
use vstd::prelude::*;
use vstd::slice::slice_subrange;
use vstd::string::{StringExecFns, StringSliceAdditionalSpecFns};

verus! {

/// The icon is drawn at three times its nominal size.
pub const SCALE_FACTOR: u32 = 3;

/// Greatest width of the strip.
pub const MAX_CANVAS_WIDTH: u32 = 1500;

/// Width of a strip that shows the art alone.
pub const MIN_CANVAS_WIDTH: u32 = 66;

/// Height of the strip.
pub const CANVAS_HEIGHT: u32 = 66;

/// Side of the square of album art.
pub const ALBUM_ART_SIZE: u32 = 66;

/// Where the text starts, from the left edge.
pub const TEXT_X_OFFSET: u32 = 84;

/// Where the text starts, from the top edge.
pub const TEXT_Y_OFFSET: u32 = 3;

/// A colour with its opacity.
#[derive(Clone, Copy, Debug, PartialEq, Eq, Structural)]
pub struct Rgba {
    pub red: u8,
    pub green: u8,
    pub blue: u8,
    pub alpha: u8,
}

/// The square drawn where there is no artwork.
pub open spec fn placeholder_colour() -> Rgba {
    Rgba { red: 147, green: 51, blue: 234, alpha: 255 }
}

/// The colour of the square drawn where there is no artwork: an opaque purple.
pub fn placeholder_color() -> (colour: Rgba)
    ensures
        colour == placeholder_colour(),
{
    Rgba { red: 147, green: 51, blue: 234, alpha: 255 }
}

/// The colour of the text: white on a dark appearance, black on a light one.
pub fn get_text_color(dark: bool) -> (colour: Rgba)
    ensures
        colour == if dark {
            (Rgba { red: 255, green: 255, blue: 255, alpha: 255 })
        } else {
            (Rgba { red: 0, green: 0, blue: 0, alpha: 255 })
        },
{
    if dark {
        Rgba { red: 255, green: 255, blue: 255, alpha: 255 }
    } else {
        Rgba { red: 0, green: 0, blue: 0, alpha: 255 }
    }
}

/// Whether the host shows a dark appearance, given what its settings answered
/// when asked for the interface style: it does when the answer, white space
/// aside, is the word `Dark`. No answer means a light appearance.
pub fn is_dark_mode(answer: Option<&str>) -> (dark: bool)
    ensures
        dark == match answer {
            Some(text) => trimmed(text@) == "Dark"@,
            None => false,
        },
{
    match answer {
        Some(text) => trim_line(text).to_owned() == String::from_str("Dark"),
        None => false,
    }
}

// ---------------------------------------------------------------------------
// Text and width
// ---------------------------------------------------------------------------
/// There is something to write beside the art.
pub open spec fn has_text(title: Seq<char>, artist: Seq<char>) -> bool {
    title.len() > 0 || artist.len() > 0
}

/// The line beside the art: the title, a dash, the artist.
pub open spec fn label_text(title: Seq<char>, artist: Seq<char>) -> Seq<char> {
    title + " - "@ + artist
}

/// Composes the line beside the art. There is none where both the title and
/// the artist are empty.
pub fn label(title: &str, artist: &str) -> (line: Option<String>)
    ensures
        match line {
            Some(text) => has_text(title@, artist@) && text@ == label_text(title@, artist@),
            None => !has_text(title@, artist@),
        },
{
    if title.is_empty() && artist.is_empty() {
        None
    } else {
        Some(String::from_str(title).concat(" - ").concat(artist))
    }
}

/// The width of the strip: that of the art alone where there is no text, and
/// otherwise the offset of the text plus its width, capped.
pub open spec fn strip_width(text_width: Option<u32>) -> int {
    match text_width {
        None => MIN_CANVAS_WIDTH as int,
        Some(w) => if TEXT_X_OFFSET + w < MAX_CANVAS_WIDTH {
            TEXT_X_OFFSET + w
        } else {
            MAX_CANVAS_WIDTH as int
        },
    }
}

/// Computes the width of the strip from the width of its text, in pixels.
pub fn canvas_width(text_width: Option<u32>) -> (width: u32)
    ensures
        width == strip_width(text_width),
        MIN_CANVAS_WIDTH <= width <= MAX_CANVAS_WIDTH,
{
    match text_width {
        None => MIN_CANVAS_WIDTH,
        Some(w) => if w < MAX_CANVAS_WIDTH - TEXT_X_OFFSET {
            TEXT_X_OFFSET + w
        } else {
            MAX_CANVAS_WIDTH
        },
    }
}

// ---------------------------------------------------------------------------
// Artwork
// ---------------------------------------------------------------------------
/// The bytes that standard base64 text with padding decodes to, or none where
/// the text is not valid: what the base64 crate's standard engine makes of it.
pub uninterp spec fn base64_decoded(text: Seq<u8>) -> Option<Seq<u8>>;

/// `DecodeError` of the base64 crate: why a text could not be decoded. It is
/// carried through and never looked into.
#[verifier::external_type_specification]
#[verifier::external_body]
pub struct ExDecodeError(base64::DecodeError);

/// `Engine::decode` of the base64 crate on its `STANDARD` engine (the standard
/// alphabet, canonical padding required). Claimed of it: whether it succeeds,
/// and the bytes it gives, depend on the text alone. Nothing is claimed of
/// which texts decode, nor to what.
#[verifier::external_body]
fn decode_standard(text: &[u8]) -> (decoded: Result<Vec<u8>, base64::DecodeError>)
    ensures
        match decoded {
            Ok(bytes) => base64_decoded(text@) == Some(bytes@),
            Err(_) => base64_decoded(text@) is None,
        },
{
    base64::Engine::decode(&base64::engine::general_purpose::STANDARD, text)
}

/// The artwork reference starts like a data URL.
pub open spec fn is_data_url(artwork: Seq<u8>) -> bool {
    &&& artwork.len() >= 5
    &&& artwork[0] == 100
    &&& artwork[1] == 97
    &&& artwork[2] == 116
    &&& artwork[3] == 97
    &&& artwork[4] == 58
}

/// A comma stands at or after `from`.
pub open spec fn has_comma(artwork: Seq<u8>, from: int) -> bool {
    exists|i: int| from <= i < artwork.len() && artwork[i] == 44
}

/// `i` is the position of the first comma at or after `from`.
pub open spec fn is_first_comma(artwork: Seq<u8>, from: int, i: int) -> bool {
    &&& from <= i < artwork.len()
    &&& artwork[i] == 44
    &&& forall|k: int| from <= k < i ==> artwork[k] != 44
}

/// Where the part that starts at `from` ends: at the first comma, or at the
/// end where no comma follows.
pub open spec fn part_end(artwork: Seq<u8>, from: int) -> int {
    if has_comma(artwork, from) {
        choose|i: int| is_first_comma(artwork, from, i)
    } else {
        artwork.len() as int
    }
}

/// Where the base64 text lies in an artwork reference. A plain reference is
/// base64 text throughout. In a data URL it is the part between the first
/// comma and the next one, or the end; a data URL without a comma holds none.
pub open spec fn payload_bounds(artwork: Seq<u8>) -> Option<(int, int)> {
    if !is_data_url(artwork) {
        Some((0, artwork.len() as int))
    } else if !has_comma(artwork, 0) {
        None
    } else {
        Some((part_end(artwork, 0) + 1, part_end(artwork, part_end(artwork, 0) + 1)))
    }
}

/// The image file that an artwork reference holds, or none where the reference
/// holds no valid base64 text.
pub open spec fn artwork_bytes(artwork: Seq<u8>) -> Option<Seq<u8>> {
    match payload_bounds(artwork) {
        Some((start, end)) => base64_decoded(artwork.subrange(start, end)),
        None => None,
    }
}

/// Finds where the part that starts at `from` ends.
pub fn find_part_end(artwork: &[u8], from: usize) -> (end: usize)
    requires
        from <= artwork@.len(),
    ensures
        end == part_end(artwork@, from as int),
        from <= end <= artwork@.len(),
        has_comma(artwork@, from as int) == (end < artwork@.len()),
{
    let mut i: usize = from;
    while i < artwork.len()
        invariant
            from <= i <= artwork@.len(),
            forall|k: int| from <= k < i ==> artwork@[k] != 44,
        decreases artwork.len() - i,
    {
        if artwork[i] == 44 {
            assert(is_first_comma(artwork@, from as int, i as int));
            let ghost chosen = part_end(artwork@, from as int);
            assert(is_first_comma(artwork@, from as int, chosen));
            return i;
        }
        i += 1;
    }
    i
}

/// Tells whether the artwork reference starts like a data URL.
pub fn starts_as_data_url(artwork: &[u8]) -> (yes: bool)
    ensures
        yes == is_data_url(artwork@),
{
    artwork.len() >= 5 && artwork[0] == 100 && artwork[1] == 97 && artwork[2] == 116
        && artwork[3] == 97 && artwork[4] == 58
}

/// Finds where the base64 text lies in an artwork reference.
pub fn find_payload(artwork: &[u8]) -> (bounds: Option<(usize, usize)>)
    ensures
        match bounds {
            Some((start, end)) => {
                &&& payload_bounds(artwork@) == Some((start as int, end as int))
                &&& start <= end <= artwork@.len()
            },
            None => payload_bounds(artwork@) is None,
        },
{
    if !starts_as_data_url(artwork) {
        return Some((0, artwork.len()));
    }
    let comma = find_part_end(artwork, 0);
    if comma >= artwork.len() {
        return None;
    }
    let start = comma + 1;
    let end = find_part_end(artwork, start);
    Some((start, end))
}

/// Resolves an artwork reference to the image file it holds. A reference that
/// holds no valid base64 text resolves to nothing, and the placeholder is
/// drawn in its place.
pub fn decode_artwork(artwork: &str) -> (image: Option<Vec<u8>>)
    ensures
        match image {
            Some(bytes) => artwork_bytes(artwork.spec_bytes()) == Some(bytes@),
            None => artwork_bytes(artwork.spec_bytes()) is None,
        },
{
    let bytes = artwork.as_bytes();
    match find_payload(bytes) {
        Some((start, end)) => {
            let text = slice_subrange(bytes, start, end);
            match decode_standard(text) {
                Ok(decoded) => Some(decoded),
                Err(_) => None,
            }
        },
        None => None,
    }
}

// ---------------------------------------------------------------------------
// The plan of an icon
// ---------------------------------------------------------------------------
/// Everything the rasteriser needs to draw one icon.
#[derive(Clone, Debug, PartialEq, Eq)]
pub struct IconPlan {
    pub canvas_width: u32,
    pub canvas_height: u32,
    pub art_size: u32,
    /// The image file to draw as art; the placeholder is drawn where there is
    /// none.
    pub artwork: Option<Vec<u8>>,
    /// The line to write; nothing is written where there is none.
    pub label: Option<String>,
    pub text_x: u32,
    pub text_y: u32,
    /// Width left for the line, which is cut short to fit.
    pub text_room: u32,
}

/// Holds the font that the icon's text is set in.
#[derive(Clone, Debug, PartialEq, Eq)]
pub struct Compositor {
    pub font: Vec<u8>,
}

impl Compositor {
    /// A compositor that sets text in the given font file.
    pub fn new(font: Vec<u8>) -> (compositor: Compositor)
        ensures
            compositor.font == font,
    {
        Compositor { font }
    }

    /// Plans the icon for a track. `text_width` is the measured width of the
    /// line that `label` composes of the title and the artist; it is not
    /// looked at where there is no line.
    pub fn create_menu_bar_icon(
        &self,
        album_art_base64: Option<&str>,
        title: &str,
        artist: &str,
        text_width: u32,
    ) -> (plan: IconPlan)
        ensures
            plan.canvas_width == strip_width(
                if has_text(title@, artist@) {
                    Some(text_width)
                } else {
                    None
                },
            ),
            plan.canvas_height == CANVAS_HEIGHT,
            plan.art_size == ALBUM_ART_SIZE,
            plan.text_x == TEXT_X_OFFSET,
            plan.text_y == TEXT_Y_OFFSET,
            has_text(title@, artist@) ==> plan.text_room == plan.canvas_width - TEXT_X_OFFSET,
            !has_text(title@, artist@) ==> plan.text_room == 0,
            match plan.label {
                Some(text) => has_text(title@, artist@) && text@ == label_text(title@, artist@),
                None => !has_text(title@, artist@),
            },
            match plan.artwork {
                Some(bytes) => album_art_base64 is Some && artwork_bytes(
                    album_art_base64->0.spec_bytes(),
                ) == Some(bytes@),
                None => album_art_base64 is None || artwork_bytes(
                    album_art_base64->0.spec_bytes(),
                ) is None,
            },
    {
        let line = label(title, artist);
        let width = match &line {
            Some(_) => canvas_width(Some(text_width)),
            None => canvas_width(None),
        };
        let room: u32 = match &line {
            Some(_) => width - TEXT_X_OFFSET,
            None => 0,
        };
        let artwork = match album_art_base64 {
            Some(reference) => decode_artwork(reference),
            None => None,
        };
        IconPlan {
            canvas_width: width,
            canvas_height: CANVAS_HEIGHT,
            art_size: ALBUM_ART_SIZE,
            artwork,
            label: line,
            text_x: TEXT_X_OFFSET,
            text_y: TEXT_Y_OFFSET,
            text_room: room,
        }
    }
}

/// Plans an icon with made-up data and no artwork, to try the rasteriser on.
pub fn create_test_icon(compositor: &Compositor, text_width: u32) -> (plan: IconPlan)
    ensures
        plan.canvas_width == strip_width(Some(text_width)),
        plan.canvas_height == CANVAS_HEIGHT,
        plan.artwork is None,
        plan.label is Some,
        plan.label->0@ == label_text("Test Song Title"@, "Test Artist Name"@),
        plan.text_room == plan.canvas_width - TEXT_X_OFFSET,
{
    proof {
        reveal_strlit("Test Song Title");
    }
    compositor.create_menu_bar_icon(None, "Test Song Title", "Test Artist Name", text_width)
}

} // verus!
