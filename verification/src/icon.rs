//! Process icons as `data:image/png;base64,...` URIs: the 24x24 pixels that
//! Windows draws (blue, green, red, alpha) become an RGBA PNG, base64-encoded.
use vstd::prelude::*;
use crate::text::{push_str, string_of};

verus! {

/// The side of the rendered icon, in pixels.
pub const ICON_SIZE: u32 = 24;

/// The PNG file that `png` 0.18 writes for an 8-bit RGBA image of the given
/// size and pixel rows (`None` when the encoder refuses it).
pub uninterp spec fn png_rgba8_encoding(width: u32, height: u32, rgba: Seq<u8>) -> Option<Seq<u8>>;

/// Encodes 8-bit RGBA pixels as a PNG file with the `png` crate (`Encoder::new`,
/// `set_color(Rgba)`, `set_depth(Eight)`, `write_header`, `write_image_data`,
/// `Writer::finish`). A failed image-data write is ignored as long as the
/// file can be finished. The bytes are a function of the arguments alone; no
/// more is claimed of them.
#[verifier::external_body]
fn encode_png_rgba8(width: u32, height: u32, rgba: &[u8]) -> (r: Option<Vec<u8>>)
    ensures
        match r {
            Some(v) => png_rgba8_encoding(width, height, rgba@) == Some(v@),
            None => png_rgba8_encoding(width, height, rgba@) is None,
        },
{
    let mut png_bytes = Vec::new();
    {
        let mut encoder = png::Encoder::new(&mut png_bytes, width, height);
        encoder.set_color(png::ColorType::Rgba);
        encoder.set_depth(png::BitDepth::Eight);
        let mut writer = match encoder.write_header() {
            Ok(w) => w,
            Err(_) => return None,
        };
        let _ = writer.write_image_data(rgba);
        if writer.finish().is_err() {
            return None;
        }
    }
    Some(png_bytes)
}

/// The character of a 6-bit value in the standard base64 alphabet.
pub open spec fn base64_char(n: nat) -> char {
    if n < 26 {
        (65 + n) as char
    } else if n < 52 {
        (97 + (n - 26)) as char
    } else if n < 62 {
        (48 + (n - 52)) as char
    } else if n == 62 {
        '+'
    } else {
        '/'
    }
}

/// Standard base64 with `=` padding (RFC 4648, section 4).
pub open spec fn base64_standard(b: Seq<u8>) -> Seq<char>
    decreases b.len(),
{
    if b.len() == 0 {
        seq![]
    } else if b.len() == 1 {
        seq![base64_char((b[0] / 4) as nat), base64_char(((b[0] % 4) * 16) as nat), '=', '=']
    } else if b.len() == 2 {
        seq![
            base64_char((b[0] / 4) as nat),
            base64_char(((b[0] % 4) * 16 + b[1] / 16) as nat),
            base64_char(((b[1] % 16) * 4) as nat),
            '=',
        ]
    } else {
        seq![
            base64_char((b[0] / 4) as nat),
            base64_char(((b[0] % 4) * 16 + b[1] / 16) as nat),
            base64_char(((b[1] % 16) * 4 + b[2] / 64) as nat),
            base64_char((b[2] % 64) as nat),
        ] + base64_standard(b.skip(3))
    }
}

/// `base64::engine::general_purpose::STANDARD.encode`: standard alphabet, padded.
#[verifier::external_body]
fn base64_encode(bytes: &[u8]) -> (s: String)
    ensures
        s@ == base64_standard(bytes@),
{
    base64::Engine::encode(&base64::engine::general_purpose::STANDARD, bytes)
}

/// Blue-green-red-alpha pixels reordered to red-green-blue-alpha.
pub open spec fn bgra_to_rgba(b: Seq<u8>) -> Seq<u8> {
    Seq::new(b.len(), |i: int| {
        let base = i - i % 4;
        if i % 4 == 0 { b[base + 2] } else if i % 4 == 2 { b[base] } else { b[i] }
    })
}

/// Every pixel keeps its green and alpha bytes and has its red and blue bytes
/// exchanged, whatever its alpha; nothing is added or dropped.
pub proof fn lemma_red_blue_exchanged(b: Seq<u8>)
    requires
        b.len() % 4 == 0,
    ensures
        bgra_to_rgba(b).len() == b.len(),
        forall|i: int| 0 <= i < b.len() && i % 4 == 0 ==> {
            &&& i + 3 < b.len()
            &&& #[trigger] bgra_to_rgba(b)[i] == b[i + 2]
            &&& bgra_to_rgba(b)[i + 1] == b[i + 1]
            &&& bgra_to_rgba(b)[i + 2] == b[i]
            &&& bgra_to_rgba(b)[i + 3] == b[i + 3]
        },
{
    let r = bgra_to_rgba(b);
    assert forall|i: int| 0 <= i < b.len() && i % 4 == 0 implies {
        &&& i + 3 < b.len()
        &&& #[trigger] r[i] == b[i + 2]
        &&& r[i + 1] == b[i + 1]
        &&& r[i + 2] == b[i]
        &&& r[i + 3] == b[i + 3]
    } by {
        assert(i + 3 < b.len()) by (nonlinear_arith)
            requires 0 <= i < b.len(), i % 4 == 0, b.len() % 4 == 0;
        assert((i + 1) % 4 == 1 && (i + 2) % 4 == 2 && (i + 3) % 4 == 3) by (nonlinear_arith)
            requires i % 4 == 0;
    }
}

/// Reorders blue-green-red-alpha pixels to red-green-blue-alpha.
pub fn swap_red_blue(bgra: &[u8]) -> (rgba: Vec<u8>)
    requires
        bgra@.len() % 4 == 0,
    ensures
        rgba@ == bgra_to_rgba(bgra@),
        rgba@.len() == bgra@.len(),
        forall|i: int| 0 <= i < bgra@.len() && i % 4 == 0 ==> {
            &&& #[trigger] rgba@[i] == bgra@[i + 2]
            &&& rgba@[i + 1] == bgra@[i + 1]
            &&& rgba@[i + 2] == bgra@[i]
            &&& rgba@[i + 3] == bgra@[i + 3]
        },
{
    proof {
        lemma_red_blue_exchanged(bgra@);
    }
    let mut rgba: Vec<u8> = Vec::new();
    let mut i: usize = 0;
    while i < bgra.len()
        invariant
            i <= bgra.len(),
            i % 4 == 0,
            bgra@.len() % 4 == 0,
            rgba@ == bgra_to_rgba(bgra@).take(i as int),
        decreases bgra.len() - i,
    {
        rgba.push(bgra[i + 2]);
        rgba.push(bgra[i + 1]);
        rgba.push(bgra[i]);
        rgba.push(bgra[i + 3]);
        proof {
            let s = bgra_to_rgba(bgra@);
            assert(s[i as int] == bgra@[i as int + 2]);
            assert(s[i as int + 1] == bgra@[i as int + 1]);
            assert(s[i as int + 2] == bgra@[i as int]);
            assert(s[i as int + 3] == bgra@[i as int + 3]);
            assert(rgba@ =~= s.take(i as int + 4));
        }
        i = i + 4;
    }
    proof {
        assert(bgra_to_rgba(bgra@).take(bgra@.len() as int) =~= bgra_to_rgba(bgra@));
    }
    rgba
}

/// The data URI of an icon rendered as 24x24 blue-green-red-alpha pixels:
/// the pixels as an RGBA PNG, base64-encoded; `None` when PNG encoding fails.
pub fn icon_png_data_uri(bgra: &[u8]) -> (uri: Option<String>)
    requires
        bgra@.len() == ICON_SIZE * ICON_SIZE * 4,
    ensures
        match png_rgba8_encoding(ICON_SIZE, ICON_SIZE, bgra_to_rgba(bgra@)) {
            Some(png) => uri matches Some(u) && u@ == "data:image/png;base64,"@ + base64_standard(png),
            None => uri is None,
        },
{
    let rgba = swap_red_blue(bgra);
    let png = match encode_png_rgba8(ICON_SIZE, ICON_SIZE, rgba.as_slice()) {
        Some(p) => p,
        None => return None,
    };
    Some(png_data_uri(png.as_slice()))
}

/// A PNG file as a `data:image/png;base64,` URI.
pub fn png_data_uri(png: &[u8]) -> (uri: String)
    ensures
        uri@ == "data:image/png;base64,"@ + base64_standard(png@),
{
    let b64 = base64_encode(png);
    let mut uri = string_of("data:image/png;base64,");
    push_str(&mut uri, b64.as_str());
    uri
}

} // verus!
