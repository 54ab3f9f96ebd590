use vstd::prelude::*;

use image::ImageFormat as ExtFormat;

verus! {

/// The image codec tags that byte-signature sniffing can recognize.
#[derive(Debug, Clone, Copy, PartialEq, Eq, Structural)]
pub enum ImageFormat {
    Png,
    Jpeg,
    Gif,
    WebP,
    Tiff,
    Dds,
    Bmp,
    Ico,
    Hdr,
    Avif,
    OpenExr,
    Qoi,
    Pnm,
    Farbfeld,
}

/// The codec tag a payload's leading bytes sniff as, if any: a function of
/// the bytes alone, never of a caller-declared content type.
pub uninterp spec fn sniffed_format(raw: Seq<u8>) -> Option<ImageFormat>;

/// Relies on image::guess_format: classifies a payload by its magic bytes;
/// the result depends on the bytes alone. A payload whose signature matches
/// no recognized codec is reported as not an image.
#[verifier::external_body]
fn sniff_format(raw: &[u8]) -> (r: Option<ImageFormat>)
    ensures
        r == sniffed_format(raw@),
{
    let f = match image::guess_format(raw) {
        Ok(f) => f,
        Err(_) => return None,
    };
    match f {
        ExtFormat::Png => Some(ImageFormat::Png), ExtFormat::Jpeg => Some(ImageFormat::Jpeg),
        ExtFormat::Gif => Some(ImageFormat::Gif), ExtFormat::WebP => Some(ImageFormat::WebP),
        ExtFormat::Tiff => Some(ImageFormat::Tiff), ExtFormat::Dds => Some(ImageFormat::Dds),
        ExtFormat::Bmp => Some(ImageFormat::Bmp), ExtFormat::Ico => Some(ImageFormat::Ico),
        ExtFormat::Hdr => Some(ImageFormat::Hdr), ExtFormat::Avif => Some(ImageFormat::Avif),
        ExtFormat::OpenExr => Some(ImageFormat::OpenExr), ExtFormat::Qoi => Some(ImageFormat::Qoi),
        ExtFormat::Pnm => Some(ImageFormat::Pnm), ExtFormat::Farbfeld => Some(ImageFormat::Farbfeld),
        _ => None,
    }
}

/// What a payload decodes to, if it decodes: the pixel grid's width, height
/// and tightly packed RGBA bytes — a function of the payload alone.
pub uninterp spec fn decoded_image(raw: Seq<u8>) -> Option<(u32, u32, Seq<u8>)>;

/// Relies on image::load_from_memory (sniff the codec, then decode) and on
/// DynamicImage::into_rgba8: the pixel grid is a function of the payload
/// alone, laid out as exactly four bytes per pixel.
#[verifier::external_body]
fn decode_rgba(raw: &[u8]) -> (r: Option<(u32, u32, Vec<u8>)>)
    ensures
        (match r {
            Some(d) => decoded_image(raw@) == Some((d.0, d.1, d.2@))
                && d.2@.len() == 4 * (d.0 as int) * (d.1 as int),
            None => decoded_image(raw@) is None,
        }),
{
    let img = match image::load_from_memory(raw) {
        Ok(i) => i,
        Err(_) => return None,
    };
    let rgba = img.into_rgba8();
    let (width, height) = (rgba.width(), rgba.height());
    Some((width, height, rgba.into_raw()))
}

/// The perceptual fingerprint of a pixel grid under the given component
/// counts: a function of its arguments alone, identical across calls,
/// processes and machines.
pub uninterp spec fn blurhash_of(
    components_x: u32,
    components_y: u32,
    width: u32,
    height: u32,
    rgba: Seq<u8>,
) -> Seq<char>;

/// Relies on blurhash::encode: with both component counts in 1..=9 it
/// succeeds, its result depends on its arguments alone, and the hash always
/// carries at least its leading size flag character. The bounds keep every
/// pixel index the encoder forms within the buffer and its 32-bit arithmetic
/// free of overflow.
#[verifier::external_body]
fn encode_blurhash(cx: u32, cy: u32, width: u32, height: u32, rgba: &Vec<u8>) -> (r: String)
    requires
        1 <= cx <= 9,
        1 <= cy <= 9,
        rgba@.len() == 4 * (width as int) * (height as int),
        4 * (width as int) <= u32::MAX,
        4 * (width as int) * (height as int) <= u32::MAX,
    ensures
        r@ == blurhash_of(cx, cy, width, height, rgba@),
        r@.len() > 0,
{
    blurhash::encode(cx, cy, width, height, rgba.as_slice()).unwrap()
}

/// Basis component counts used for every fingerprint, in both axes.
pub const X_COMPONENTS: u32 = 5;
pub const Y_COMPONENTS: u32 = 5;

/// Pixel grids small enough for the fingerprint encoder's 32-bit index
/// arithmetic; derivation degrades gracefully on anything larger.
pub open spec fn blurhash_feasible(width: u32, height: u32) -> bool {
    &&& width <= 0x3FFF_FFFF
    &&& (width as int) * (height as int) <= 0x3FFF_FFFF
}

/// The width of the decoded pixel grid (zero when nothing decodes).
pub open spec fn decoded_width(raw: Seq<u8>) -> u32 {
    match decoded_image(raw) {
        Some(d) => d.0,
        None => 0,
    }
}

/// The height of the decoded pixel grid (zero when nothing decodes).
pub open spec fn decoded_height(raw: Seq<u8>) -> u32 {
    match decoded_image(raw) {
        Some(d) => d.1,
        None => 0,
    }
}

/// The decoded pixel grid's RGBA bytes (empty when nothing decodes).
pub open spec fn decoded_rgba(raw: Seq<u8>) -> Seq<u8> {
    match decoded_image(raw) {
        Some(d) => d.2,
        None => Seq::empty(),
    }
}

/// Whether derivation classifies a payload as an image: its signature sniffs
/// as a recognized codec, it decodes, and its pixel grid is one the
/// fingerprint encoder accepts.
pub open spec fn image_metadata_applies(raw: Seq<u8>) -> bool {
    &&& sniffed_format(raw) is Some
    &&& decoded_image(raw) is Some
    &&& blurhash_feasible(decoded_width(raw), decoded_height(raw))
}

/// Descriptive metadata derived from stored bytes: a recognized image with
/// its perceptual fingerprint, or an unclassified payload carrying whatever
/// content type the caller declared.
#[derive(Debug, Clone, PartialEq)]
pub enum Metadata {
    Image { format: ImageFormat, blurhash: String },
    Unknown { original_media_type: Option<String> },
}

/// Everything derivation promises of its result: when the payload classifies
/// as an image, the result is `Image` carrying the sniffed codec tag and the
/// (non-empty) fingerprint of the decoded pixel grid under the fixed
/// component counts; otherwise it is `Unknown` carrying the declared content
/// type untouched.
pub open spec fn derivation_post(raw: Seq<u8>, media_type: Option<String>, r: Metadata) -> bool {
    &&& (image_metadata_applies(raw) ==> (r matches Metadata::Image { format, blurhash }
        && Some(format) == sniffed_format(raw)
        && blurhash@ == blurhash_of(
            X_COMPONENTS,
            Y_COMPONENTS,
            decoded_width(raw),
            decoded_height(raw),
            decoded_rgba(raw),
        )
        && blurhash@.len() > 0))
    &&& (!image_metadata_applies(raw) ==> r == (Metadata::Unknown {
        original_media_type: media_type,
    }))
}

/// Attempts full image derivation: sniff, decode, fingerprint. Any step
/// failing — or a pixel grid the encoder cannot take — yields nothing.
fn fallible_metadata(raw: &[u8]) -> (r: Option<Metadata>)
    ensures
        image_metadata_applies(raw@) ==> (r matches Some(m)
            && m matches Metadata::Image { format, blurhash }
            && Some(format) == sniffed_format(raw@)
            && blurhash@ == blurhash_of(
                X_COMPONENTS,
                Y_COMPONENTS,
                decoded_width(raw@),
                decoded_height(raw@),
                decoded_rgba(raw@),
            )
            && blurhash@.len() > 0),
        !image_metadata_applies(raw@) ==> r is None,
{
    let format = match sniff_format(raw) {
        Some(f) => f,
        None => return None,
    };
    let decoded = match decode_rgba(raw) {
        Some(d) => d,
        None => return None,
    };
    let (width, height, rgba) = decoded;
    if width as u64 > 0x3FFF_FFFF {
        return None;
    }
    proof {
        assert((width as int) * (height as int) <= 0x3FFF_FFFF * 0xFFFF_FFFF) by (nonlinear_arith)
            requires
                width as int <= 0x3FFF_FFFF,
                height as int <= 0xFFFF_FFFF,
        ;
    }
    if (width as u64) * (height as u64) > 0x3FFF_FFFF {
        return None;
    }
    proof {
        assert(4 * (width as int) * (height as int) <= u32::MAX) by (nonlinear_arith)
            requires
                (width as int) * (height as int) <= 0x3FFF_FFFF,
                width >= 0,
                height >= 0,
        ;
    }
    let hash = encode_blurhash(X_COMPONENTS, Y_COMPONENTS, width, height, &rgba);
    Some(Metadata::Image { format, blurhash: hash })
}

impl Metadata {
    /// Derives metadata for stored bytes. Classification goes by the byte
    /// signature alone — the declared type is advisory and never trusted —
    /// and derivation is best-effort: any failure along the way collapses to
    /// `Unknown` carrying the declared type, never an error.
    pub fn new(raw: &[u8], media_type: Option<String>) -> (r: Metadata)
        ensures
            derivation_post(raw@, media_type, r),
    {
        match fallible_metadata(raw) {
            Some(m) => m,
            None => Metadata::Unknown { original_media_type: media_type },
        }
    }
}

/// Law: derivation is deterministic — two derivations of the same image bytes
/// (with the fixed component parameters, whatever types the callers declared)
/// both classify the payload as an image and carry identical fingerprints,
/// since the fingerprint is a function of the decoded grid, itself a function
/// of the bytes alone.
pub proof fn lemma_derivation_deterministic(
    raw: Seq<u8>,
    media_type1: Option<String>,
    media_type2: Option<String>,
    m1: Metadata,
    m2: Metadata,
)
    requires
        image_metadata_applies(raw),
        derivation_post(raw, media_type1, m1),
        derivation_post(raw, media_type2, m2),
    ensures
        m1 is Image,
        m2 is Image,
        m1 matches Metadata::Image { blurhash: h1, format: f1 }
            && m2 matches Metadata::Image { blurhash: h2, format: f2 }
            ==> h1@ == h2@ && f1 == f2,
{
}

} // verus!
