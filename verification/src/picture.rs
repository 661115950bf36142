use vstd::prelude::*;

verus! {

/// The picture formats that sign-up tells apart.
#[derive(Clone, Copy, Debug, PartialEq, Eq, Structural)]
pub enum PictureFormat {
    Png,
    Jpeg,
    Other,
}


/// The format that `image` reads from the extension of a path.
pub uninterp spec fn image_path_format(path: Seq<char>) -> Option<PictureFormat>;

/// The bytes start with the PNG signature.
pub open spec fn png_magic(head: Seq<u8>) -> bool {
    head.len() >= 8 && head.take(8) == seq![0x89u8, 0x50u8, 0x4Eu8, 0x47u8, 0x0Du8, 0x0Au8, 0x1Au8, 0x0Au8]
}

/// The bytes start with the JPEG signature.
pub open spec fn jpeg_magic(head: Seq<u8>) -> bool {
    head.len() >= 3 && head.take(3) == seq![0xFFu8, 0xD8u8, 0xFFu8]
}

/// The bytes start with `sig`.
pub open spec fn starts_with(head: Seq<u8>, sig: Seq<u8>) -> bool {
    sig.len() <= head.len() && head.take(sig.len() as int) == sig
}

/// The signatures of the other formats that `image` recognises: GIF (two),
/// WebP, TIFF (two), DDS, BMP, ICO, HDR, PNM (seven), farbfeld, AVIF (two),
/// OpenEXR and QOI.
pub open spec fn other_signatures() -> Seq<Seq<u8>> {
    seq![
        seq![0x47u8, 0x49u8, 0x46u8, 0x38u8, 0x39u8, 0x61u8],
        seq![0x47u8, 0x49u8, 0x46u8, 0x38u8, 0x37u8, 0x61u8],
        seq![0x52u8, 0x49u8, 0x46u8, 0x46u8],
        seq![0x4Du8, 0x4Du8, 0x00u8, 0x2Au8],
        seq![0x49u8, 0x49u8, 0x2Au8, 0x00u8],
        seq![0x44u8, 0x44u8, 0x53u8, 0x20u8],
        seq![0x42u8, 0x4Du8],
        seq![0x00u8, 0x00u8, 0x01u8, 0x00u8],
        seq![0x23u8, 0x3Fu8, 0x52u8, 0x41u8, 0x44u8, 0x49u8, 0x41u8, 0x4Eu8, 0x43u8, 0x45u8],
        seq![0x50u8, 0x31u8],
        seq![0x50u8, 0x32u8],
        seq![0x50u8, 0x33u8],
        seq![0x50u8, 0x34u8],
        seq![0x50u8, 0x35u8],
        seq![0x50u8, 0x36u8],
        seq![0x50u8, 0x37u8],
        seq![0x66u8, 0x61u8, 0x72u8, 0x62u8, 0x66u8, 0x65u8, 0x6Cu8, 0x64u8],
        seq![0x00u8, 0x00u8, 0x00u8, 0x20u8, 0x66u8, 0x74u8, 0x79u8, 0x70u8, 0x61u8, 0x76u8, 0x69u8, 0x66u8],
        seq![0x00u8, 0x00u8, 0x00u8, 0x1Cu8, 0x66u8, 0x74u8, 0x79u8, 0x70u8, 0x61u8, 0x76u8, 0x69u8, 0x66u8],
        seq![0x76u8, 0x2Fu8, 0x31u8, 0x01u8],
        seq![0x71u8, 0x6Fu8, 0x69u8, 0x66u8],
    ]
}

/// The format that `image` guesses from the first bytes of a file: PNG and
/// JPEG by their signatures, another format by one of the other signatures,
/// none otherwise.
pub open spec fn magic_format(head: Seq<u8>) -> Option<PictureFormat> {
    if png_magic(head) {
        Some(PictureFormat::Png)
    } else if jpeg_magic(head) {
        Some(PictureFormat::Jpeg)
    } else if exists|i: int| 0 <= i < other_signatures().len() && starts_with(head, #[trigger] other_signatures()[i]) {
        Some(PictureFormat::Other)
    } else {
        None
    }
}

/// Calls `image::guess_format`. Trusted: the crate tries its table of
/// signatures in order and gives the format of the first that the bytes
/// start with; PNG and JPEG are its first two entries, and no two entries
/// that give different formats here can both match (`magic_format`).
#[verifier::external_body]
fn image_guess_format(head: &[u8]) -> (res: Option<PictureFormat>)
    ensures
        res == magic_format(head@),
{
    match image::guess_format(head) {
        Ok(image::ImageFormat::Png) => Some(PictureFormat::Png),
        Ok(image::ImageFormat::Jpeg) => Some(PictureFormat::Jpeg),
        Ok(_) => Some(PictureFormat::Other),
        Err(_) => None,
    }
}

/// Calls `image::ImageFormat::from_path`. Trusted: the answer is the named
/// format of the path's extension; which extensions give which format is
/// left to the name.
#[verifier::external_body]
fn image_format_from_path(path: &str) -> (res: Option<PictureFormat>)
    ensures
        res == image_path_format(path@),
{
    match image::ImageFormat::from_path(path) {
        Ok(image::ImageFormat::Png) => Some(PictureFormat::Png),
        Ok(image::ImageFormat::Jpeg) => Some(PictureFormat::Jpeg),
        Ok(_) => Some(PictureFormat::Other),
        Err(_) => None,
    }
}

/// The format of an uploaded picture whose file starts with `head` and lies
/// at `path`: the format its first bytes show, else the one its extension shows.
pub open spec fn picture_format_of(head: Seq<u8>, path: Seq<char>) -> Option<PictureFormat> {
    match magic_format(head) {
        Some(f) => Some(f),
        None => image_path_format(path),
    }
}

/// The format of an uploaded picture (see `picture_format_of`).
pub fn picture_format(head: &[u8], path: &str) -> (res: Option<PictureFormat>)
    ensures
        res == picture_format_of(head@, path@),
        png_magic(head@) ==> res == Some(PictureFormat::Png),
        jpeg_magic(head@) ==> res == Some(PictureFormat::Jpeg),
{
    let from_path = image_format_from_path(path);
    match image_guess_format(head) {
        Some(f) => Some(f),
        None => from_path,
    }
}

/// Profile pictures must be PNG or JPEG.
pub open spec fn supported_picture(format: Option<PictureFormat>) -> bool {
    format == Some(PictureFormat::Png) || format == Some(PictureFormat::Jpeg)
}

/// The first bytes give PNG exactly when they carry the PNG signature, and
/// JPEG exactly when they carry the JPEG signature.
pub proof fn lemma_magic_png_and_jpeg(head: Seq<u8>)
    ensures
        (magic_format(head) == Some(PictureFormat::Png)) <==> png_magic(head),
        (magic_format(head) == Some(PictureFormat::Jpeg)) <==> jpeg_magic(head),
        png_magic(head) ==> !jpeg_magic(head),
{
    if png_magic(head) && jpeg_magic(head) {
        assert(head.take(8)[0] == head[0]);
        assert(head.take(3)[0] == head[0]);
    }
}

/// The largest picture accepted is 526 KiB.
pub proof fn lemma_picture_limit()
    ensures
        MAX_PICTURE_SIZE == 526 * 1024,
{
}

/// Only PNG and JPEG pass: another format, or no recognised format at all,
/// does not.
pub proof fn lemma_only_png_and_jpeg_are_supported(format: Option<PictureFormat>)
    ensures
        supported_picture(format) <==> (format == Some(PictureFormat::Png) || format == Some(PictureFormat::Jpeg)),
        !supported_picture(None),
        !supported_picture(Some(PictureFormat::Other)),
{
}

/// A file whose first bytes carry no known signature and whose path has no
/// known extension is not a supported picture.
pub proof fn lemma_unrecognised_picture_is_refused(head: Seq<u8>, path: Seq<char>)
    requires
        !png_magic(head),
        !jpeg_magic(head),
        forall|i: int| 0 <= i < other_signatures().len() ==> !starts_with(head, #[trigger] other_signatures()[i]),
        image_path_format(path) is None,
    ensures
        !supported_picture(picture_format_of(head, path)),
{
}

/// The largest profile picture accepted, in bytes (526 KiB).
pub const MAX_PICTURE_SIZE: usize = 538624;

} // verus!
