//! The pack's icon: the extension of its file, and its conversion into the
//! launcher's PNG and the shortcut's ICO.

use vstd::prelude::*;
use vstd::string::*;
use crate::error::InstallError;
use crate::text::{after_last, suffix_after};

verus! {

/// The path segments of a URL as `url::Url::path_segments` gives them, or
/// `None` where the text is no URL or one that cannot be a base.
pub uninterp spec fn url_segments_of(url: Seq<char>) -> Option<Seq<Seq<char>>>;

/// Relies on `url::Url::parse` and `url::Url::path_segments`: the segments
/// depend on the text alone, and there is at least one where there are any.
#[verifier::external_body]
fn url_path_segments(url: &str) -> (r: Option<Vec<String>>)
    ensures
        match url_segments_of(url@) {
            Some(segs) => r is Some && r->0.deep_view() == segs && segs.len() >= 1,
            None => r is None,
        },
{
    let parsed = url::Url::parse(url).ok()?;
    let segments = parsed.path_segments()?;
    Some(segments.map(|s| s.to_string()).collect())
}

/// The extension of the icon file that a logo URL names: what follows the
/// last `.` of its last path segment, or the whole segment without a `.`.
pub open spec fn icon_extension_spec(logo_url: Seq<char>) -> Option<Seq<char>> {
    match url_segments_of(logo_url) {
        Some(segs) => if segs.len() > 0 {
            Some(suffix_after(segs.last(), '.'))
        } else {
            None
        },
        None => None,
    }
}

/// The extension of the icon file behind a logo URL; a text that is no URL
/// with a path is a `Format` error.
pub fn icon_extension(logo_url: &str) -> (r: Result<String, InstallError>)
    ensures
        match icon_extension_spec(logo_url@) {
            Some(ext) => r is Ok && r->Ok_0@ == ext,
            None => r is Err && r->Err_0 is Format,
        },
{
    match url_path_segments(logo_url) {
        None => Err(InstallError::Format(String::from_str("Failed to parse logo URL"))),
        Some(segs) => {
            let n = segs.len();
            if n == 0 {
                return Err(InstallError::Format(String::from_str("Failed to get file name from logo URL")));
            }
            let last = &segs[n - 1];
            proof {
                assert(segs.deep_view()[n - 1] == last@);
            }
            Ok(after_last(last.as_str(), '.'))
        },
    }
}

/// The file that decoding `bytes` (of a format recognised by its first
/// bytes) and encoding the image as PNG (`png`) or ICO (`!png`) gives;
/// `None` where either step fails.
pub uninterp spec fn transcoded_of(bytes: Seq<u8>, png: bool) -> Option<Seq<u8>>;

/// Relies on `image::load_from_memory` and `image::DynamicImage::write_to`:
/// the encoded file depends on the input bytes and the format alone.
#[verifier::external_body]
fn transcode(bytes: &[u8], png: bool) -> (r: Option<Vec<u8>>)
    ensures
        match transcoded_of(bytes@, png) {
            Some(b) => r is Some && r->0@ == b,
            None => r is None,
        },
{
    let img = image::load_from_memory(bytes).ok()?;
    let format = if png { image::ImageFormat::Png } else { image::ImageFormat::Ico };
    let mut out = std::io::Cursor::new(Vec::new());
    img.write_to(&mut out, format).ok()?;
    Some(out.into_inner())
}

/// The files made from the icon: the PNG always, the ICO only where asked.
pub struct IconFiles {
    pub png: Vec<u8>,
    pub ico: Option<Vec<u8>>,
}

/// Converts a downloaded icon. The PNG is always made; the ICO only where
/// none is on disk yet (`ico_present` false), since an existing one is kept.
/// Bytes that do not decode, or an image that does not encode, give a
/// `Decode` error.
pub fn convert_icon(bytes: &[u8], ico_present: bool) -> (r: Result<IconFiles, InstallError>)
    ensures
        r is Ok <==> (transcoded_of(bytes@, true) is Some && (ico_present || transcoded_of(
            bytes@,
            false,
        ) is Some)),
        r is Ok ==> r->Ok_0.png@ == transcoded_of(bytes@, true)->0,
        r is Ok ==> (r->Ok_0.ico is Some <==> !ico_present),
        r is Ok && !ico_present ==> r->Ok_0.ico->0@ == transcoded_of(bytes@, false)->0,
        r is Err ==> r->Err_0 is Decode,
{
    let png = match transcode(bytes, true) {
        Some(b) => b,
        None => {
            return Err(InstallError::Decode);
        },
    };
    let ico = if ico_present {
        None
    } else {
        match transcode(bytes, false) {
            Some(b) => Some(b),
            None => {
                return Err(InstallError::Decode);
            },
        }
    };
    Ok(IconFiles { png, ico })
}

} // verus!
