//! Image formats, the candidate filter, and the pixel round trip that
//! drops every piece of metadata.
use crate::paths::{eq_ignore_ascii_case, extension, spec_eq_ignore_ascii_case, spec_extension};
use crate::summary::Failure;
use image::ImageFormat;
use oxipng::PngError;
use vstd::prelude::*;

verus! {

#[verifier::external_type_specification]
#[verifier::external_body]
pub struct ExPngError(PngError);

/// The image formats this library reads and writes.
#[derive(Clone, Copy, Debug, PartialEq, Eq, Structural)]
pub enum ImageKind {
    Png,
    Jpeg,
}

/// The format an extension names, whatever the case of its letters.
pub open spec fn spec_kind_of_extension(ext: Seq<char>) -> Option<ImageKind> {
    if spec_eq_ignore_ascii_case(ext, seq!['p', 'n', 'g']) {
        Some(ImageKind::Png)
    } else if spec_eq_ignore_ascii_case(ext, seq!['j', 'p', 'g']) || spec_eq_ignore_ascii_case(
        ext,
        seq!['j', 'p', 'e', 'g'],
    ) {
        Some(ImageKind::Jpeg)
    } else {
        None
    }
}

/// The format of the file at path `p`, if its extension names one.
pub open spec fn spec_kind_of_path(p: Seq<char>) -> Option<ImageKind> {
    match spec_extension(p) {
        Some(e) => spec_kind_of_extension(e),
        None => None,
    }
}

/// A directory entry is a candidate when it is a regular file whose
/// extension names one of the formats.
pub open spec fn spec_is_candidate(p: Seq<char>, is_file: bool) -> bool {
    is_file && spec_kind_of_path(p) is Some
}

/// Whether `data` decodes as an image of format `kind`.
pub uninterp spec fn decodable(data: Seq<u8>, kind: ImageKind) -> bool;

/// The bytes of the pixels of `data`, decoded as format `kind` and encoded
/// again in it with the format's default settings; none when encoding fails.
pub uninterp spec fn reencoded(data: Seq<u8>, kind: ImageKind) -> Option<Seq<u8>>;

/// Relies on image::load_from_memory_with_format, then
/// image::DynamicImage::write_to into memory: both depend on the bytes and
/// the format alone. `Err(true)` is a failed decode, `Err(false)` a failed
/// encode.
#[verifier::external_body]
fn decode_and_encode(data: &[u8], kind: ImageKind) -> (r: Result<Vec<u8>, bool>)
    ensures
        r matches Ok(b) ==> reencoded(data@, kind) == Some(b@),
        r is Ok ==> decodable(data@, kind),
        r matches Err(d) ==> (d <==> !decodable(data@, kind)),
        r matches Err(d) ==> (d || reencoded(data@, kind) is None),
{
    let format = match kind {
        ImageKind::Png => ImageFormat::Png,
        ImageKind::Jpeg => ImageFormat::Jpeg,
    };
    let img = image::load_from_memory_with_format(data, format).map_err(|_| true)?;
    let mut out: Vec<u8> = Vec::new();
    img.write_to(&mut std::io::Cursor::new(&mut out), format).map_err(|_| false)?;
    Ok(out)
}

/// What lossless recompression makes of the PNG `data`; none when it fails.
pub uninterp spec fn recompressed(data: Seq<u8>) -> Option<Seq<u8>>;

/// Relies on oxipng::optimize_from_memory at preset 2: when the result would
/// not be smaller it hands back the input, so it never grows. With no
/// timeout its result depends on the input alone.
#[verifier::external_body]
fn recompress(data: &[u8]) -> (r: Result<Vec<u8>, PngError>)
    ensures
        r matches Ok(o) ==> recompressed(data@) == Some(o@),
        r is Err <==> recompressed(data@) is None,
        r matches Ok(o) ==> o@.len() <= data@.len(),
{
    oxipng::optimize_from_memory(data, &oxipng::Options::from_preset(2))
}

/// The format that extension `ext` names.
pub fn kind_of_extension(ext: &Vec<char>) -> (r: Option<ImageKind>)
    ensures
        r == spec_kind_of_extension(ext@),
{
    let png: Vec<char> = vec!['p', 'n', 'g'];
    let jpg: Vec<char> = vec!['j', 'p', 'g'];
    let jpeg: Vec<char> = vec!['j', 'p', 'e', 'g'];
    proof {
        assert(png@ =~= seq!['p', 'n', 'g']);
        assert(jpg@ =~= seq!['j', 'p', 'g']);
        assert(jpeg@ =~= seq!['j', 'p', 'e', 'g']);
    }
    if eq_ignore_ascii_case(ext, &png) {
        Some(ImageKind::Png)
    } else if eq_ignore_ascii_case(ext, &jpg) || eq_ignore_ascii_case(ext, &jpeg) {
        Some(ImageKind::Jpeg)
    } else {
        None
    }
}

/// The format of the file at path `p`.
pub fn kind_of_path(p: &Vec<char>) -> (r: Option<ImageKind>)
    ensures
        r == spec_kind_of_path(p@),
{
    match extension(p) {
        Some(e) => kind_of_extension(&e),
        None => None,
    }
}

/// Whether a directory entry at `p` is a file to process.
pub fn is_candidate(p: &Vec<char>, is_file: bool) -> (r: bool)
    ensures
        r == spec_is_candidate(p@, is_file),
{
    is_file && kind_of_path(p).is_some()
}

/// How deep a scan of the input directory goes: its immediate children
/// only, or without bound.
pub fn walk_depth(recursive: bool) -> (r: usize)
    ensures
        r == (if recursive {
            usize::MAX
        } else {
            1usize
        }),
{
    if recursive {
        usize::MAX
    } else {
        1
    }
}

/// Lossless recompression runs after encoding only for PNG output, and only
/// when asked for.
pub open spec fn recompresses(optimize: bool, kind: ImageKind) -> bool {
    optimize && kind == ImageKind::Png
}

/// Whether lossless recompression runs after encoding.
pub fn should_recompress(optimize: bool, kind: ImageKind) -> (r: bool)
    ensures
        r == recompresses(optimize, kind),
{
    optimize && match kind {
        ImageKind::Png => true,
        ImageKind::Jpeg => false,
    }
}

/// Decode `data` as format `kind` and encode its pixels again in the same
/// format. Only pixel values survive, so all metadata is gone.
pub fn reencode(data: &[u8], kind: ImageKind) -> (r: Result<Vec<u8>, Failure>)
    ensures
        r matches Ok(b) ==> reencoded(data@, kind) == Some(b@),
        r is Ok <==> decodable(data@, kind) && reencoded(data@, kind) is Some,
        r == Err::<Vec<u8>, Failure>(Failure::Decode) <==> !decodable(data@, kind),
        r == Err::<Vec<u8>, Failure>(Failure::Encode) <==> decodable(data@, kind) && reencoded(
            data@,
            kind,
        ) is None,
        r matches Err(f) ==> f == Failure::Decode || f == Failure::Encode,
{
    match decode_and_encode(data, kind) {
        Ok(bytes) => Ok(bytes),
        Err(true) => Err(Failure::Decode),
        Err(false) => Err(Failure::Encode),
    }
}

/// Recompress PNG bytes losslessly; the result is never longer.
pub fn optimize_png(data: &[u8]) -> (r: Result<Vec<u8>, Failure>)
    ensures
        r matches Ok(o) ==> recompressed(data@) == Some(o@),
        r is Err <==> recompressed(data@) is None,
        r matches Ok(o) ==> o@.len() <= data@.len(),
        r matches Err(f) ==> f == Failure::Optimize,
{
    match recompress(data) {
        Ok(o) => Ok(o),
        Err(_) => Err(Failure::Optimize),
    }
}

} // verus!
