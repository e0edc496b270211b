//! The built-in character set and extension tables.
use vstd::prelude::*;
use crate::text::views;

verus! {

/// The characters that a well-formed filename never holds.
pub open spec fn default_invalid() -> Seq<char> {
    seq![
        '!', '@', '#', '$', '%', '^', '&', '*', '{', '}', '/', '\\', ',', '<', '>', '?', ':',
        ';', '\'', '|', '=', '+', '`',
    ]
}

/// Extensions of image formats.
pub open spec fn image_formats() -> Seq<Seq<char>> {
    seq![
        "jpg"@, "jpeg"@, "jpe"@, "jfif"@, "jif"@, "png"@, "gif"@, "bmp"@, "svg"@, "svgz"@,
        "raw"@, "arw"@, "cr2"@, "nrw"@, "k25"@, "webp"@, "tiff"@, "tif"@, "heif"@, "helc"@,
        "jp2"@, "j2k"@, "jpf"@, "jpx"@, "jpm"@, "mj2"@, "eps"@,
    ]
}

/// Extensions of proprietary document formats.
pub open spec fn proprietary_formats() -> Seq<Seq<char>> {
    seq!["psd"@, "ind"@, "indt"@, "indd"@, "ai"@]
}

/// Extensions of executable formats.
pub open spec fn executable_formats() -> Seq<Seq<char>> {
    seq!["action"@, "exe"@, "bat"@]
}

/// The default set of forbidden characters.
pub fn invalid_chars() -> (r: [char; 23])
    ensures
        r@ == default_invalid(),
{
    let r: [char; 23] = [
        '!', '@', '#', '$', '%', '^', '&', '*', '{', '}', '/', '\\', ',', '<', '>', '?', ':',
        ';', '\'', '|', '=', '+', '`',
    ];
    assert(r@ =~= default_invalid());
    r
}

/// The image format table.
pub fn image_table() -> (r: [&'static str; 27])
    ensures
        views(r@) == image_formats(),
{
    let r: [&'static str; 27] = [
        "jpg", "jpeg", "jpe", "jfif", "jif", "png", "gif", "bmp", "svg", "svgz", "raw", "arw",
        "cr2", "nrw", "k25", "webp", "tiff", "tif", "heif", "helc", "jp2", "j2k", "jpf", "jpx",
        "jpm", "mj2", "eps",
    ];
    assert(views(r@) =~= image_formats());
    r
}

/// The executable format table.
pub fn executable_table() -> (r: [&'static str; 3])
    ensures
        views(r@) == executable_formats(),
{
    let r: [&'static str; 3] = ["action", "exe", "bat"];
    assert(views(r@) =~= executable_formats());
    r
}

} // verus!
