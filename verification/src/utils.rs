//! Helpers around the pipeline: names of files, sizes in words, and checks
//! on what the user asked for.

use vstd::prelude::*;
use crate::config::MAX_DIMENSION;
use crate::error::{Failure, ImageToolError};
use crate::geometry::round_div;
use crate::paths::{extension, extension_of, stem, stem_of, with_file_name, with_file_name_of};
use crate::raster::{
    describe_image_error, image_error_text, probe_dimensions, probed_dimensions, sniff_format,
    sniffed_format, ContainerFormat,
};
use crate::text::{
    chars_of, decimal, digit_char, lower, lowercased, push_char, push_decimal, push_text,
    same_text, string_of, to_lower, to_lowercase,
};

verus! {

/// Whether a lower-case extension names a container that can be read.
pub open spec fn is_supported_extension(ext: Seq<char>) -> bool {
    ext == "jpg"@ || ext == "jpeg"@ || ext == "png"@ || ext == "gif"@ || ext == "bmp"@ || ext
        == "tiff"@ || ext == "tif"@ || ext == "webp"@
}

/// Whether a path ends in a supported extension, in any letter case.
pub open spec fn supports(path: Seq<char>) -> bool {
    match extension_of(path) {
        Some(ext) => is_supported_extension(lower(ext)),
        None => false,
    }
}

/// The extension of a path in lower case, if it has one. Lower case is that
/// of Unicode, so that `É` becomes `é`.
pub fn get_file_extension(path: &str) -> (r: Option<String>)
    ensures
        match r {
            Some(ext) => extension_of(path@) is Some && ext@ == lowercased(
                extension_of(path@)->Some_0,
            ),
            None => extension_of(path@) is None,
        },
{
    match extension(path) {
        Some(ext) => Some(to_lowercase(ext.as_str())),
        None => None,
    }
}

/// The extension of a path with its letters `A` to `Z` in lower case, if it
/// has one: the form in which an extension is looked up among the names of
/// the containers, which are all in ASCII.
pub fn folded_extension(path: &str) -> (r: Option<String>)
    ensures
        match r {
            Some(ext) => extension_of(path@) is Some && ext@ == lower(extension_of(path@)->Some_0),
            None => extension_of(path@) is None,
        },
{
    match extension(path) {
        Some(ext) => Some(string_of(&to_lower(&chars_of(ext.as_str())))),
        None => None,
    }
}

/// Whether the file at `path` is one that the pipeline reads: its extension
/// is one of `jpg`, `jpeg`, `png`, `gif`, `bmp`, `tiff`, `tif`, `webp`, in
/// any letter case.
pub fn is_supported_format(path: &str) -> (r: bool)
    ensures
        r == supports(path@),
{
    match folded_extension(path) {
        Some(ext) => {
            let e = ext.as_str();
            same_text(e, "jpg") || same_text(e, "jpeg") || same_text(e, "png") || same_text(
                e,
                "gif",
            ) || same_text(e, "bmp") || same_text(e, "tiff") || same_text(e, "tif") || same_text(
                e,
                "webp",
            )
        },
        None => false,
    }
}

/// Whether a character may not stand in a file name.
pub open spec fn is_invalid_char(c: char) -> bool {
    c == '/' || c == '\\' || c == ':' || c == '*' || c == '?' || c == '"' || c == '<' || c == '>'
        || c == '|'
}

/// A name with each character that may not stand in a file name replaced
/// by `_`.
pub open spec fn sanitized(name: Seq<char>) -> Seq<char> {
    name.map_values(
        |c: char|
            if is_invalid_char(c) {
                '_'
            } else {
                c
            },
    )
}

/// Replaces each of `/ \ : * ? " < > |` by `_` and keeps every other
/// character, so that the length does not change.
pub fn sanitize_filename(filename: &str) -> (r: String)
    ensures
        r@ == sanitized(filename@),
        r@.len() == filename@.len(),
        forall|i: int| 0 <= i < r@.len() ==> !is_invalid_char(#[trigger] r@[i]),
{
    let chars = chars_of(filename);
    let mut out: Vec<char> = Vec::new();
    let mut i: usize = 0;
    while i < chars.len()
        invariant
            i <= chars.len(),
            out@ == sanitized(chars@.take(i as int)),
        decreases chars.len() - i,
    {
        let c = chars[i];
        let invalid: bool = c == '/' || c == '\\' || c == ':' || c == '*' || c == '?' || c == '"'
            || c == '<' || c == '>' || c == '|';
        out.push(
            if invalid {
                '_'
            } else {
                c
            },
        );
        assert(sanitized(chars@.take(i + 1)) =~= sanitized(chars@.take(i as int)).push(
            if is_invalid_char(c) {
                '_'
            } else {
                c
            },
        ));
        i = i + 1;
    }
    assert(chars@.take(chars.len() as int) =~= chars@);
    string_of(&out)
}

/// Checks a requested width and height: neither above 100,000, and not
/// both zero.
pub fn validate_dimensions(width: u32, height: u32) -> (r: Result<(), ImageToolError>)
    ensures
        r is Ok <==> width <= MAX_DIMENSION && height <= MAX_DIMENSION && (width > 0 || height
            > 0),
        width > MAX_DIMENSION || height > MAX_DIMENSION ==> r is Err && r->Err_0.reports(
            Failure::invalid("Dimensions too large (max 100,000 pixels)"@),
        ),
        width == 0 && height == 0 ==> r is Err && r->Err_0.reports(
            Failure::invalid("At least one dimension must be specified"@),
        ),
{
    if width > MAX_DIMENSION || height > MAX_DIMENSION {
        return Err(ImageToolError::invalid_parameter("Dimensions too large (max 100,000 pixels)"));
    }
    if width == 0 && height == 0 {
        return Err(ImageToolError::invalid_parameter("At least one dimension must be specified"));
    }
    Ok(())
}

/// The proportion of width to height in hundredths, rounded to the nearest
/// with a half going up; zero where the height is zero.
pub open spec fn aspect_ratio(width: u32, height: u32) -> int {
    if height == 0 {
        0
    } else {
        round_div(width * 100, height as int)
    }
}

/// The proportion of width to height, in hundredths: 133 for four to three.
/// A height of zero gives zero.
pub fn calculate_aspect_ratio(width: u32, height: u32) -> (r: u64)
    ensures
        r == aspect_ratio(width, height),
{
    if height == 0 {
        return 0;
    }
    let w: u64 = width as u64 * 100;
    let h: u64 = height as u64;
    assert((2 * (width * 100) + height) / (2 * height) <= 2 * (width * 100) + height) by (
        nonlinear_arith)
        requires
            height > 0,
            width >= 0,
    ;
    (2 * w + h) / (2 * h)
}

/// The unit in which a size is written: 0 for bytes, then one step for each
/// factor of 1024, up to 5.
pub open spec fn unit_index(bytes: u64) -> int {
    if bytes < 0x400 {
        0
    } else if bytes < 0x10_0000 {
        1
    } else if bytes < 0x4000_0000 {
        2
    } else if bytes < 0x100_0000_0000 {
        3
    } else if bytes < 0x4_0000_0000_0000 {
        4
    } else {
        5
    }
}

/// The number of bytes in one unit.
pub open spec fn unit_size(index: int) -> int {
    if index == 0 {
        1
    } else if index == 1 {
        0x400
    } else if index == 2 {
        0x10_0000
    } else if index == 3 {
        0x4000_0000
    } else if index == 4 {
        0x100_0000_0000
    } else {
        0x4_0000_0000_0000
    }
}

/// The name of a unit.
pub open spec fn unit_name(index: int) -> Seq<char> {
    if index == 0 {
        "B"@
    } else if index == 1 {
        "KB"@
    } else if index == 2 {
        "MB"@
    } else if index == 3 {
        "GB"@
    } else if index == 4 {
        "TB"@
    } else {
        "PB"@
    }
}

/// The integer nearest to `n / d`; a half goes to the even neighbour.
pub open spec fn round_half_even(n: int, d: int) -> int {
    let q = n / d;
    let r = n % d;
    if 2 * r > d || (2 * r == d && q % 2 == 1) {
        q + 1
    } else {
        q
    }
}

/// A size in hundredths of its unit, rounded.
pub open spec fn size_hundredths(bytes: u64) -> int {
    round_half_even(bytes * 100, unit_size(unit_index(bytes)))
}

/// A size in words: the number with two decimals, a space and the unit, as
/// in `1.50 KB`; `0 B` for nothing.
pub open spec fn file_size_text(bytes: u64) -> Seq<char> {
    if bytes == 0 {
        "0 B"@
    } else {
        let h = size_hundredths(bytes);
        decimal((h / 100) as nat) + seq![
            '.',
            digit_char((h % 100) / 10),
            digit_char((h % 100) % 10),
            ' ',
        ] + unit_name(unit_index(bytes))
    }
}

/// Writes a size in bytes for a reader: in the largest unit of B, KB, MB,
/// GB, TB, PB (steps of 1024) that is not larger than the size, with two
/// decimals.
pub fn format_file_size(bytes: u64) -> (r: String)
    ensures
        r@ == file_size_text(bytes),
{
    if bytes == 0 {
        return String::from_str("0 B");
    }
    let (size, name): (u64, &str) = if bytes < 0x400 {
        (1, "B")
    } else if bytes < 0x10_0000 {
        (0x400, "KB")
    } else if bytes < 0x4000_0000 {
        (0x10_0000, "MB")
    } else if bytes < 0x100_0000_0000 {
        (0x4000_0000, "GB")
    } else if bytes < 0x4_0000_0000_0000 {
        (0x100_0000_0000, "TB")
    } else {
        (0x4_0000_0000_0000, "PB")
    };
    let scaled: u128 = (bytes as u128) * 100;
    let q: u128 = scaled / (size as u128);
    let rest: u128 = scaled % (size as u128);
    let h: u128 = if 2 * rest > size as u128 || (2 * rest == size as u128 && q % 2 == 1) {
        q + 1
    } else {
        q
    };
    let whole: u64 = (h / 100) as u64;
    let cents: u8 = (h % 100) as u8;
    let mut out = String::new();
    push_decimal(&mut out, whole);
    push_char(&mut out, '.');
    push_char(&mut out, (48u8 + cents / 10) as char);
    push_char(&mut out, (48u8 + cents % 10) as char);
    push_char(&mut out, ' ');
    push_text(&mut out, name);
    proof {
        let hs = size_hundredths(bytes);
        assert(hs == h);
        assert(out@ =~= decimal((hs / 100) as nat) + seq![
            '.',
            digit_char((hs % 100) / 10),
            digit_char((hs % 100) % 10),
            ' ',
        ] + unit_name(unit_index(bytes)));
    }
    out
}

/// The file name under which a result is stored when the user gave none:
/// `stem_suffix_timestamp.ext`, or `stem_suffix_timestamp_n.ext` for the
/// `n`th further attempt. A missing stem counts as `image`, a missing
/// extension as `jpg`.
pub open spec fn generated_name(
    input_path: Seq<char>,
    suffix: Seq<char>,
    timestamp: u64,
    attempt: u32,
) -> Seq<char> {
    let stem = match stem_of(input_path) {
        Some(s) => s,
        None => "image"@,
    };
    let ext = match extension_of(input_path) {
        Some(e) => e,
        None => "jpg"@,
    };
    let counter = if attempt == 0 {
        Seq::<char>::empty()
    } else {
        "_"@ + decimal(attempt as nat)
    };
    stem + "_"@ + suffix + "_"@ + decimal(timestamp as nat) + counter + "."@ + ext
}

/// The path under which a result is stored when the user gave none: the
/// input path with its file name replaced by the generated one, so that the
/// result lies beside the input.
pub open spec fn generated_path(
    input_path: Seq<char>,
    suffix: Seq<char>,
    timestamp: u64,
    attempt: u32,
) -> Seq<char> {
    with_file_name_of(input_path, generated_name(input_path, suffix, timestamp, attempt))
}

/// With a suffix that holds no `/`, the generated path has the generated
/// name as its file name: the stem of the input, the suffix, the time, the
/// attempt if it is not the first, and the extension of the input.
pub proof fn lemma_generated_path_has_generated_name(
    input_path: Seq<char>,
    suffix: Seq<char>,
    timestamp: u64,
    attempt: u32,
)
    requires
        !suffix.contains('/'),
    ensures
        crate::paths::file_name_of(generated_path(input_path, suffix, timestamp, attempt)) == Some(
            generated_name(input_path, suffix, timestamp, attempt),
        ),
{
    let stem = match stem_of(input_path) {
        Some(s) => s,
        None => "image"@,
    };
    let ext = match extension_of(input_path) {
        Some(e) => e,
        None => "jpg"@,
    };
    let counter = if attempt == 0 {
        Seq::<char>::empty()
    } else {
        "_"@ + decimal(attempt as nat)
    };
    let name = generated_name(input_path, suffix, timestamp, attempt);
    reveal_strlit("image");
    reveal_strlit("jpg");
    reveal_strlit("_");
    reveal_strlit(".");
    crate::paths::lemma_stem_and_extension(input_path);
    crate::text::lemma_decimal_has_no_separator(timestamp as nat);
    crate::text::lemma_decimal_has_no_separator(attempt as nat);
    assert(!"image"@.contains('/')) by {
        assert forall|i: int| 0 <= i < "image"@.len() implies "image"@[i] != '/' by {}
    }
    assert(!"jpg"@.contains('/')) by {
        assert forall|i: int| 0 <= i < "jpg"@.len() implies "jpg"@[i] != '/' by {}
    }
    assert(!"_"@.contains('/')) by {
        assert forall|i: int| 0 <= i < "_"@.len() implies "_"@[i] != '/' by {}
    }
    assert(!"."@.contains('/')) by {
        assert forall|i: int| 0 <= i < "."@.len() implies "."@[i] != '/' by {}
    }
    assert(!counter.contains('/')) by {
        if attempt != 0 {
            crate::text::lemma_concat_lacks("_"@, decimal(attempt as nat), '/');
        }
    }
    let a = stem + "_"@;
    let b = a + suffix;
    let c = b + "_"@;
    let d = c + decimal(timestamp as nat);
    let e = d + counter;
    let f = e + "."@;
    crate::text::lemma_concat_lacks(stem, "_"@, '/');
    crate::text::lemma_concat_lacks(a, suffix, '/');
    crate::text::lemma_concat_lacks(b, "_"@, '/');
    crate::text::lemma_concat_lacks(c, decimal(timestamp as nat), '/');
    crate::text::lemma_concat_lacks(d, counter, '/');
    crate::text::lemma_concat_lacks(e, "."@, '/');
    crate::text::lemma_concat_lacks(f, ext, '/');
    assert(name == f + ext);
    assert(stem.len() > 0);
    assert(name[stem.len() as int] == '_');
    assert(name.len() > stem.len());
    assert(name[0] == stem[0]);
    assert(name != seq!['.']);
    assert(name != seq!['.', '.']) by {
        if name == seq!['.', '.'] {
            assert(stem.len() == 1);
            assert(seq!['.', '.'][1] == '.');
        }
    }
    crate::paths::lemma_replaced_name(input_path, name);
}

/// A separator at the end of an input path that has a file name changes
/// nothing of the generated path: the result lies beside the input, under
/// the input's own stem and extension.
pub proof fn lemma_generated_path_ignores_trailing_separator(
    input_path: Seq<char>,
    suffix: Seq<char>,
    timestamp: u64,
    attempt: u32,
)
    requires
        crate::paths::file_name_of(input_path) is Some,
    ensures
        generated_path(input_path.push('/'), suffix, timestamp, attempt) == generated_path(
            input_path,
            suffix,
            timestamp,
            attempt,
        ),
{
    crate::paths::lemma_trailing_separator(input_path);
    crate::paths::lemma_replace_ignores_trailing_separator(
        input_path,
        generated_name(input_path, suffix, timestamp, attempt),
    );
}

/// The path at which a result is stored.
///
/// An `output` that the user gave is taken as it is. Otherwise the name is
/// made from the input's name, the suffix, and the time in seconds that the
/// caller read from the clock. The caller asks again with the next `attempt`
/// as long as the path it got is already taken.
pub fn generate_output_path(
    input_path: &str,
    output: Option<&str>,
    suffix: &str,
    timestamp: u64,
    attempt: u32,
) -> (r: String)
    ensures
        r@ == match output {
            Some(path) => path@,
            None => generated_path(input_path@, suffix@, timestamp, attempt),
        },
{
    match output {
        Some(path) => String::from_str(path),
        None => {
            let mut name = match stem(input_path) {
                Some(s) => s,
                None => String::from_str("image"),
            };
            push_text(&mut name, "_");
            push_text(&mut name, suffix);
            push_text(&mut name, "_");
            push_decimal(&mut name, timestamp);
            if attempt > 0 {
                push_text(&mut name, "_");
                push_decimal(&mut name, attempt as u64);
            }
            push_text(&mut name, ".");
            match extension(input_path) {
                Some(e) => push_text(&mut name, e.as_str()),
                None => push_text(&mut name, "jpg"),
            }
            assert(name@ =~= generated_name(input_path@, suffix@, timestamp, attempt));
            with_file_name(input_path, name.as_str())
        },
    }
}

/// The name of a container, or `Unknown` for none.
pub open spec fn format_name(format: Option<ContainerFormat>) -> Seq<char> {
    match format {
        Some(ContainerFormat::Jpeg) => "Jpeg"@,
        Some(ContainerFormat::Png) => "Png"@,
        Some(ContainerFormat::Gif) => "Gif"@,
        Some(ContainerFormat::Bmp) => "Bmp"@,
        Some(ContainerFormat::WebP) => "WebP"@,
        Some(ContainerFormat::Tiff) => "Tiff"@,
        None => "Unknown"@,
    }
}

/// Computes [`format_name`].
pub fn name_of_format(format: Option<ContainerFormat>) -> (name: String)
    ensures
        name@ == format_name(format),
{
    String::from_str(
        match format {
            Some(ContainerFormat::Jpeg) => "Jpeg",
            Some(ContainerFormat::Png) => "Png",
            Some(ContainerFormat::Gif) => "Gif",
            Some(ContainerFormat::Bmp) => "Bmp",
            Some(ContainerFormat::WebP) => "WebP",
            Some(ContainerFormat::Tiff) => "Tiff",
            None => "Unknown",
        },
    )
}

/// Reads the width, the height and the name of the container of an image
/// from the contents of its file, without decoding the pixels. Where the
/// codec cannot read the dimensions the failure is of class `Image` and
/// carries the codec's words.
pub fn get_image_info(data: &[u8]) -> (r: Result<(u32, u32, String), ImageToolError>)
    ensures
        match probed_dimensions(data@) {
            Ok(size) => r is Ok && r->Ok_0.0 == size.0 && r->Ok_0.1 == size.1 && r->Ok_0.2@
                == format_name(sniffed_format(data@)),
            Err(e) => r is Err && r->Err_0.reports(Failure::image(image_error_text(e))),
        },
{
    match probe_dimensions(data) {
        Ok((width, height)) => Ok((width, height, name_of_format(sniff_format(data)))),
        Err(e) => Err(ImageToolError::Image(describe_image_error(&e))),
    }
}

} // verus!
