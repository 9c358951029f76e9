//! Reading and removing the metadata that travels with an image.
//!
//! Reading is done by the `exif` crate on the bytes of the file. A decoded
//! raster holds pixels and nothing else, so there is nothing to remove from
//! it; removal works on the bytes of the file, before they are decoded.

use vstd::prelude::*;
use crate::error::{Failure, ImageToolError};
use crate::container::{carries_exif, strip_exif, stripped};
use crate::raster::{sniff_format, sniffed_format, ContainerFormat, Raster};
use crate::text::{concat, decimal, push_decimal, push_text, same_text};

verus! {

#[verifier::external_type_specification]
#[verifier::external_body]
pub struct ExExifError(exif::Error);

/// One Exif field, as text.
#[derive(Clone, Debug)]
pub struct MetadataField {
    /// The name of the tag, such as `Make`.
    pub tag: String,
    /// The number of the image file directory that holds the field: 0 for
    /// the primary image, 1 for the thumbnail.
    pub ifd: u16,
    /// The value, for a reader.
    pub value: String,
    /// The value followed by its unit, if the tag has one.
    pub value_with_unit: String,
}

/// The metadata found in one file.
#[derive(Clone, Debug)]
pub struct MetadataBlock {
    /// The fields, in the order in which the file holds them.
    pub fields: Vec<MetadataField>,
}

/// Reads and removes metadata. It holds no state.
#[derive(Clone, Copy, Debug)]
pub struct MetadataStripper;

/// What `exif::Reader::read_from_container` finds in the bytes of a file.
pub uninterp spec fn exif_fields(data: Seq<u8>) -> Result<Seq<MetadataField>, exif::Error>;

/// Whether an error of the Exif reader is `exif::Error::NotFound`, which says
/// that the file holds no Exif data.
pub uninterp spec fn exif_is_absent(error: exif::Error) -> bool;

/// The text that an error of the Exif reader displays, by its `Display`.
pub uninterp spec fn exif_error_text(error: exif::Error) -> Seq<char>;

/// Reads with `exif::Reader::read_from_container`, which finds the Exif data
/// in a TIFF, JPEG, HEIF, PNG or WebP file and parses its fields. Each field
/// is handed on as text: the tag by its `Display`, the directory by
/// `In::index`, the value by `Field::display_value`, alone and `with_unit`.
#[verifier::external_body]
fn read_exif_fields(data: &[u8]) -> (r: Result<Vec<MetadataField>, exif::Error>)
    ensures
        r is Ok <==> exif_fields(data@) is Ok,
        r is Ok ==> r->Ok_0@ == exif_fields(data@)->Ok_0,
        r is Err ==> r->Err_0 == exif_fields(data@)->Err_0,
{
    let found = exif::Reader::new().read_from_container(&mut std::io::Cursor::new(data))?;
    let fields = found.fields().map(
        |f| MetadataField {
            tag: f.tag.to_string(),
            ifd: f.ifd_num.index(),
            value: f.display_value().to_string(),
            value_with_unit: f.display_value().with_unit(&found).to_string(),
        },
    );
    Ok(fields.collect())
}

/// Tells the variant `exif::Error::NotFound` from the others.
#[verifier::external_body]
fn is_absence(error: &exif::Error) -> (r: bool)
    ensures
        r == exif_is_absent(*error),
{
    matches!(error, exif::Error::NotFound(_))
}

/// The text of an error of the Exif reader, by its `Display`.
#[verifier::external_body]
fn describe_exif_error(error: &exif::Error) -> (text: String)
    ensures
        text@ == exif_error_text(*error),
{
    error.to_string()
}

/// Whether a container has no place for Exif data: GIF and BMP have none.
pub open spec fn holds_no_exif(format: Option<ContainerFormat>) -> bool {
    format == Some(ContainerFormat::Gif) || format == Some(ContainerFormat::Bmp)
}

/// What [`MetadataStripper::read_metadata`] gives: the fields; nothing
/// where the file holds no Exif data, be it that its container has no place
/// for any or that the reader finds none; a failure of class `Processing`
/// where the container or the data is malformed.
pub open spec fn metadata_outcome(data: Seq<u8>) -> Result<Option<Seq<MetadataField>>, Failure> {
    if holds_no_exif(sniffed_format(data)) {
        Ok(None)
    } else {
        match exif_fields(data) {
            Ok(fields) => Ok(Some(fields)),
            Err(e) => if exif_is_absent(e) {
                Ok(None)
            } else {
                Err(Failure::processing("EXIF read error: "@ + exif_error_text(e)))
            },
        }
    }
}

/// The name of an image file directory: `primary`, `thumbnail`, or `IFD`
/// and its number.
pub open spec fn ifd_name(ifd: u16) -> Seq<char> {
    if ifd == 0 {
        "primary"@
    } else if ifd == 1 {
        "thumbnail"@
    } else {
        "IFD"@ + decimal(ifd as nat)
    }
}

/// The words under which a well-known tag is shown a second time, or `None`
/// for the other tags.
pub open spec fn common_label(tag: Seq<char>) -> Option<Seq<char>> {
    if tag == "ImageDescription"@ {
        Some("  Description: "@)
    } else if tag == "Make"@ {
        Some("  Camera Make: "@)
    } else if tag == "Model"@ {
        Some("  Camera Model: "@)
    } else if tag == "DateTime"@ {
        Some("  Date Time: "@)
    } else if tag == "ExposureTime"@ {
        Some("  Exposure: "@)
    } else if tag == "FNumber"@ {
        Some("  Aperture: f/"@)
    } else if tag == "FocalLength"@ {
        Some("  Focal Length: "@)
    } else if tag == "PhotographicSensitivity"@ {
        Some("  ISO: "@)
    } else {
        None
    }
}

/// The lines that show one field: tag, directory and value with its unit;
/// for a well-known tag, a second line with its label and the bare value.
pub open spec fn field_lines(field: MetadataField) -> Seq<Seq<char>> {
    let first = field.tag@ + " "@ + ifd_name(field.ifd) + ": "@ + field.value_with_unit@;
    match common_label(field.tag@) {
        Some(label) => seq![first, label + field.value@],
        None => seq![first],
    }
}

/// The lines that show the first `n` fields, one field after the other.
pub open spec fn lines_of(fields: Seq<MetadataField>, n: int) -> Seq<Seq<char>>
    decreases n,
{
    if n <= 0 {
        Seq::empty()
    } else {
        lines_of(fields, n - 1) + field_lines(fields[n - 1])
    }
}

/// The lines that show a block of metadata: a heading, then the fields.
pub open spec fn metadata_lines(fields: Seq<MetadataField>) -> Seq<Seq<char>> {
    seq!["--- EXIF Metadata ---"@] + lines_of(fields, fields.len() as int)
}

/// The texts of a list of strings.
pub open spec fn texts(lines: Seq<String>) -> Seq<Seq<char>> {
    lines.map_values(|s: String| s@)
}

/// Computes [`common_label`].
fn label_of(tag: &str) -> (r: Option<&'static str>)
    ensures
        match r {
            Some(label) => common_label(tag@) == Some(label@),
            None => common_label(tag@) is None,
        },
{
    if same_text(tag, "ImageDescription") {
        Some("  Description: ")
    } else if same_text(tag, "Make") {
        Some("  Camera Make: ")
    } else if same_text(tag, "Model") {
        Some("  Camera Model: ")
    } else if same_text(tag, "DateTime") {
        Some("  Date Time: ")
    } else if same_text(tag, "ExposureTime") {
        Some("  Exposure: ")
    } else if same_text(tag, "FNumber") {
        Some("  Aperture: f/")
    } else if same_text(tag, "FocalLength") {
        Some("  Focal Length: ")
    } else if same_text(tag, "PhotographicSensitivity") {
        Some("  ISO: ")
    } else {
        None
    }
}

/// Appends the lines of one field.
fn push_field_lines(lines: &mut Vec<String>, field: &MetadataField)
    ensures
        texts(final(lines)@) == texts(old(lines)@) + field_lines(*field),
{
    let mut first = field.tag.clone();
    push_text(&mut first, " ");
    if field.ifd == 0 {
        push_text(&mut first, "primary");
    } else if field.ifd == 1 {
        push_text(&mut first, "thumbnail");
    } else {
        push_text(&mut first, "IFD");
        push_decimal(&mut first, field.ifd as u64);
    }
    push_text(&mut first, ": ");
    push_text(&mut first, field.value_with_unit.as_str());
    assert(first@ =~= field.tag@ + " "@ + ifd_name(field.ifd) + ": "@ + field.value_with_unit@);
    let ghost before = lines@;
    lines.push(first);
    match label_of(field.tag.as_str()) {
        Some(label) => {
            let second = concat(label, field.value.as_str());
            lines.push(second);
            assert(texts(lines@) =~= texts(before) + seq![first@, second@]);
        },
        None => {
            assert(texts(lines@) =~= texts(before) + seq![first@]);
        },
    }
}

impl MetadataStripper {
    /// A stripper.
    pub fn new() -> (stripper: MetadataStripper) {
        MetadataStripper
    }

    /// Removes the metadata of a decoded raster. A raster holds pixels and
    /// nothing else: what the file carried beside them was left behind when
    /// it was decoded, and no encoder writes any. The raster is left as it is.
    pub fn strip_metadata(&self, raster: &mut Raster) -> (r: Result<(), ImageToolError>)
        ensures
            r is Ok,
            *final(raster) == *old(raster),
    {
        Ok(())
    }

    /// Reads the Exif fields from the contents of a file. Reading changes
    /// nothing. A file without Exif data gives `None`, not a failure: a GIF
    /// or BMP file, which has no place for any, and a file of another kind
    /// in which the reader finds none.
    pub fn read_metadata(&self, data: &[u8]) -> (r: Result<Option<MetadataBlock>, ImageToolError>)
        ensures
            match metadata_outcome(data@) {
                Ok(Some(fields)) => r is Ok && r->Ok_0 is Some && r->Ok_0->Some_0.fields@
                    == fields,
                Ok(None) => r is Ok && r->Ok_0 is None,
                Err(failure) => r is Err && r->Err_0.reports(failure),
            },
    {
        match sniff_format(data) {
            Some(ContainerFormat::Gif) => {
                return Ok(None);
            },
            Some(ContainerFormat::Bmp) => {
                return Ok(None);
            },
            _ => {},
        }
        match read_exif_fields(data) {
            Ok(fields) => Ok(Some(MetadataBlock { fields })),
            Err(e) => {
                if is_absence(&e) {
                    Ok(None)
                } else {
                    let words = describe_exif_error(&e);
                    Err(ImageToolError::processing(concat("EXIF read error: ", words.as_str())))
                }
            },
        }
    }

    /// The lines that show a block of metadata to the user.
    pub fn print_metadata(&self, block: &MetadataBlock) -> (lines: Vec<String>)
        ensures
            texts(lines@) == metadata_lines(block.fields@),
    {
        let mut lines: Vec<String> = Vec::new();
        lines.push(String::from_str("--- EXIF Metadata ---"));
        assert(texts(lines@) =~= seq!["--- EXIF Metadata ---"@]);
        let mut i: usize = 0;
        while i < block.fields.len()
            invariant
                i <= block.fields.len(),
                texts(lines@) == seq!["--- EXIF Metadata ---"@] + lines_of(block.fields@, i as int),
            decreases block.fields.len() - i,
        {
            push_field_lines(&mut lines, &block.fields[i]);
            assert(seq!["--- EXIF Metadata ---"@] + lines_of(block.fields@, i + 1) =~= (
            seq!["--- EXIF Metadata ---"@] + lines_of(block.fields@, i as int)) + field_lines(
                block.fields@[i as int],
            ));
            i = i + 1;
        }
        lines
    }

    /// Removes the Exif data from the contents of a JPEG or PNG file, so
    /// that nothing of it reaches the decoder. Every other byte is kept; data
    /// that is neither a JPEG nor a PNG file is returned as it is.
    pub fn strip_metadata_from_bytes(&self, data: &[u8]) -> (r: Result<Vec<u8>, ImageToolError>)
        ensures
            r is Ok,
            r->Ok_0@ == stripped(data@),
            r->Ok_0@.len() <= data@.len(),
            !carries_exif(r->Ok_0@),
    {
        Ok(strip_exif(data))
    }

    /// Whether the contents of a file hold Exif data that can be read. A
    /// file that the reader cannot make sense of counts as holding none.
    pub fn has_metadata(&self, data: &[u8]) -> (r: bool)
        ensures
            r == (metadata_outcome(data@) matches Ok(Some(_))),
    {
        match self.read_metadata(data) {
            Ok(Some(_)) => true,
            _ => false,
        }
    }
}

} // verus!
