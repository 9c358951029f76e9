//! Decoded images, and the codec that produces, resamples and encodes them.
//!
//! The pixels stay inside the `image` crate's own buffer. What the pipeline
//! reads of a raster (its size and the layout of a pixel) is held beside it
//! as plain values. Everything in this file that calls the codec is believed,
//! not proved; the rest of the library is proved against what is stated here.

use vstd::prelude::*;
use crate::config::ResizeAlgorithm;

verus! {

#[verifier::external_type_specification]
#[verifier::external_body]
pub struct ExDynamicImage(image::DynamicImage);

#[verifier::external_type_specification]
#[verifier::external_body]
pub struct ExImageError(image::ImageError);

#[verifier::external_type_specification]
#[verifier::external_body]
pub struct ExImageFormat(image::ImageFormat);

/// How one pixel is laid out.
#[derive(Clone, Copy, Debug, PartialEq, Eq, Structural)]
pub struct ColorModel {
    /// Number of channels of a pixel.
    pub channels: u8,
    /// Number of bytes that a pixel takes.
    pub bytes_per_pixel: u8,
}

/// A container that a raster can be written in.
#[derive(Clone, Copy, Debug, PartialEq, Eq, Structural)]
pub enum ContainerFormat {
    /// JPEG, lossy.
    Jpeg,
    /// PNG, lossless.
    Png,
    /// GIF, lossless on at most 256 colours.
    Gif,
    /// BMP, lossless.
    Bmp,
    /// WebP, written lossless.
    WebP,
    /// TIFF, lossless.
    Tiff,
}

/// How hard the PNG encoder tries to make the file small.
#[derive(Clone, Copy, Debug, PartialEq, Eq, Structural)]
pub enum PngCompression {
    /// Quick, with little compression.
    Fast,
    /// The smallest file the encoder can make.
    Best,
}

/// A decoded image: a grid of pixels with its width, height and pixel layout.
#[derive(Debug)]
pub struct Raster {
    width: u32,
    height: u32,
    color: ColorModel,
    pixels: image::DynamicImage,
}

/// The number of bytes that a pixel buffer holds: the length of what
/// `image::DynamicImage::as_bytes` returns.
pub uninterp spec fn buffer_len(pixels: image::DynamicImage) -> nat;

/// The container that `image::guess_format` recognises by the magic bytes
/// at the start of the data, or its error where it recognises none.
pub uninterp spec fn guessed_format(data: Seq<u8>) -> Result<image::ImageFormat, image::ImageError>;

/// What `image::load_from_memory_with_format` makes of the given bytes, read
/// as the given container.
pub uninterp spec fn decoded_as(data: Seq<u8>, format: image::ImageFormat) -> Result<
    Raster,
    image::ImageError,
>;

/// The container of the library that a container of the codec stands for,
/// if it is one of [`ContainerFormat`].
pub uninterp spec fn container_of_format(format: image::ImageFormat) -> Option<ContainerFormat>;

/// The width and height that `image::ImageReader::into_dimensions` reads
/// from the header of the bytes, read as the given container.
pub uninterp spec fn probed_as(data: Seq<u8>, format: image::ImageFormat) -> Result<
    (u32, u32),
    image::ImageError,
>;

/// What decoding the bytes gives: the container is recognised by the magic
/// bytes, and the data is decoded as that container. Either step may fail
/// with the codec's error.
pub open spec fn decoded(data: Seq<u8>) -> Result<Raster, image::ImageError> {
    match guessed_format(data) {
        Ok(format) => decoded_as(data, format),
        Err(e) => Err(e),
    }
}

/// The container recognised at the start of the bytes, if it is one of
/// [`ContainerFormat`].
pub open spec fn sniffed_format(data: Seq<u8>) -> Option<ContainerFormat> {
    match guessed_format(data) {
        Ok(format) => container_of_format(format),
        Err(_) => None,
    }
}

/// The width and height read from the header of the bytes, the container
/// being recognised by the magic bytes.
pub open spec fn probed_dimensions(data: Seq<u8>) -> Result<(u32, u32), image::ImageError> {
    match guessed_format(data) {
        Ok(format) => probed_as(data, format),
        Err(e) => Err(e),
    }
}

/// What `image::DynamicImage::resize_exact` makes of a raster.
pub uninterp spec fn resampled(
    source: Raster,
    width: u32,
    height: u32,
    algorithm: ResizeAlgorithm,
) -> Raster;

/// The file that `image::DynamicImage::write_to` writes for a raster in a
/// container, at the encoder's default settings.
pub uninterp spec fn encoded(raster: Raster, format: ContainerFormat) -> Result<
    Seq<u8>,
    image::ImageError,
>;

/// The JPEG file that `image::codecs::jpeg::JpegEncoder` writes for a raster
/// at a quality.
pub uninterp spec fn jpeg_encoded(raster: Raster, quality: u8) -> Result<
    Seq<u8>,
    image::ImageError,
>;

/// The PNG file that `image::codecs::png::PngEncoder` writes for a raster at
/// a compression level.
pub uninterp spec fn png_encoded(raster: Raster, compression: PngCompression) -> Result<
    Seq<u8>,
    image::ImageError,
>;

/// The text that an error of the codec displays, by its `Display`.
pub uninterp spec fn image_error_text(error: image::ImageError) -> Seq<char>;

impl Raster {
    /// Width in pixels.
    pub closed spec fn spec_width(&self) -> u32 {
        self.width
    }

    /// Height in pixels.
    pub closed spec fn spec_height(&self) -> u32 {
        self.height
    }

    /// Layout of a pixel.
    pub closed spec fn spec_color(&self) -> ColorModel {
        self.color
    }

    /// The number of bytes that the pixels take.
    pub closed spec fn spec_byte_len(&self) -> nat {
        buffer_len(self.pixels)
    }

    /// The buffer holds exactly one pixel for each place of the grid. Every
    /// raster that the library hands out is well formed.
    pub open spec fn wf(&self) -> bool {
        self.spec_byte_len() == self.spec_width() * self.spec_height()
            * self.spec_color().bytes_per_pixel
    }

    /// Width in pixels.
    #[verifier::when_used_as_spec(spec_width)]
    pub fn width(&self) -> (w: u32)
        ensures
            w == self.spec_width(),
    {
        self.width
    }

    /// Height in pixels.
    #[verifier::when_used_as_spec(spec_height)]
    pub fn height(&self) -> (h: u32)
        ensures
            h == self.spec_height(),
    {
        self.height
    }

    /// Layout of a pixel.
    #[verifier::when_used_as_spec(spec_color)]
    pub fn color(&self) -> (c: ColorModel)
        ensures
            c == self.spec_color(),
    {
        self.color
    }

    /// A copy of the pixel bytes, row by row. Within a sample the bytes are
    /// in the order of the machine, so that only their number is stated.
    pub fn samples(&self) -> (bytes: Vec<u8>)
        ensures
            bytes@.len() == self.spec_byte_len(),
    {
        copy_pixel_bytes(&self.pixels)
    }

    /// A copy of the raster.
    pub fn duplicate(&self) -> (copy: Raster)
        ensures
            copy == *self,
    {
        Raster {
            width: self.width,
            height: self.height,
            color: self.color,
            pixels: clone_pixels(&self.pixels),
        }
    }
}

/// Copies a pixel buffer with the `Clone` of `image::DynamicImage`, which
/// clones the buffer of whichever pixel type the image holds.
#[verifier::external_body]
fn clone_pixels(pixels: &image::DynamicImage) -> (copy: image::DynamicImage)
    ensures
        copy == *pixels,
{
    pixels.clone()
}

/// Copies the buffer out with `image::DynamicImage::as_bytes`, which returns
/// the whole buffer of the image as a byte slice in the machine's byte order.
#[verifier::external_body]
fn copy_pixel_bytes(pixels: &image::DynamicImage) -> (bytes: Vec<u8>)
    ensures
        bytes@.len() == buffer_len(*pixels),
{
    pixels.as_bytes().to_vec()
}

/// Recognises the container with `image::guess_format`, which goes by the
/// magic bytes at the start of the data and by nothing else, and returns its
/// error where it knows none of them.
#[verifier::external_body]
pub(crate) fn guess_format(data: &[u8]) -> (r: Result<image::ImageFormat, image::ImageError>)
    ensures
        r == guessed_format(data@),
{
    image::guess_format(data)
}

/// Decodes with `image::load_from_memory_with_format`, which decodes the
/// whole image with the built-in decoder of the given container, or returns
/// the codec's error. A decoded buffer holds exactly `width * height` pixels
/// of the decoder's colour type. Width, height and pixel layout are read
/// from the decoded image.
#[verifier::external_body]
pub(crate) fn decode_as(data: &[u8], format: image::ImageFormat) -> (r: Result<
    Raster,
    image::ImageError,
>)
    ensures
        r == decoded_as(data@, format),
        r is Ok ==> r->Ok_0.wf(),
{
    let pixels = image::load_from_memory_with_format(data, format)?;
    let kind = pixels.color();
    let color = ColorModel {
        channels: kind.channel_count(),
        bytes_per_pixel: kind.bytes_per_pixel(),
    };
    Ok(Raster { width: pixels.width(), height: pixels.height(), color, pixels })
}

/// Decodes an image held in memory: the container is recognised by the
/// magic bytes, and the data is decoded as that container.
pub(crate) fn decode_image(data: &[u8]) -> (r: Result<Raster, image::ImageError>)
    ensures
        r == decoded(data@),
        r is Ok ==> r->Ok_0.wf(),
{
    match guess_format(data) {
        Ok(format) => decode_as(data, format),
        Err(e) => Err(e),
    }
}

/// Resamples with `image::DynamicImage::resize_exact`, whose result has the
/// width and height asked for and the pixel type of the source. The filters
/// are `Nearest`, `Triangle`, `CatmullRom` and `Lanczos3`. The sizes asked of
/// the caller keep the buffers that the codec allocates within what a vector
/// can hold, 16 bytes being the largest pixel.
#[verifier::external_body]
pub(crate) fn resample_image(
    source: &Raster,
    width: u32,
    height: u32,
    algorithm: ResizeAlgorithm,
) -> (out: Raster)
    requires
        source.wf(),
        width >= 1,
        height >= 1,
        source.spec_width() * height * 16 <= isize::MAX,
        width * height * 16 <= isize::MAX,
    ensures
        out == resampled(*source, width, height, algorithm),
        out.wf(),
        out.spec_width() == width,
        out.spec_height() == height,
        out.spec_color() == source.spec_color(),
{
    let filter = match algorithm {
        ResizeAlgorithm::Nearest => image::imageops::FilterType::Nearest,
        ResizeAlgorithm::Bilinear => image::imageops::FilterType::Triangle,
        ResizeAlgorithm::Bicubic => image::imageops::FilterType::CatmullRom,
        ResizeAlgorithm::Lanczos3 => image::imageops::FilterType::Lanczos3,
    };
    let pixels = source.pixels.resize_exact(width, height, filter);
    Raster { width: pixels.width(), height: pixels.height(), color: source.color, pixels }
}

/// Encodes with `image::DynamicImage::write_to` into memory, at the
/// encoder's default settings. The codec converts the pixels to a type that
/// the container can hold and returns its error where it cannot write the
/// image. It stops the program on a buffer that does not match the
/// dimensions, which a well-formed raster rules out.
#[verifier::external_body]
pub(crate) fn encode_image(
    raster: &Raster,
    format: ContainerFormat,
) -> (r: Result<Vec<u8>, image::ImageError>)
    requires
        raster.wf(),
    ensures
        r is Ok <==> encoded(*raster, format) is Ok,
        r is Ok ==> r->Ok_0@ == encoded(*raster, format)->Ok_0,
        r is Err ==> r->Err_0 == encoded(*raster, format)->Err_0,
{
    let target = match format {
        ContainerFormat::Jpeg => image::ImageFormat::Jpeg,
        ContainerFormat::Png => image::ImageFormat::Png,
        ContainerFormat::Gif => image::ImageFormat::Gif,
        ContainerFormat::Bmp => image::ImageFormat::Bmp,
        ContainerFormat::WebP => image::ImageFormat::WebP,
        ContainerFormat::Tiff => image::ImageFormat::Tiff,
    };
    let mut out = Vec::new();
    raster.pixels.write_to(&mut std::io::Cursor::new(&mut out), target)?;
    Ok(out)
}

/// Encodes with `image::codecs::jpeg::JpegEncoder::new_with_quality`, which
/// takes a quality from 1 (worst) to 100 (best), and
/// `image::DynamicImage::write_with_encoder`.
#[verifier::external_body]
pub(crate) fn encode_jpeg(raster: &Raster, quality: u8) -> (r: Result<Vec<u8>, image::ImageError>)
    requires
        raster.wf(),
        1 <= quality <= 100,
    ensures
        r is Ok <==> jpeg_encoded(*raster, quality) is Ok,
        r is Ok ==> r->Ok_0@ == jpeg_encoded(*raster, quality)->Ok_0,
        r is Err ==> r->Err_0 == jpeg_encoded(*raster, quality)->Err_0,
{
    let mut out = Vec::new();
    let encoder = image::codecs::jpeg::JpegEncoder::new_with_quality(&mut out, quality);
    raster.pixels.write_with_encoder(encoder)?;
    Ok(out)
}

/// Encodes with `image::codecs::png::PngEncoder::new_with_quality`, at the
/// compression level asked for and the encoder's default filter, and
/// `image::DynamicImage::write_with_encoder`.
#[verifier::external_body]
pub(crate) fn encode_png(
    raster: &Raster,
    compression: PngCompression,
) -> (r: Result<Vec<u8>, image::ImageError>)
    requires
        raster.wf(),
    ensures
        r is Ok <==> png_encoded(*raster, compression) is Ok,
        r is Ok ==> r->Ok_0@ == png_encoded(*raster, compression)->Ok_0,
        r is Err ==> r->Err_0 == png_encoded(*raster, compression)->Err_0,
{
    let level = match compression {
        PngCompression::Fast => image::codecs::png::CompressionType::Fast,
        PngCompression::Best => image::codecs::png::CompressionType::Best,
    };
    let mut out = Vec::new();
    let filter = image::codecs::png::FilterType::default();
    let encoder = image::codecs::png::PngEncoder::new_with_quality(&mut out, level, filter);
    raster.pixels.write_with_encoder(encoder)?;
    Ok(out)
}

/// The text of a codec error, by its `Display`.
#[verifier::external_body]
pub(crate) fn describe_image_error(error: &image::ImageError) -> (text: String)
    ensures
        text@ == image_error_text(*error),
{
    error.to_string()
}

/// Tells the containers of the codec apart: the six of [`ContainerFormat`]
/// each stand for their own, every other container for none.
#[verifier::external_body]
pub(crate) fn container_of(format: image::ImageFormat) -> (r: Option<ContainerFormat>)
    ensures
        r == container_of_format(format),
{
    match format {
        image::ImageFormat::Jpeg => Some(ContainerFormat::Jpeg),
        image::ImageFormat::Png => Some(ContainerFormat::Png),
        image::ImageFormat::Gif => Some(ContainerFormat::Gif),
        image::ImageFormat::Bmp => Some(ContainerFormat::Bmp),
        image::ImageFormat::WebP => Some(ContainerFormat::WebP),
        image::ImageFormat::Tiff => Some(ContainerFormat::Tiff),
        _ => None,
    }
}

/// The container recognised at the start of the bytes, if it is one of
/// [`ContainerFormat`]. Other containers and unknown data give `None`.
pub(crate) fn sniff_format(data: &[u8]) -> (r: Option<ContainerFormat>)
    ensures
        r == sniffed_format(data@),
{
    match guess_format(data) {
        Ok(format) => container_of(format),
        Err(_) => None,
    }
}

/// Reads the dimensions with `image::ImageReader::with_format` and
/// `into_dimensions`, which reads the header with the built-in decoder of the
/// given container and does not decode the pixels.
#[verifier::external_body]
pub(crate) fn probe_as(data: &[u8], format: image::ImageFormat) -> (r: Result<
    (u32, u32),
    image::ImageError,
>)
    ensures
        r == probed_as(data@, format),
{
    image::ImageReader::with_format(std::io::Cursor::new(data), format).into_dimensions()
}

/// Reads the width and height of an image from its header, the container
/// being recognised by the magic bytes.
pub(crate) fn probe_dimensions(data: &[u8]) -> (r: Result<(u32, u32), image::ImageError>)
    ensures
        r == probed_dimensions(data@),
{
    match guess_format(data) {
        Ok(format) => probe_as(data, format),
        Err(e) => Err(e),
    }
}

} // verus!
