use image_tool::compressor::{detect_format, keep_smaller, resolve_format, ImageCompressor};
use image_tool::config::{EncodeFlags, OutputFormat, ResizeAlgorithm};
use image_tool::error::ErrorKind;
use image_tool::geometry::ResizeMode;
use image_tool::loader::ImageLoader;
use image_tool::raster::{ContainerFormat, Raster};
use image_tool::resizer::ImageResizer;
use image_tool::scale::ScaleFactor;

fn pattern(width: u32, height: u32) -> image::RgbaImage {
    image::RgbaImage::from_fn(width, height, |x, y| {
        image::Rgba([(x * 37 % 256) as u8, (y * 91 % 256) as u8, ((x ^ y) * 13 % 256) as u8, 255])
    })
}

fn png_of(picture: image::DynamicImage) -> Vec<u8> {
    let mut bytes = Vec::new();
    picture
        .write_to(&mut std::io::Cursor::new(&mut bytes), image::ImageFormat::Png)
        .expect("png written");
    bytes
}

fn load(width: u32, height: u32) -> Raster {
    let bytes = png_of(image::DynamicImage::ImageRgba8(pattern(width, height)));
    ImageLoader::new().load_from_bytes(&bytes).expect("decodes")
}

#[test]
fn loader_decodes_png_from_memory() {
    let picture = pattern(4, 3);
    let raster = ImageLoader::new()
        .load_from_bytes(&png_of(image::DynamicImage::ImageRgba8(picture.clone())))
        .unwrap();
    assert_eq!((raster.width(), raster.height()), (4, 3));
    assert_eq!(raster.color().channels, 4);
    assert_eq!(raster.color().bytes_per_pixel, 4);
    assert_eq!(raster.samples(), picture.into_raw());
}

#[test]
fn loader_keeps_the_pixel_layout_of_the_source() {
    let gray = image::DynamicImage::ImageLuma8(image::GrayImage::from_fn(5, 2, |x, y| {
        image::Luma([(x * 40 + y) as u8])
    }));
    let raster = ImageLoader::new().load_from_bytes(&png_of(gray)).unwrap();
    assert_eq!((raster.width(), raster.height()), (5, 2));
    assert_eq!((raster.color().channels, raster.color().bytes_per_pixel), (1, 1));
    assert_eq!(raster.samples().len(), 10);
    let deep = image::DynamicImage::ImageRgb16(image::ImageBuffer::new(3, 3));
    let raster = ImageLoader::new().load_from_bytes(&png_of(deep)).unwrap();
    assert_eq!((raster.color().channels, raster.color().bytes_per_pixel), (3, 6));
    assert_eq!(raster.samples().len(), 3 * 3 * 6);
}

#[test]
fn loader_reports_undecodable_bytes() {
    let error = ImageLoader::new().load_from_bytes(b"not an image at all").unwrap_err();
    assert_eq!(error.kind(), ErrorKind::Image);
    let message = error.message();
    let prefix = "Image error: Failed to decode image from bytes: ";
    assert!(message.starts_with(prefix), "{}", message);
    assert!(message.len() > prefix.len());
}

#[test]
fn loader_reports_truncated_image() {
    let mut bytes = png_of(image::DynamicImage::ImageRgba8(pattern(16, 16)));
    bytes.truncate(bytes.len() / 2);
    let error = ImageLoader::new().load("pic.png", Some(&bytes)).unwrap_err();
    assert_eq!(error.kind(), ErrorKind::Image);
    assert!(error.message().starts_with("Image error: Failed to decode image: "));
}

#[test]
fn loader_reports_missing_file() {
    let error = ImageLoader::new().load("gone/pic.png", None).unwrap_err();
    assert_eq!(error.kind(), ErrorKind::InvalidParameter);
    assert_eq!(error.message(), "Invalid parameter: File does not exist: gone/pic.png");
}

#[test]
fn loader_load_decodes_contents() {
    let bytes = png_of(image::DynamicImage::ImageRgba8(pattern(6, 2)));
    let raster = ImageLoader::new().load("pic.png", Some(&bytes)).unwrap();
    assert_eq!((raster.width(), raster.height()), (6, 2));
}

#[test]
fn duplicate_copies_the_raster() {
    let raster = load(5, 4);
    let copy = raster.duplicate();
    assert_eq!((copy.width(), copy.height()), (5, 4));
    assert_eq!(copy.color(), raster.color());
    assert_eq!(copy.samples(), raster.samples());
}

#[test]
fn resize_to_same_size_returns_the_same_pixels() {
    let raster = load(8, 6);
    let resizer = ImageResizer::new(ResizeAlgorithm::Lanczos3, true);
    let same = resizer.resize(&raster, ResizeMode::Absolute(8, 6)).unwrap();
    assert_eq!((same.width(), same.height()), (8, 6));
    assert_eq!(same.samples(), raster.samples());
    let one = ResizeMode::Scale(ScaleFactor::from_float_bits(1.0f32.to_bits()).unwrap().unwrap());
    let same = ImageResizer::new(ResizeAlgorithm::Nearest, false).resize(&raster, one).unwrap();
    assert_eq!((same.width(), same.height()), (8, 6));
    assert_eq!(same.samples(), raster.samples());
}

#[test]
fn resize_produces_the_computed_dimensions() {
    let raster = load(40, 30);
    for algorithm in [
        ResizeAlgorithm::Nearest,
        ResizeAlgorithm::Bilinear,
        ResizeAlgorithm::Bicubic,
        ResizeAlgorithm::Lanczos3,
    ] {
        let keep = ImageResizer::new(algorithm, true);
        let out = keep.resize(&raster, ResizeMode::Absolute(20, 0)).unwrap();
        assert_eq!((out.width(), out.height()), (20, 15));
        assert_eq!(out.color(), raster.color());
        assert_eq!(out.samples().len(), 20 * 15 * 4);
        let stretch = ImageResizer::new(algorithm, false);
        let out = stretch.resize(&raster, ResizeMode::Absolute(20, 5)).unwrap();
        assert_eq!((out.width(), out.height()), (20, 5));
        let half = ResizeMode::Scale(ScaleFactor::new(1, 2).unwrap());
        let out = stretch.resize(&raster, half).unwrap();
        assert_eq!((out.width(), out.height()), (20, 15));
        let double = ResizeMode::Scale(ScaleFactor::new(2, 1).unwrap());
        let out = keep.resize(&raster, double).unwrap();
        assert_eq!((out.width(), out.height()), (80, 60));
    }
}

#[test]
fn resize_with_nearest_keeps_a_flat_colour() {
    let flat = image::RgbaImage::from_pixel(6, 6, image::Rgba([10, 200, 30, 255]));
    let raster = ImageLoader::new()
        .load_from_bytes(&png_of(image::DynamicImage::ImageRgba8(flat)))
        .unwrap();
    let out = ImageResizer::new(ResizeAlgorithm::Nearest, false)
        .resize(&raster, ResizeMode::Absolute(3, 9))
        .unwrap();
    assert_eq!((out.width(), out.height()), (3, 9));
    for pixel in out.samples().chunks(4) {
        assert_eq!(pixel, [10, 200, 30, 255]);
    }
}

#[test]
fn resize_filters_differ_in_pixels_not_in_size() {
    let raster = load(31, 17);
    let mode = ResizeMode::Absolute(13, 7);
    let nearest = ImageResizer::new(ResizeAlgorithm::Nearest, false).resize(&raster, mode).unwrap();
    let lanczos = ImageResizer::new(ResizeAlgorithm::Lanczos3, false).resize(&raster, mode).unwrap();
    assert_eq!((nearest.width(), nearest.height()), (lanczos.width(), lanczos.height()));
    assert_ne!(nearest.samples(), lanczos.samples());
}

#[test]
fn resize_to_nothing_is_refused() {
    let raster = load(8, 6);
    let resizer = ImageResizer::new(ResizeAlgorithm::Bilinear, false);
    let error = resizer.resize(&raster, ResizeMode::Absolute(0, 6)).unwrap_err();
    assert_eq!(error.kind(), ErrorKind::InvalidParameter);
    let tiny = ResizeMode::Scale(ScaleFactor::new(1, 100).unwrap());
    assert!(resizer.resize(&raster, tiny).is_err());
}

#[test]
fn resize_beyond_memory_is_refused() {
    let raster = load(2, 2);
    let resizer = ImageResizer::new(ResizeAlgorithm::Nearest, false);
    let error = resizer
        .resize(&raster, ResizeMode::Absolute(4_294_967_295, 4_294_967_295))
        .unwrap_err();
    assert_eq!(error.kind(), ErrorKind::InvalidParameter);
    assert_eq!(
        error.message(),
        "Invalid parameter: Resize target is too large for this machine"
    );
}

#[test]
fn round_trip_keeps_dimensions_in_every_container() {
    let raster = load(23, 11);
    let compressor = ImageCompressor::new(80);
    for format in [
        ContainerFormat::Jpeg,
        ContainerFormat::Png,
        ContainerFormat::Gif,
        ContainerFormat::Bmp,
        ContainerFormat::WebP,
        ContainerFormat::Tiff,
    ] {
        let bytes = compressor.compress_to_bytes(&raster, format).unwrap();
        let back = ImageLoader::new().load_from_bytes(&bytes).unwrap();
        assert_eq!((back.width(), back.height()), (23, 11), "{:?}", format);
    }
}

#[test]
fn round_trip_through_lossless_png_keeps_pixels() {
    let raster = load(9, 9);
    let bytes = ImageCompressor::new(1).compress_to_bytes(&raster, ContainerFormat::Png).unwrap();
    let back = ImageLoader::new().load_from_bytes(&bytes).unwrap();
    assert_eq!(back.samples(), raster.samples());
}

#[test]
fn each_container_starts_with_its_signature() {
    let raster = load(8, 8);
    let compressor = ImageCompressor::new(85);
    let starts = |format: ContainerFormat, magic: &[u8]| {
        let bytes = compressor.compress_to_bytes(&raster, format).unwrap();
        assert!(bytes.starts_with(magic), "{:?}", format);
    };
    starts(ContainerFormat::Jpeg, &[0xFF, 0xD8, 0xFF]);
    starts(ContainerFormat::Png, b"\x89PNG\r\n\x1a\n");
    starts(ContainerFormat::Gif, b"GIF8");
    starts(ContainerFormat::Bmp, b"BM");
    starts(ContainerFormat::WebP, b"RIFF");
    let tiff = compressor.compress_to_bytes(&raster, ContainerFormat::Tiff).unwrap();
    assert!(tiff.starts_with(b"II*\0") || tiff.starts_with(b"MM\0*"));
}

#[test]
fn quality_changes_jpeg_only() {
    let raster = load(64, 64);
    let low = ImageCompressor::new(5);
    let high = ImageCompressor::new(95);
    let small = low.compress_to_bytes(&raster, ContainerFormat::Jpeg).unwrap();
    let large = high.compress_to_bytes(&raster, ContainerFormat::Jpeg).unwrap();
    assert!(small.len() < large.len());
    assert_eq!(
        low.compress_to_bytes(&raster, ContainerFormat::Png).unwrap(),
        high.compress_to_bytes(&raster, ContainerFormat::Png).unwrap()
    );
    assert_eq!(
        low.compress_to_bytes(&raster, ContainerFormat::Bmp).unwrap(),
        high.compress_to_bytes(&raster, ContainerFormat::Bmp).unwrap()
    );
}

#[test]
fn compressor_quality_is_brought_into_range() {
    assert_eq!(ImageCompressor::new(0).quality(), 1);
    assert_eq!(ImageCompressor::new(1).quality(), 1);
    assert_eq!(ImageCompressor::new(85).quality(), 85);
    assert_eq!(ImageCompressor::new(100).quality(), 100);
    assert_eq!(ImageCompressor::new(101).quality(), 100);
    assert_eq!(ImageCompressor::new(255).quality(), 100);
}

#[test]
fn progressive_jpeg_is_refused() {
    let raster = load(8, 8);
    let compressor = ImageCompressor::new(85);
    let flags = EncodeFlags { progressive: true, png_optimize: false };
    let error = compressor.encode(&raster, ContainerFormat::Jpeg, flags).unwrap_err();
    assert_eq!(error.kind(), ErrorKind::UnsupportedFormat);
    assert_eq!(
        error.message(),
        "Unsupported format: Progressive JPEG encoding is not available"
    );
    // The switch has no meaning for the other containers.
    assert_eq!(
        compressor.encode(&raster, ContainerFormat::Png, flags).unwrap(),
        compressor.compress_to_bytes(&raster, ContainerFormat::Png).unwrap()
    );
}

#[test]
fn png_optimize_keeps_pixels() {
    let raster = load(32, 32);
    let compressor = ImageCompressor::new(85);
    let flags = EncodeFlags { progressive: false, png_optimize: true };
    let bytes = compressor.encode(&raster, ContainerFormat::Png, flags).unwrap();
    assert!(bytes.starts_with(b"\x89PNG"));
    let back = ImageLoader::new().load_from_bytes(&bytes).unwrap();
    assert_eq!(back.samples(), raster.samples());
    // For the other containers the switch changes nothing.
    assert_eq!(
        compressor.encode(&raster, ContainerFormat::Bmp, flags).unwrap(),
        compressor.compress_to_bytes(&raster, ContainerFormat::Bmp).unwrap()
    );
}

#[test]
fn jpeg_too_large_for_the_container_is_an_image_error() {
    // JPEG holds at most 65535 pixels on a side.
    let wide = image::DynamicImage::ImageLuma8(image::GrayImage::new(70_000, 1));
    let raster = ImageLoader::new().load_from_bytes(&png_of(wide)).unwrap();
    let error = ImageCompressor::new(85)
        .compress_to_bytes(&raster, ContainerFormat::Jpeg)
        .unwrap_err();
    assert_eq!(error.kind(), ErrorKind::Image);
    assert!(error.message().starts_with("Image error: "));
    assert!(error.message().len() > "Image error: ".len());
}

#[test]
fn save_goes_by_the_extension() {
    let raster = load(8, 8);
    let compressor = ImageCompressor::new(85);
    assert!(compressor.save(&raster, "out/a.png").unwrap().starts_with(b"\x89PNG"));
    assert!(compressor.save(&raster, "out/a.PNG").unwrap().starts_with(b"\x89PNG"));
    assert!(compressor.save(&raster, "out/a.jpg").unwrap().starts_with(&[0xFF, 0xD8]));
    assert!(compressor.save(&raster, "out/a.bmp").unwrap().starts_with(b"BM"));
    assert!(compressor.save(&raster, "out/a.gif").unwrap().starts_with(b"GIF8"));
    assert!(compressor.save(&raster, "out/a.webp").unwrap().starts_with(b"RIFF"));
    // No extension, or an unknown one: JPEG.
    assert!(compressor.save(&raster, "out/a").unwrap().starts_with(&[0xFF, 0xD8]));
    assert!(compressor.save(&raster, "out/a.xyz").unwrap().starts_with(&[0xFF, 0xD8]));
}

#[test]
fn format_is_detected_from_the_path() {
    assert_eq!(detect_format("a.jpg"), ContainerFormat::Jpeg);
    assert_eq!(detect_format("a.JPEG"), ContainerFormat::Jpeg);
    assert_eq!(detect_format("a.png"), ContainerFormat::Png);
    assert_eq!(detect_format("a.gif"), ContainerFormat::Gif);
    assert_eq!(detect_format("a.bmp"), ContainerFormat::Bmp);
    assert_eq!(detect_format("a.webp"), ContainerFormat::WebP);
    assert_eq!(detect_format("a.tiff"), ContainerFormat::Tiff);
    assert_eq!(detect_format("a.Tif"), ContainerFormat::Tiff);
    assert_eq!(detect_format("a.txt"), ContainerFormat::Jpeg);
    assert_eq!(detect_format("a"), ContainerFormat::Jpeg);
    assert_eq!(detect_format("a.png/b"), ContainerFormat::Jpeg);
    assert_eq!(detect_format("x.png/"), ContainerFormat::Png);
    assert_eq!(detect_format("x.GIF/."), ContainerFormat::Gif);
    assert_eq!(detect_format("x.png/.."), ContainerFormat::Jpeg);
}

#[test]
fn format_is_resolved_explicit_first() {
    assert_eq!(resolve_format(Some(OutputFormat::Png), "o.jpg", "i.gif"), ContainerFormat::Png);
    assert_eq!(resolve_format(Some(OutputFormat::Jpeg), "o.png", "i.gif"), ContainerFormat::Jpeg);
    assert_eq!(resolve_format(Some(OutputFormat::WebP), "o.png", "i.gif"), ContainerFormat::WebP);
    assert_eq!(
        resolve_format(Some(OutputFormat::SameAsInput), "o.png", "i.gif"),
        ContainerFormat::Gif
    );
    assert_eq!(resolve_format(None, "o.png", "i.gif"), ContainerFormat::Png);
    assert_eq!(resolve_format(None, "o", "i.gif"), ContainerFormat::Jpeg);
}

#[test]
fn savings_are_never_negative() {
    let compressor = ImageCompressor::new(85);
    assert_eq!(compressor.calculate_savings(1000, 1200), 0);
    assert_eq!(compressor.calculate_savings(1000, 1000), 0);
    assert_eq!(compressor.calculate_savings(0, 0), 0);
    assert_eq!(compressor.calculate_savings(0, 10), 0);
}

#[test]
fn savings_in_hundredths_of_a_percent() {
    let compressor = ImageCompressor::new(85);
    assert_eq!(compressor.calculate_savings(1000, 500), 5000);
    assert_eq!(compressor.calculate_savings(1000, 0), 10_000);
    assert_eq!(compressor.calculate_savings(3, 2), 3333);
    assert_eq!(compressor.calculate_savings(1000, 999), 10);
    assert_eq!(compressor.calculate_savings(u64::MAX, 0), 10_000);
    assert_eq!(compressor.calculate_savings(u64::MAX, u64::MAX - 1), 0);
}

#[test]
fn keep_smaller_prefers_what_was_there_on_a_tie() {
    assert_eq!(keep_smaller(&[1, 2, 3], vec![9, 9]), vec![9, 9]);
    assert_eq!(keep_smaller(&[1, 2, 3], vec![9, 9, 9]), vec![1, 2, 3]);
    assert_eq!(keep_smaller(&[1, 2, 3], vec![9, 9, 9, 9]), vec![1, 2, 3]);
    assert_eq!(keep_smaller(&[], vec![]), Vec::<u8>::new());
}

#[test]
fn optimize_png_never_grows_and_keeps_pixels() {
    // Written without compression, so that there is something to gain.
    let picture = image::DynamicImage::ImageRgba8(pattern(48, 48));
    let mut loose = Vec::new();
    let encoder = image::codecs::png::PngEncoder::new_with_quality(
        &mut loose,
        image::codecs::png::CompressionType::Uncompressed,
        image::codecs::png::FilterType::NoFilter,
    );
    picture.write_with_encoder(encoder).unwrap();
    let compressor = ImageCompressor::new(85);
    let tight = compressor.optimize_png(&loose).unwrap();
    assert!(tight.len() < loose.len());
    let before = ImageLoader::new().load_from_bytes(&loose).unwrap();
    let after = ImageLoader::new().load_from_bytes(&tight).unwrap();
    assert_eq!(before.samples(), after.samples());
    // Doing it again gains nothing more, and loses nothing.
    let again = compressor.optimize_png(&tight).unwrap();
    assert!(again.len() <= tight.len());
}

#[test]
fn optimize_png_of_undecodable_bytes_fails() {
    let error = ImageCompressor::new(85).optimize_png(b"garbage").unwrap_err();
    assert_eq!(error.kind(), ErrorKind::Image);
    assert!(error.message().starts_with("Image error: Failed to load PNG: "));
}

#[test]
fn optimize_jpeg_recodes_at_the_quality() {
    let raster = load(64, 64);
    let source = ImageCompressor::new(95).compress_to_bytes(&raster, ContainerFormat::Jpeg).unwrap();
    let smaller = ImageCompressor::new(10).optimize_jpeg(&source).unwrap();
    assert!(smaller.starts_with(&[0xFF, 0xD8, 0xFF]));
    assert!(smaller.len() < source.len());
    let back = ImageLoader::new().load_from_bytes(&smaller).unwrap();
    assert_eq!((back.width(), back.height()), (64, 64));
    let error = ImageCompressor::new(10).optimize_jpeg(b"garbage").unwrap_err();
    assert_eq!(error.kind(), ErrorKind::Image);
    assert!(error.message().starts_with("Image error: Failed to load JPEG: "));
}
