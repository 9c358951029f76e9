use image_tool::compressor::ImageCompressor;
use image_tool::config::{EncodeFlags, OutputFormat, ProcessConfig, ResizeAlgorithm};
use image_tool::raster::ContainerFormat;
use image_tool::error::ErrorKind;
use image_tool::loader::ImageLoader;
use image_tool::processor::{ImageProcessor, ProcessingStats};
use image_tool::scale::ScaleFactor;

fn png_bytes(width: u32, height: u32) -> Vec<u8> {
    let picture = image::DynamicImage::ImageRgb8(image::RgbImage::from_fn(width, height, |x, y| {
        image::Rgb([(x * 5) as u8, (y * 7) as u8, (x + y) as u8])
    }));
    let mut bytes = Vec::new();
    picture
        .write_to(&mut std::io::Cursor::new(&mut bytes), image::ImageFormat::Png)
        .expect("png written");
    bytes
}

fn config(width: u32, height: u32) -> ProcessConfig {
    ProcessConfig { width, height, ..ProcessConfig::default() }
}

#[test]
fn process_resizes_and_reports_sizes() {
    let input = png_bytes(40, 30);
    let processor = ImageProcessor::new(config(20, 0));
    let done = processor.process("in/a.png", Some(&input), "out/a.png").unwrap();
    assert_eq!(
        done.stats,
        ProcessingStats {
            input_size: input.len() as u64,
            output_size: done.bytes.len() as u64,
            width_before: 40,
            height_before: 30,
            width_after: 20,
            height_after: 15,
        }
    );
    assert!(done.bytes.starts_with(b"\x89PNG"));
    let back = ImageLoader::new().load_from_bytes(&done.bytes).unwrap();
    assert_eq!((back.width(), back.height()), (20, 15));
}

#[test]
fn process_without_a_size_only_recodes() {
    let input = png_bytes(12, 9);
    let processor = ImageProcessor::new(ProcessConfig::default());
    let done = processor.process("a.png", Some(&input), "a.jpg").unwrap();
    assert!(done.bytes.starts_with(&[0xFF, 0xD8, 0xFF]));
    assert_eq!((done.stats.width_before, done.stats.height_before), (12, 9));
    assert_eq!((done.stats.width_after, done.stats.height_after), (12, 9));
    assert_eq!(done.stats.input_size, input.len() as u64);
    assert_eq!(done.stats.output_size, done.bytes.len() as u64);
}

#[test]
fn process_scale_takes_precedence_over_width_and_height() {
    let input = png_bytes(40, 30);
    let mut c = config(7, 7);
    c.scale = ScaleFactor::from_float_bits(0.5f32.to_bits()).unwrap();
    let done = ImageProcessor::new(c).process("a.png", Some(&input), "b.png").unwrap();
    assert_eq!((done.stats.width_after, done.stats.height_after), (20, 15));
}

#[test]
fn process_honours_keep_aspect_and_algorithm() {
    let input = png_bytes(40, 30);
    let mut c = config(10, 20);
    c.keep_aspect = false;
    c.algorithm = ResizeAlgorithm::Nearest;
    let done = ImageProcessor::new(c).process("a.png", Some(&input), "b.png").unwrap();
    assert_eq!((done.stats.width_after, done.stats.height_after), (10, 20));
    c.keep_aspect = true;
    let done = ImageProcessor::new(c).process("a.png", Some(&input), "b.png").unwrap();
    assert_eq!((done.stats.width_after, done.stats.height_after), (10, 8));
}

#[test]
fn process_resolves_the_container() {
    let input = png_bytes(8, 8);
    let run = |format: Option<OutputFormat>, output: &str| {
        let c = ProcessConfig { format, ..ProcessConfig::default() };
        ImageProcessor::new(c).process("in/source.png", Some(&input), output).unwrap().bytes
    };
    assert!(run(None, "out/x.bmp").starts_with(b"BM"));
    assert!(run(None, "out/x").starts_with(&[0xFF, 0xD8]));
    assert!(run(Some(OutputFormat::WebP), "out/x.bmp").starts_with(b"RIFF"));
    assert!(run(Some(OutputFormat::Jpeg), "out/x.png").starts_with(&[0xFF, 0xD8]));
    assert!(run(Some(OutputFormat::Png), "out/x.jpg").starts_with(b"\x89PNG"));
    assert!(run(Some(OutputFormat::SameAsInput), "out/x.jpg").starts_with(b"\x89PNG"));
}

#[test]
fn process_quality_reaches_the_encoder() {
    let input = png_bytes(64, 64);
    let low = ProcessConfig { quality: 5, ..ProcessConfig::default() };
    let high = ProcessConfig { quality: 95, ..ProcessConfig::default() };
    let small = ImageProcessor::new(low).process("a.png", Some(&input), "a.jpg").unwrap();
    let large = ImageProcessor::new(high).process("a.png", Some(&input), "a.jpg").unwrap();
    assert!(small.stats.output_size < large.stats.output_size);
}

#[test]
fn process_of_a_missing_file_fails() {
    let error = ImageProcessor::new(config(10, 10)).process("in/gone.png", None, "out/gone.png").unwrap_err();
    assert_eq!(error.kind(), ErrorKind::InvalidParameter);
    assert_eq!(error.message(), "Invalid parameter: File does not exist: in/gone.png");
}

#[test]
fn process_of_a_corrupted_file_fails() {
    let mut input = png_bytes(20, 20);
    input.truncate(40);
    let error = ImageProcessor::new(config(10, 10)).process("bad.png", Some(&input), "o.png").unwrap_err();
    assert_eq!(error.kind(), ErrorKind::Image);
    assert!(error.message().starts_with("Image error: Failed to decode image: "));
}

#[test]
fn process_of_a_degenerate_resize_fails() {
    let input = png_bytes(400, 1);
    let error = ImageProcessor::new(config(1, 0)).process("a.png", Some(&input), "o.png").unwrap_err();
    assert_eq!(error.kind(), ErrorKind::InvalidParameter);
}

#[test]
fn process_respects_the_size_limit() {
    let input = png_bytes(10, 10);
    let mut c = config(5, 5);
    c.max_file_size = Some(input.len() as u64 - 1);
    let error = ImageProcessor::new(c).process("in/a.png", Some(&input), "o.png").unwrap_err();
    assert_eq!(error.kind(), ErrorKind::InvalidParameter);
    assert_eq!(error.message(), "Invalid parameter: File exceeds the maximum size: in/a.png");
    c.max_file_size = Some(input.len() as u64);
    assert!(ImageProcessor::new(c).process("in/a.png", Some(&input), "o.png").is_ok());
}

#[test]
fn process_strips_metadata_before_decoding() {
    let plain = ImageProcessor::new(ProcessConfig::default())
        .process("a.png", Some(&png_bytes(16, 16)), "a.jpg")
        .unwrap()
        .bytes;
    let mut tagged = plain[..2].to_vec();
    tagged.extend_from_slice(&[0xFF, 0xE1, 0x00, 0x0A, b'E', b'x', b'i', b'f', 0, 0, 1, 2]);
    tagged.extend_from_slice(&plain[2..]);
    let mut c = ProcessConfig::default();
    c.strip_metadata = true;
    let done = ImageProcessor::new(c).process("a.jpg", Some(&tagged), "b.png").unwrap();
    // The size that is reported is that of the file as it was read.
    assert_eq!(done.stats.input_size, tagged.len() as u64);
    assert_eq!((done.stats.width_after, done.stats.height_after), (16, 16));
    let kept = ImageProcessor::new(ProcessConfig::default())
        .process("a.jpg", Some(&tagged), "b.png")
        .unwrap();
    assert_eq!(kept.bytes, done.bytes);
}

#[test]
fn process_passes_the_switches_to_the_encoder() {
    let input = png_bytes(24, 24);
    let mut c = ProcessConfig::default();
    c.encode_flags = EncodeFlags { progressive: true, png_optimize: false };
    let error = ImageProcessor::new(c).process("a.png", Some(&input), "a.jpg").unwrap_err();
    assert_eq!(error.kind(), ErrorKind::UnsupportedFormat);
    assert_eq!(
        error.message(),
        "Unsupported format: Progressive JPEG encoding is not available"
    );
    // Only JPEG knows a progressive mode.
    assert!(ImageProcessor::new(c).process("a.png", Some(&input), "a.bmp").is_ok());
    c.encode_flags = EncodeFlags { progressive: false, png_optimize: true };
    let tight = ImageProcessor::new(c).process("a.png", Some(&input), "b.png").unwrap();
    let raster = ImageLoader::new().load_from_bytes(&input).unwrap();
    let expected = ImageCompressor::new(85)
        .encode(&raster, ContainerFormat::Png, c.encode_flags)
        .unwrap();
    assert_eq!(tight.bytes, expected);
}

#[test]
fn process_single_is_process() {
    let input = png_bytes(10, 10);
    let processor = ImageProcessor::new(config(5, 0));
    let a = processor.process("a.png", Some(&input), "b.png").unwrap();
    let b = processor.process_single("a.png", Some(&input), "b.png").unwrap();
    assert_eq!(a.bytes, b.bytes);
    assert_eq!(a.stats, b.stats);
    assert_eq!(processor.config().width, 5);
}
