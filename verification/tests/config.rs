use image_tool::cli::{Algorithm, OutputFormat as CliFormat};
use image_tool::config::{
    EncodeFlags, OutputFormat, ProcessConfig, ResizeAlgorithm, MAX_DIMENSION,
};
use image_tool::error::ErrorKind;
use image_tool::geometry::ResizeMode;
use image_tool::scale::ScaleFactor;

fn sized(width: u32, height: u32, quality: u8) -> ProcessConfig {
    ProcessConfig { width, height, quality, ..ProcessConfig::default() }
}

#[test]
fn default_config_is_as_documented() {
    let c = ProcessConfig::default();
    assert_eq!((c.width, c.height, c.quality), (0, 0, 85));
    assert!(c.scale.is_none());
    assert!(c.keep_aspect);
    assert!(!c.strip_metadata);
    assert_eq!(c.algorithm, ResizeAlgorithm::Lanczos3);
    assert!(c.format.is_none());
    assert!(c.max_file_size.is_none());
    assert_eq!(c.encode_flags, EncodeFlags { progressive: false, png_optimize: false });
    assert!(c.validate(false).is_ok());
}

#[test]
fn validate_accepts_iff_all_conditions_hold() {
    for quality in [0u8, 1, 50, 100, 101, 255] {
        for width in [0u32, 1, MAX_DIMENSION, MAX_DIMENSION + 1] {
            for height in [0u32, 7, MAX_DIMENSION, u32::MAX] {
                for with_scale in [false, true] {
                    for resize in [false, true] {
                        let mut c = sized(width, height, quality);
                        if with_scale {
                            c.scale = ScaleFactor::new(1, 2);
                        }
                        let expected = (1..=100).contains(&quality)
                            && width <= 100_000
                            && height <= 100_000
                            && (!resize || width > 0 || height > 0 || with_scale);
                        assert_eq!(c.validate(resize).is_ok(), expected);
                    }
                }
            }
        }
    }
}

#[test]
fn validate_names_the_first_fault() {
    let too_large = sized(100_001, 0, 0).validate(true).unwrap_err();
    assert_eq!(too_large.kind(), ErrorKind::InvalidParameter);
    assert_eq!(
        too_large.message(),
        "Invalid parameter: Dimensions too large (max 100,000 pixels)"
    );
    let no_dimension = sized(0, 0, 0).validate(true).unwrap_err();
    assert_eq!(
        no_dimension.message(),
        "Invalid parameter: At least one dimension must be specified"
    );
    let bad_quality = sized(0, 0, 0).validate(false).unwrap_err();
    assert_eq!(bad_quality.message(), "Invalid parameter: Quality must be between 1 and 100");
    let high_quality = sized(10, 10, 101).validate(true).unwrap_err();
    assert_eq!(high_quality.message(), "Invalid parameter: Quality must be between 1 and 100");
}

#[test]
fn quality_out_of_range_is_rejected_not_clamped() {
    assert!(sized(10, 10, 0).validate(true).is_err());
    assert!(sized(10, 10, 101).validate(true).is_err());
    assert!(sized(10, 10, 1).validate(true).is_ok());
    assert!(sized(10, 10, 100).validate(true).is_ok());
}

#[test]
fn resize_mode_prefers_scale() {
    let mut c = sized(200, 100, 85);
    assert!(matches!(c.resize_mode(), Some(ResizeMode::Absolute(200, 100))));
    c.scale = ScaleFactor::new(3, 2);
    match c.resize_mode() {
        Some(ResizeMode::Scale(f)) => assert_eq!((f.num(), f.den()), (3, 2)),
        other => panic!("unexpected mode {:?}", other),
    }
    assert!(sized(0, 0, 85).resize_mode().is_none());
    assert!(matches!(sized(0, 9, 85).resize_mode(), Some(ResizeMode::Absolute(0, 9))));
}

#[test]
fn command_line_choices_convert() {
    assert_eq!(ResizeAlgorithm::from(Algorithm::Nearest), ResizeAlgorithm::Nearest);
    assert_eq!(ResizeAlgorithm::from(Algorithm::Bilinear), ResizeAlgorithm::Bilinear);
    assert_eq!(ResizeAlgorithm::from(Algorithm::Bicubic), ResizeAlgorithm::Bicubic);
    assert_eq!(ResizeAlgorithm::from(Algorithm::Lanczos3), ResizeAlgorithm::Lanczos3);
    assert_eq!(OutputFormat::from(CliFormat::Jpeg), OutputFormat::Jpeg);
    assert_eq!(OutputFormat::from(CliFormat::Png), OutputFormat::Png);
    assert_eq!(OutputFormat::from(CliFormat::WebP), OutputFormat::WebP);
    assert_eq!(OutputFormat::from(CliFormat::Same), OutputFormat::SameAsInput);
}
