use std::path::Path;

use image_tool::error::ErrorKind;
use image_tool::paths::{extension, file_name, join, stem, with_file_name};
use image_tool::utils::{
    calculate_aspect_ratio, folded_extension, format_file_size, generate_output_path,
    get_file_extension, get_image_info, is_supported_format, sanitize_filename,
    validate_dimensions,
};

fn png_bytes(width: u32, height: u32) -> Vec<u8> {
    let picture = image::DynamicImage::ImageRgba8(image::RgbaImage::new(width, height));
    let mut bytes = Vec::new();
    picture
        .write_to(&mut std::io::Cursor::new(&mut bytes), image::ImageFormat::Png)
        .expect("png written");
    bytes
}

#[test]
fn extension_is_lower_cased() {
    assert_eq!(get_file_extension("photo.JPG"), Some("jpg".to_string()));
    assert_eq!(get_file_extension("dir/Photo.JPG"), Some("jpg".to_string()));
    assert_eq!(get_file_extension("dir/archive.tar.GZ"), Some("gz".to_string()));
    assert_eq!(get_file_extension("dir.d/file"), None);
    assert_eq!(get_file_extension(".hidden"), None);
    assert_eq!(get_file_extension(".."), None);
    assert_eq!(get_file_extension("dir/.."), None);
    assert_eq!(get_file_extension("name."), Some(String::new()));
    assert_eq!(get_file_extension(""), None);
    assert_eq!(get_file_extension("x.PNG/"), Some("png".to_string()));
    assert_eq!(get_file_extension("x.PNG/."), Some("png".to_string()));
}

#[test]
fn extension_is_lower_cased_by_the_rules_of_unicode() {
    assert_eq!(get_file_extension("a.\u{c9}"), Some("\u{e9}".to_string()));
    assert_eq!(get_file_extension("a.\u{c9}T\u{e9}"), Some("\u{e9}t\u{e9}".to_string()));
    assert_eq!(get_file_extension("a.\u{3a3}\u{391}"), Some("\u{3c3}\u{3b1}".to_string()));
    // In looking up a container only the letters A to Z are folded.
    assert_eq!(folded_extension("a.\u{c9}T\u{e9}"), Some("\u{c9}t\u{e9}".to_string()));
    assert_eq!(folded_extension("a.JPeG"), Some("jpeg".to_string()));
    assert_eq!(folded_extension("a"), None);
}

#[test]
fn parts_of_a_path() {
    assert_eq!(file_name("a/b/c.png"), Some("c.png".to_string()));
    assert_eq!(file_name("c.png"), Some("c.png".to_string()));
    assert_eq!(file_name("a/b/"), Some("b".to_string()));
    assert_eq!(file_name("a/b/."), Some("b".to_string()));
    assert_eq!(file_name("a/b//./"), Some("b".to_string()));
    assert_eq!(file_name("a/.."), None);
    assert_eq!(file_name(".."), None);
    assert_eq!(file_name("."), None);
    assert_eq!(file_name("/"), None);
    assert_eq!(file_name(""), None);
    assert_eq!(file_name("..."), Some("...".to_string()));
    assert_eq!(extension("a.b/c.TXT"), Some("TXT".to_string()));
    assert_eq!(extension("a.b/c"), None);
    assert_eq!(extension("x.png/"), Some("png".to_string()));
    assert_eq!(stem("a/b/c.tar.gz"), Some("c.tar".to_string()));
    assert_eq!(stem("a/.profile"), Some(".profile".to_string()));
    assert_eq!(stem("a/"), Some("a".to_string()));
    assert_eq!(stem(".."), None);
    assert_eq!(stem("x."), Some("x".to_string()));
    assert_eq!(with_file_name("a/b/c.png", "d.jpg"), "a/b/d.jpg");
    assert_eq!(with_file_name("c.png", "d.jpg"), "d.jpg");
    assert_eq!(with_file_name("/c.png", "d.jpg"), "/d.jpg");
    assert_eq!(with_file_name("./c.png", "d.jpg"), "./d.jpg");
    assert_eq!(with_file_name("a//b/", "d"), "a/d");
    assert_eq!(with_file_name("a/..", "d"), "a/../d");
    assert_eq!(with_file_name("", "d"), "d");
    assert_eq!(join("a", "b"), "a/b");
    assert_eq!(join("a/", "b"), "a/b");
    assert_eq!(join("", "b"), "b");
}

fn text<S: AsRef<Path>>(part: Option<S>) -> Option<String> {
    part.map(|p| p.as_ref().to_str().expect("valid text").to_string())
}

fn all_paths(alphabet: &[char], longest: usize) -> Vec<String> {
    let mut paths = vec![String::new()];
    let mut from = 0;
    for _ in 0..longest {
        let until = paths.len();
        for i in from..until {
            for &c in alphabet {
                let mut longer = paths[i].clone();
                longer.push(c);
                paths.push(longer);
            }
        }
        from = until;
    }
    paths
}

#[test]
fn paths_are_read_as_the_standard_library_reads_them() {
    for path in all_paths(&['/', '.', 'a', 'B'], 7) {
        let std_path = Path::new(&path);
        assert_eq!(file_name(&path), text(std_path.file_name()), "file name of {:?}", path);
        assert_eq!(extension(&path), text(std_path.extension()), "extension of {:?}", path);
        assert_eq!(stem(&path), text(std_path.file_stem()), "stem of {:?}", path);
        assert_eq!(
            with_file_name(&path, "n.x"),
            std_path.with_file_name("n.x").to_str().unwrap(),
            "file name replaced in {:?}",
            path
        );
        assert_eq!(join(&path, "n"), std_path.join("n").to_str().unwrap(), "join of {:?}", path);
        assert_eq!(
            get_file_extension(&path),
            text(std_path.extension()).map(|e| e.to_lowercase()),
            "lower-case extension of {:?}",
            path
        );
    }
}

#[test]
fn supported_formats_ignore_case() {
    for path in [
        "a.jpg", "a.jpeg", "a.png", "a.gif", "a.bmp", "a.tiff", "a.tif", "a.webp", "A.JPG",
        "dir/Photo.JpEg", "x.y.WEBP", "/abs/path/pic.TIF", "a.png/", "dir/x.PNG/.", "a.png//",
    ] {
        assert!(is_supported_format(path), "{}", path);
    }
    for path in [
        "a.txt", "a", "a.jpgx", ".png", "a.jp", "dir.png/readme", "a.png/..", "", "a.svg",
        "a.JPG ",
    ] {
        assert!(!is_supported_format(path), "{}", path);
    }
}

#[test]
fn supported_formats_go_by_the_extension_of_the_standard_library() {
    let known = ["jpg", "jpeg", "png", "gif", "bmp", "tiff", "tif", "webp"];
    for dir in ["", "d/", "/", "./", "../x.png/"] {
        for name in ["a", "a.", ".png", "a.PNG", "a.png", "a.b.TiF", "x.webp", "x.txt", ".."] {
            for tail in ["", "/", "/.", "//", "/.."] {
                let path = format!("{}{}{}", dir, name, tail);
                let expected = Path::new(&path)
                    .extension()
                    .and_then(|e| e.to_str())
                    .map(|e| known.contains(&e.to_lowercase().as_str()))
                    .unwrap_or(false);
                assert_eq!(is_supported_format(&path), expected, "{:?}", path);
            }
        }
    }
}

#[test]
fn sanitize_replaces_each_invalid_character() {
    assert_eq!(sanitize_filename("a/b\\c:d*e?f\"g<h>i|j"), "a_b_c_d_e_f_g_h_i_j");
    assert_eq!(sanitize_filename("plain-name_1.png"), "plain-name_1.png");
    assert_eq!(sanitize_filename(""), "");
    assert_eq!(sanitize_filename("\u{e9}t\u{e9}?.jpg"), "\u{e9}t\u{e9}_.jpg");
    assert_eq!(sanitize_filename("////"), "____");
}

#[test]
fn dimensions_are_validated() {
    assert!(validate_dimensions(800, 600).is_ok());
    assert!(validate_dimensions(0, 600).is_ok());
    assert!(validate_dimensions(100_000, 100_000).is_ok());
    let large = validate_dimensions(100_001, 5).unwrap_err();
    assert_eq!(large.kind(), ErrorKind::InvalidParameter);
    assert_eq!(large.message(), "Invalid parameter: Dimensions too large (max 100,000 pixels)");
    assert!(validate_dimensions(5, 100_001).is_err());
    let none = validate_dimensions(0, 0).unwrap_err();
    assert_eq!(none.message(), "Invalid parameter: At least one dimension must be specified");
}

#[test]
fn file_sizes_in_words() {
    assert_eq!(format_file_size(0), "0 B");
    assert_eq!(format_file_size(1), "1.00 B");
    assert_eq!(format_file_size(1023), "1023.00 B");
    assert_eq!(format_file_size(1024), "1.00 KB");
    assert_eq!(format_file_size(1536), "1.50 KB");
    assert_eq!(format_file_size(1_048_575), "1024.00 KB");
    assert_eq!(format_file_size(1_048_576), "1.00 MB");
    assert_eq!(format_file_size(1_234_567), "1.18 MB");
    assert_eq!(format_file_size(1_073_741_824), "1.00 GB");
    assert_eq!(format_file_size(1_099_511_627_776), "1.00 TB");
    assert_eq!(format_file_size(1_125_899_906_842_624), "1.00 PB");
    assert_eq!(format_file_size(u64::MAX), "16384.00 PB");
}

#[test]
fn file_sizes_round_halves_to_even() {
    // 1152 / 1024 = 1.125 and 1408 / 1024 = 1.375, both exactly.
    assert_eq!(format_file_size(1152), "1.12 KB");
    assert_eq!(format_file_size(1408), "1.38 KB");
    assert_eq!(format_file_size(1152), format!("{:.2} KB", 1152.0f64 / 1024.0));
    assert_eq!(format_file_size(1408), format!("{:.2} KB", 1408.0f64 / 1024.0));
}

#[test]
fn output_path_given_by_the_user_is_kept() {
    assert_eq!(
        generate_output_path("in/cat.png", Some("out/dog.webp"), "resized", 1_700_000_000, 3),
        "out/dog.webp"
    );
}

#[test]
fn output_path_is_generated_beside_the_input() {
    assert_eq!(
        generate_output_path("photos/cat.png", None, "resized", 1_700_000_000, 0),
        "photos/cat_resized_1700000000.png"
    );
    assert_eq!(
        generate_output_path("photos/cat.png", None, "resized", 1_700_000_000, 1),
        "photos/cat_resized_1700000000_1.png"
    );
    assert_eq!(
        generate_output_path("photos/cat.png", None, "resized", 1_700_000_000, 12),
        "photos/cat_resized_1700000000_12.png"
    );
    assert_eq!(
        generate_output_path("cat", None, "optimized", 0, 0),
        "cat_optimized_0.jpg"
    );
    assert_eq!(generate_output_path("", None, "converted", 5, 0), "image_converted_5.jpg");
    assert_eq!(
        generate_output_path("/a.b/x.tar.GZ", None, "s", u64::MAX, u32::MAX),
        "/a.b/x.tar_s_18446744073709551615_4294967295.GZ"
    );
    assert_eq!(generate_output_path("d/a.png/", None, "resized", 7, 0), "d/a_resized_7.png");
    assert_eq!(generate_output_path("d//a.png/.", None, "resized", 7, 2), "d/a_resized_7_2.png");
    assert_eq!(generate_output_path("a/..", None, "s", 1, 0), "a/../image_s_1.jpg");
    assert_eq!(generate_output_path("/", None, "s", 1, 0), "/image_s_1.jpg");
}

#[test]
fn output_path_is_generated_as_the_standard_library_would() {
    for path in all_paths(&['/', '.', 'a', 'B'], 6) {
        let std_path = Path::new(&path);
        let stem = std_path.file_stem().and_then(|s| s.to_str()).unwrap_or("image");
        let extension = std_path.extension().and_then(|e| e.to_str()).unwrap_or("jpg");
        let first = std_path.with_file_name(format!("{}_{}_{}.{}", stem, "out", 42, extension));
        assert_eq!(generate_output_path(&path, None, "out", 42, 0), first.to_str().unwrap());
        let third =
            std_path.with_file_name(format!("{}_{}_{}_{}.{}", stem, "out", 42, 3, extension));
        assert_eq!(generate_output_path(&path, None, "out", 42, 3), third.to_str().unwrap());
    }
}

#[test]
fn aspect_ratio_in_hundredths() {
    assert_eq!(calculate_aspect_ratio(400, 300), 133);
    assert_eq!(calculate_aspect_ratio(1920, 1080), 178);
    assert_eq!(calculate_aspect_ratio(100, 100), 100);
    assert_eq!(calculate_aspect_ratio(1, 8), 13);
    assert_eq!(calculate_aspect_ratio(5, 0), 0);
    assert_eq!(calculate_aspect_ratio(0, 5), 0);
    assert_eq!(calculate_aspect_ratio(u32::MAX, 1), 429_496_729_500);
}

#[test]
fn image_info_reads_header_only() {
    let (width, height, format) = get_image_info(&png_bytes(7, 5)).unwrap();
    assert_eq!((width, height), (7, 5));
    assert_eq!(format, "Png");
}

#[test]
fn image_info_names_the_container() {
    let picture = image::DynamicImage::ImageRgb8(image::RgbImage::new(9, 4));
    let name_of = |format: image::ImageFormat| {
        let mut bytes = Vec::new();
        picture.write_to(&mut std::io::Cursor::new(&mut bytes), format).expect("written");
        get_image_info(&bytes).unwrap()
    };
    assert_eq!(name_of(image::ImageFormat::Jpeg), (9, 4, "Jpeg".to_string()));
    assert_eq!(name_of(image::ImageFormat::Gif), (9, 4, "Gif".to_string()));
    assert_eq!(name_of(image::ImageFormat::Bmp), (9, 4, "Bmp".to_string()));
    assert_eq!(name_of(image::ImageFormat::WebP), (9, 4, "WebP".to_string()));
    assert_eq!(name_of(image::ImageFormat::Tiff), (9, 4, "Tiff".to_string()));
}

#[test]
fn image_info_of_unknown_data_fails() {
    let error = get_image_info(b"certainly not an image").unwrap_err();
    assert_eq!(error.kind(), ErrorKind::Image);
    assert!(error.message().starts_with("Image error: "));
    assert!(error.message().len() > "Image error: ".len());
}
