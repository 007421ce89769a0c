use imgzap::codec::{source_path, target_path, SourcePath, TargetPath};
use imgzap::dispatch::{paths_are_distinct, plan_jobs, targets_are_distinct, ConversionJob, SelectedImage};
use imgzap::error::ConvertError;
use imgzap::format::{str_equal, RasterFormat};
use imgzap::ImageFormatExt;

const ALL: [ImageFormatExt; 8] = [
    ImageFormatExt::Png,
    ImageFormatExt::Jpeg,
    ImageFormatExt::WebP,
    ImageFormatExt::Tiff,
    ImageFormatExt::Bmp,
    ImageFormatExt::Ico,
    ImageFormatExt::Avif,
    ImageFormatExt::Svg,
];

fn selected(path: &str, format: ImageFormatExt, included: bool) -> SelectedImage {
    SelectedImage { path: path.to_string(), format, included }
}

#[test]
fn get_all_lists_every_format_switched_off() {
    let all = ImageFormatExt::get_all();
    assert_eq!(all.len(), 8);
    for (i, (f, on)) in all.iter().enumerate() {
        assert_eq!(*f, ALL[i]);
        assert!(!on);
    }
}

#[test]
fn mime_types_map_to_formats() {
    assert_eq!(ImageFormatExt::get_format_from_mime("image/png"), Some(ImageFormatExt::Png));
    assert_eq!(ImageFormatExt::get_format_from_mime("image/jpeg"), Some(ImageFormatExt::Jpeg));
    assert_eq!(ImageFormatExt::get_format_from_mime("image/bmp"), Some(ImageFormatExt::Bmp));
    assert_eq!(ImageFormatExt::get_format_from_mime("image/svg+xml"), Some(ImageFormatExt::Svg));
    assert_eq!(ImageFormatExt::get_format_from_mime("image/x-icon"), Some(ImageFormatExt::Ico));
    assert_eq!(ImageFormatExt::get_format_from_mime("image/vnd.microsoft.icon"), Some(ImageFormatExt::Ico));
    assert_eq!(ImageFormatExt::get_format_from_mime("image/tiff"), Some(ImageFormatExt::Tiff));
    assert_eq!(ImageFormatExt::get_format_from_mime("image/webp"), Some(ImageFormatExt::WebP));
    assert_eq!(ImageFormatExt::get_format_from_mime("image/avif"), Some(ImageFormatExt::Avif));
    assert_eq!(ImageFormatExt::get_format_from_mime("image/gif"), None);
    assert_eq!(ImageFormatExt::get_format_from_mime("text/plain"), None);
    assert_eq!(ImageFormatExt::get_format_from_mime(""), None);
    assert_eq!(ImageFormatExt::get_format_from_mime("image/pngx"), None);
}

#[test]
fn names_and_extensions() {
    let names = ["PNG", "JPEG", "WEBP", "TIFF", "BMP", "ICO", "AVIF", "SVG"];
    let exts = ["png", "jpeg", "webp", "tiff", "bmp", "ico", "avif", "svg"];
    for (i, f) in ALL.iter().enumerate() {
        assert_eq!(f.get_name(), names[i]);
        assert_eq!(f.get_ext(), exts[i]);
    }
}

#[test]
fn capabilities_of_formats() {
    assert_eq!(ImageFormatExt::Png.get_format(), Some(RasterFormat::Png));
    assert_eq!(ImageFormatExt::Avif.get_format(), Some(RasterFormat::Avif));
    assert_eq!(ImageFormatExt::Ico.get_format(), None);
    assert_eq!(ImageFormatExt::Svg.get_format(), None);
    let generic = ALL.iter().filter(|f| f.get_format().is_some()).count();
    assert_eq!(generic, 6);
}

#[test]
fn string_equality() {
    assert!(str_equal("abc", "abc"));
    assert!(!str_equal("abc", "abd"));
    assert!(!str_equal("abc", "ab"));
    assert!(str_equal("", ""));
}

#[test]
fn routing_by_source_and_target() {
    assert_eq!(source_path(ImageFormatExt::Svg), SourcePath::Rasterize);
    assert_eq!(source_path(ImageFormatExt::Ico), SourcePath::IconDecode);
    assert_eq!(source_path(ImageFormatExt::Tiff), SourcePath::RasterDecode);
    assert_eq!(
        target_path(ImageFormatExt::Jpeg),
        TargetPath::RasterEncode { format: RasterFormat::Jpeg, flatten: true }
    );
    assert_eq!(
        target_path(ImageFormatExt::WebP),
        TargetPath::RasterEncode { format: RasterFormat::WebP, flatten: false }
    );
    assert_eq!(target_path(ImageFormatExt::Ico), TargetPath::IconEncode);
    assert_eq!(target_path(ImageFormatExt::Svg), TargetPath::Trace);
}

#[test]
fn plan_skips_same_format_pairs() {
    let images = vec![selected("a.png", ImageFormatExt::Png, true)];
    let targets = vec![(ImageFormatExt::Png, true), (ImageFormatExt::Jpeg, true)];
    let jobs = plan_jobs(&images, &targets);
    assert_eq!(
        jobs,
        vec![ConversionJob { source: 0, source_format: ImageFormatExt::Png, target_format: ImageFormatExt::Jpeg }]
    );
}

#[test]
fn plan_crosses_selected_files_with_enabled_targets() {
    let images = vec![
        selected("a.png", ImageFormatExt::Png, true),
        selected("b.svg", ImageFormatExt::Svg, false),
        selected("c.ico", ImageFormatExt::Ico, true),
    ];
    let targets = vec![
        (ImageFormatExt::Ico, true),
        (ImageFormatExt::Bmp, false),
        (ImageFormatExt::Svg, true),
    ];
    let jobs = plan_jobs(&images, &targets);
    let pairs: Vec<(usize, ImageFormatExt)> = jobs.iter().map(|j| (j.source, j.target_format)).collect();
    assert_eq!(pairs, vec![(0, ImageFormatExt::Ico), (0, ImageFormatExt::Svg), (2, ImageFormatExt::Svg)]);
    assert_eq!(jobs[2].source_format, ImageFormatExt::Ico);
}

#[test]
fn plan_is_empty_without_targets_or_selection() {
    let images = vec![selected("a.png", ImageFormatExt::Png, true)];
    assert!(plan_jobs(&images, &ImageFormatExt::get_all()).is_empty());
    let none: Vec<SelectedImage> = Vec::new();
    assert!(plan_jobs(&none, &vec![(ImageFormatExt::Png, true)]).is_empty());
}

#[test]
fn error_descriptions_name_the_kind() {
    assert_eq!(ConvertError::Decode("bad".to_string()).describe(), "decode error: bad");
    assert_eq!(ConvertError::Unsupported.describe(), "unsupported conversion");
    assert_eq!(ConvertError::EmptyContainer.describe(), "decode error: the icon container has no entries");
}

#[test]
fn repeated_keys_are_detected() {
    assert!(targets_are_distinct(&ImageFormatExt::get_all()));
    assert!(!targets_are_distinct(&vec![(ImageFormatExt::Png, true), (ImageFormatExt::Bmp, false), (ImageFormatExt::Png, false)]));
    let images = vec![selected("a.png", ImageFormatExt::Png, true), selected("b.png", ImageFormatExt::Png, true)];
    assert!(paths_are_distinct(&images));
    let twice = vec![selected("a.png", ImageFormatExt::Png, true), selected("a.png", ImageFormatExt::Png, false)];
    assert!(!paths_are_distinct(&twice));
}
