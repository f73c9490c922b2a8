use qropts::format::Format;
use qropts::opts::{init, resolve, ConfigError, Opts, RawOpts, Target};
use qropts::source::Source;

fn raw(
    format: Option<Format>,
    output: Option<&str>,
    text: Option<&str>,
    file: Option<&str>,
) -> RawOpts {
    RawOpts {
        format,
        output: output.map(|s| s.to_string()),
        text: text.map(|s| s.to_string()),
        file: file.map(|s| s.to_string()),
    }
}

#[test]
fn file_source_alone_defaults_to_png_file() {
    let r = resolve(&Source::File("notes.txt".to_string()), None, None);
    assert_eq!(r.0, Format::Png);
    assert_eq!(r.1, Target::File("a.png".to_string()));
}

#[test]
fn text_source_alone_defaults_to_terminal() {
    let r = resolve(&Source::Text("hi".to_string()), None, None);
    assert_eq!(r.0, Format::Term);
    assert_eq!(r.1, Target::Stdout);
}

#[test]
fn stdin_source_alone_defaults_to_terminal() {
    let r = resolve(&Source::Stdin, None, None);
    assert_eq!(r.0, Format::Term);
    assert_eq!(r.1, Target::Stdout);
}

#[test]
fn output_path_alone_infers_format_from_extension() {
    let r = resolve(&Source::Text("hi".to_string()), Some("shot.gif".to_string()), None);
    assert_eq!(r.0, Format::Gif);
    assert_eq!(r.1, Target::File("shot.gif".to_string()));
}

#[test]
fn explicit_terminal_format_goes_to_stdout() {
    let r = resolve(&Source::Text("hi".to_string()), None, Some(Format::Term));
    assert_eq!(r.0, Format::Term);
    assert_eq!(r.1, Target::Stdout);
}

#[test]
fn explicit_image_format_synthesizes_default_filename() {
    let r = resolve(&Source::Text("hi".to_string()), None, Some(Format::Gif));
    assert_eq!(r.0, Format::Gif);
    assert_eq!(r.1, Target::File("a.gif".to_string()));
}

#[test]
fn default_filenames_for_every_image_format() {
    for (f, name) in [
        (Format::Png, "a.png"),
        (Format::Jpeg, "a.jpeg"),
        (Format::Gif, "a.gif"),
        (Format::Bmp, "a.bmp"),
        (Format::Svg, "a.svg"),
    ] {
        let r = resolve(&Source::Stdin, None, Some(f));
        assert_eq!(r.0, f);
        assert_eq!(r.1, Target::File(name.to_string()));
    }
}

#[test]
fn both_path_and_format_are_taken_verbatim() {
    let r = resolve(
        &Source::Text("hi".to_string()),
        Some("a.png".to_string()),
        Some(Format::Svg),
    );
    assert_eq!(r.0, Format::Svg);
    assert_eq!(r.1, Target::File("a.png".to_string()));
}

#[test]
fn extension_table_lower_and_upper_case() {
    for (path, f) in [
        ("a.png", Format::Png),
        ("a.PNG", Format::Png),
        ("a.jpg", Format::Jpeg),
        ("a.JPG", Format::Jpeg),
        ("a.jpeg", Format::Jpeg),
        ("a.JPEG", Format::Jpeg),
        ("a.gif", Format::Gif),
        ("a.GIF", Format::Gif),
        ("a.bmp", Format::Bmp),
        ("a.BMP", Format::Bmp),
        ("a.svg", Format::Svg),
        ("a.SVG", Format::Svg),
    ] {
        let r = resolve(&Source::Stdin, Some(path.to_string()), None);
        assert_eq!(r.0, f, "path {}", path);
        assert_eq!(r.1, Target::File(path.to_string()));
    }
}

#[test]
fn extension_inference_is_case_insensitive_on_mixed_case() {
    let r = resolve(&Source::Stdin, Some("a.SvG".to_string()), None);
    assert_eq!(r.0, Format::Svg);
    assert_eq!(r.1, Target::File("a.SvG".to_string()));
}

#[test]
fn unrecognized_or_missing_extension_defaults_to_png() {
    for path in ["a.txt", "afile", "a.", "x.tar.gz2", ".svg", "dir.gif/file", "a.pngx"] {
        let r = resolve(&Source::Stdin, Some(path.to_string()), None);
        assert_eq!(r.0, Format::Png, "path {}", path);
        assert_eq!(r.1, Target::File(path.to_string()));
    }
}

#[test]
fn only_the_last_extension_counts() {
    let r = resolve(&Source::Stdin, Some("x.txt.bmp".to_string()), None);
    assert_eq!(r.0, Format::Bmp);
    let r = resolve(&Source::Stdin, Some("dir.gif/x.svg".to_string()), None);
    assert_eq!(r.0, Format::Svg);
}

#[test]
fn init_with_file_source_and_nothing_else() {
    let o = init(raw(None, None, None, Some("in.txt"))).unwrap();
    assert_eq!(o.format, Format::Png);
    assert_eq!(o.target, Target::File("a.png".to_string()));
    assert_eq!(o.source, Source::File("in.txt".to_string()));
}

#[test]
fn init_with_nothing_at_all() {
    let o = init(raw(None, None, None, None)).unwrap();
    assert_eq!(o.format, Format::Term);
    assert_eq!(o.target, Target::Stdout);
    assert_eq!(o.source, Source::Stdin);
}

#[test]
fn init_with_text_only() {
    let o = init(raw(None, None, Some("hello"), None)).unwrap();
    assert_eq!(o.format, Format::Term);
    assert_eq!(o.target, Target::Stdout);
    assert_eq!(o.source, Source::Text("hello".to_string()));
}

#[test]
fn conflicting_text_and_file_are_rejected() {
    let r = Opts::from_raw(raw(None, None, Some("hello"), Some("in.txt")));
    assert_eq!(r, Err(ConfigError::ConflictingInputs));
    let r = init(raw(Some(Format::Svg), Some("out.png"), Some("t"), Some("f")));
    assert_eq!(r, Err(ConfigError::ConflictingInputs));
}
