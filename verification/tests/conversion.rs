use web_spec::converter::{ConversionOptions, Converter};

#[test]
fn test_basic_conversion() {
    let converter = Converter::new();
    let html = "<h1>Hello</h1><p>World</p>";
    let result = converter.convert(html);
    assert!(result.is_ok());
    let markdown = result.unwrap();
    assert!(markdown.contains("Hello"));
    // the markup itself is gone: the engine rendered, it did not echo
    assert!(!markdown.contains("<h1>"));
}

#[test]
fn test_strip_images() {
    let converter = Converter::new();
    let html = "<img src=\"test.jpg\" />";
    let result = converter.strip_images_only(html);
    assert!(result.is_ok());
    let markdown = result.unwrap();
    assert!(!markdown.contains("!["));
}

#[test]
fn test_with_cleanup() {
    let converter = Converter::new();
    let html = "<h1>Hello</h1><p>World</p>";
    let result = converter.convert_with_cleanup(html);
    assert!(result.is_ok());
    let markdown = result.unwrap();
    assert!(markdown.contains("Hello"));
}

#[test]
fn cleanup_squeezes_blank_runs() {
    let converter = Converter::with_options(ConversionOptions {
        include_code_blocks: true,
        preserve_links: true,
        include_tables: true,
        strip_images: true,
    });
    let html = "<p>a</p><br/><br/><br/><p>b</p>";
    let markdown = converter.convert_with_cleanup(html).unwrap();
    assert!(!markdown.contains("\n\n\n"));
}
