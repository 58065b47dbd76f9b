use ord_stream::format::OutputFormat;

#[test]
fn json_is_the_default_format() {
    assert_eq!(OutputFormat::default(), OutputFormat::Json);
    assert_ne!(OutputFormat::default(), OutputFormat::Yaml);
    assert_ne!(OutputFormat::default(), OutputFormat::Minify);
}
