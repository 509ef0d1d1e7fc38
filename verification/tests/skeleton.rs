use alice_engine::external::skeleton::{ExtractionResult, SkeletonConfig};

#[test]
fn test_load() {
    let config = SkeletonConfig::load();
    assert!(config.extract("rs", "").is_some());
    assert!(config.extract("py", "").is_some());
    assert!(config.extract("js", "").is_some());
}

#[test]
fn test_extract_rust() {
    let config = SkeletonConfig::load();
    let result = config.extract("rs", "use std::io;\n\npub fn hello() {\n    println!(\"hi\");\n}\n\nstruct Foo;").unwrap();
    assert!(result.iter().any(|l| l.contains("pub fn hello")));
    assert!(result.iter().any(|l| l.contains("struct Foo")));
}

#[test]
fn test_unknown_ext() {
    let config = SkeletonConfig::load();
    assert!(config.extract("xyz", "anything").is_none());
}

#[test]
fn test_extract_from_path_md() {
    let config = SkeletonConfig::load();
    assert!(matches!(config.extract_from_path("readme.md", "# Hello"), ExtractionResult::Full));
}

#[test]
fn test_extract_from_path_rust() {
    let config = SkeletonConfig::load();
    let result = config.extract_from_path("main.rs", "pub fn main() {}");
    assert!(matches!(result, ExtractionResult::Skeleton(_)));
}

#[test]
fn test_extract_from_path_unknown() {
    let config = SkeletonConfig::load();
    assert!(matches!(config.extract_from_path("data.xyz", "anything"), ExtractionResult::NoRule));
}
