use sitemirror::errors::MetaField;
use sitemirror::errors::MirrorError;
use sitemirror::metadata::Metadata;

fn base() -> Metadata {
    Metadata {
        title: "Hello World".to_string(),
        date: 0,
        excerpt: String::new(),
        slug: String::new(),
        vars: Vec::new(),
        tags: Vec::new(),
        publicated: true,
        template: "page.html".to_string(),
    }
}

#[test]
fn init_defaults_slug_from_title() {
    let mut m = base();
    m.init();
    assert_eq!(m.slug, "hello-world");
}

#[test]
fn init_slugifies_punctuation() {
    let mut m = base();
    m.title = "My Test String!!!1!1".to_string();
    m.init();
    assert_eq!(m.slug, "my-test-string-1-1");
}

#[test]
fn init_keeps_explicit_slug() {
    let mut m = base();
    m.slug = "kept".to_string();
    m.init();
    assert_eq!(m.slug, "kept");
}

#[test]
fn init_defaults_excerpt_from_title() {
    let mut m = base();
    m.init();
    assert_eq!(m.excerpt, "Hello World");
}

#[test]
fn init_truncates_long_excerpt_default() {
    let mut m = base();
    m.title = "x".repeat(200);
    m.init();
    assert_eq!(m.excerpt.chars().count(), 150);
}

#[test]
fn default_slug_validates() {
    // A unit with a title and template but no slug field must end up with
    // the slugified title and validate.
    let mut m = base();
    m.init();
    assert!(m.validate().is_ok());
    assert_eq!(m.slug, "hello-world");
}

#[test]
fn validate_reports_first_empty_field() {
    let mut m = base();
    m.init();
    m.title = String::new();
    assert_eq!(
        m.validate(),
        Err(MirrorError::Validation(MetaField::Title))
    );
    let mut m = base();
    m.init();
    m.excerpt = String::new();
    assert_eq!(
        m.validate(),
        Err(MirrorError::Validation(MetaField::Excerpt))
    );
    let mut m = base();
    m.init();
    m.slug = String::new();
    assert_eq!(m.validate(), Err(MirrorError::Validation(MetaField::Slug)));
    let mut m = base();
    m.init();
    m.template = String::new();
    assert_eq!(
        m.validate(),
        Err(MirrorError::Validation(MetaField::Template))
    );
}
