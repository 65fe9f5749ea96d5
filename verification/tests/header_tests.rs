use sitemirror::errors::MirrorError;
use sitemirror::header::extract;

const NOW: i64 = 1_700_000_000;

#[test]
fn extract_reads_all_fields() {
    let text = "---\ntitle: Hello\ndate: 2024-06-01T00:00:00+00:00\nexcerpt: short\nslug: hi\nvars:\n  color: red\n  size: big\ntags:\n  - one\n  - two\npublicated: true\ntemplate: page.html\n---\nBody text\n";
    let (m, body) = extract(text, NOW).expect("header should parse");
    assert_eq!(m.title, "Hello");
    assert_eq!(m.date, 1_717_200_000);
    assert_eq!(m.excerpt, "short");
    assert_eq!(m.slug, "hi");
    assert!(m.publicated);
    assert_eq!(m.template, "page.html");
    assert_eq!(m.tags, vec!["one".to_string(), "two".to_string()]);
    let mut vars = m.vars.clone();
    vars.sort();
    assert_eq!(
        vars,
        vec![
            ("color".to_string(), "red".to_string()),
            ("size".to_string(), "big".to_string())
        ]
    );
    assert_eq!(body.trim(), "Body text");
}

#[test]
fn extract_defaults_date_to_parse_time() {
    let text = "---\ntitle: T\npublicated: true\ntemplate: t.html\n---\nbody";
    let (m, _) = extract(text, NOW).expect("header should parse");
    assert_eq!(m.date, NOW);
    assert_eq!(m.excerpt, "");
    assert_eq!(m.slug, "");
    assert!(m.vars.is_empty());
    assert!(m.tags.is_empty());
}

#[test]
fn extract_rejects_missing_header() {
    let text = "Just a body, no header at all.\nMore text.\n";
    assert!(matches!(extract(text, NOW), Err(MirrorError::Parse)));
}

#[test]
fn extract_rejects_missing_title() {
    let text = "---\npublicated: true\ntemplate: t.html\n---\nbody";
    assert!(matches!(extract(text, NOW), Err(MirrorError::Parse)));
}

#[test]
fn extract_rejects_missing_publicated() {
    let text = "---\ntitle: T\ntemplate: t.html\n---\nbody";
    assert!(matches!(extract(text, NOW), Err(MirrorError::Parse)));
}

#[test]
fn extract_rejects_wrong_typed_field() {
    let text = "---\ntitle: T\npublicated: true\ntemplate: t.html\nslug: [a, b]\n---\nbody";
    assert!(matches!(extract(text, NOW), Err(MirrorError::Parse)));
}

#[test]
fn extract_rejects_bad_date() {
    let text = "---\ntitle: T\npublicated: true\ntemplate: t.html\ndate: not-a-date\n---\nbody";
    assert!(matches!(extract(text, NOW), Err(MirrorError::Parse)));
}

#[test]
fn extract_rejects_malformed_header() {
    let text = "---\ntitle: [unclosed\n---\nbody";
    assert!(matches!(extract(text, NOW), Err(MirrorError::Parse)));
}
