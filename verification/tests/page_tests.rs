use sitemirror::action::Action;
use sitemirror::page::Page;

const NOW: i64 = 1_700_000_000;

fn route() -> Vec<String> {
    vec!["posts".to_string()]
}

#[test]
fn read_renders_markdown_body() {
    let text = "---\ntitle: Hi\npublicated: true\ntemplate: page.html\n---\n# Title\n";
    let p = Page::read(&route(), text, NOW).expect("page should read");
    assert_eq!(p.route, route());
    assert_eq!(p.metadata.title, "Hi");
    assert_eq!(p.metadata.slug, "hi");
    assert_eq!(p.content.trim(), "<h1>Title</h1>");
}

#[test]
fn read_drops_invalid_template() {
    // An explicit empty template must be rejected and the unit dropped.
    let text = "---\ntitle: Hi\npublicated: true\ntemplate: \"\"\n---\nbody";
    assert!(Page::read(&route(), text, NOW).is_none());
}

#[test]
fn read_drops_unparsable_document() {
    assert!(Page::read(&route(), "no header here", NOW).is_none());
}

#[test]
fn generate_plans_directory_then_file() {
    let text = "---\ntitle: Hi\npublicated: true\ntemplate: page.html\n---\nbody";
    let p = Page::read(&route(), text, NOW).expect("page should read");
    let parent = vec!["out".to_string(), "posts".to_string()];
    let acts = p.generate(&parent);
    assert_eq!(acts.len(), 2);
    match &acts[0] {
        Action::EnsureDir { path } => {
            assert_eq!(path, &vec!["out".to_string(), "posts".to_string(), "hi".to_string()]);
        }
        _ => panic!("first action should create the slug directory"),
    }
    match &acts[1] {
        Action::WritePage { path, page } => {
            assert_eq!(
                path,
                &vec![
                    "out".to_string(),
                    "posts".to_string(),
                    "hi".to_string(),
                    "index.html".to_string()
                ]
            );
            assert_eq!(page.metadata.slug, "hi");
        }
        _ => panic!("second action should write the page"),
    }
}
