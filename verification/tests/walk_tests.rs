use sitemirror::action::Action;
use sitemirror::config::Config;
use sitemirror::generator::Generator;
use sitemirror::site::Site;
use sitemirror::walker::SourceDir;
use sitemirror::walker::SourceFile;

const NOW: i64 = 1_700_000_000;

fn site() -> Site {
    Site {
        url: "https://example.org".to_string(),
        language: "en".to_string(),
        language_direction: "ltr".to_string(),
        theme: "plain".to_string(),
        title: "Example".to_string(),
        description: "An example site".to_string(),
        author: "Someone".to_string(),
        avatar: String::new(),
        email: String::new(),
        telegram: None,
        mastodon: None,
        socials: None,
    }
}

fn generator() -> Generator {
    Generator::new(Config {
        source: "/src".to_string(),
        destination: "/out".to_string(),
        assets: "/assets".to_string(),
        site: site(),
    })
}

fn doc(title: &str, date: &str) -> String {
    format!(
        "---\ntitle: {}\ndate: {}T00:00:00+00:00\npublicated: true\ntemplate: page.html\n---\nbody\n",
        title, date
    )
}

fn file(name: &str, text: String) -> SourceFile {
    SourceFile { name: name.to_string(), text }
}

fn segs(parts: &[&str]) -> Vec<String> {
    parts.iter().map(|s| s.to_string()).collect()
}

#[test]
fn initial_replication_orders_members_before_index() {
    // Source root holds a.md (Hello, newer) and b.md (World, older).
    let root = SourceDir {
        name: "src".to_string(),
        files: vec![
            file("a.md", doc("Hello", "2024-06-01")),
            file("b.md", doc("World", "2024-05-01")),
        ],
        dirs: Vec::new(),
    };
    let acts = generator().initial_replication(&root, NOW);
    assert_eq!(acts.len(), 7);
    match &acts[0] {
        Action::WipeDestination { path } => assert_eq!(path, &segs(&["out"])),
        _ => panic!("first action should wipe the destination root"),
    }
    match &acts[1] {
        Action::EnsureDir { path } => assert_eq!(path, &segs(&["out", "hello"])),
        _ => panic!("expected the hello directory"),
    }
    match &acts[2] {
        Action::WritePage { path, page } => {
            assert_eq!(path, &segs(&["out", "hello", "index.html"]));
            assert_eq!(page.metadata.title, "Hello");
        }
        _ => panic!("expected the hello page"),
    }
    match &acts[3] {
        Action::EnsureDir { path } => assert_eq!(path, &segs(&["out", "world"])),
        _ => panic!("expected the world directory"),
    }
    match &acts[4] {
        Action::WritePage { path, .. } => {
            assert_eq!(path, &segs(&["out", "world", "index.html"]));
        }
        _ => panic!("expected the world page"),
    }
    match &acts[5] {
        Action::EnsureDir { path } => assert_eq!(path, &segs(&["out"])),
        _ => panic!("the destination root is ensured before its index"),
    }
    match &acts[6] {
        Action::WriteIndex { path, index } => {
            assert_eq!(path, &segs(&["out", "index.html"]));
            // The index lists hello (newer) before world (older).
            let titles: Vec<&str> =
                index.pages.iter().map(|p| p.metadata.title.as_str()).collect();
            assert_eq!(titles, vec!["Hello", "World"]);
            // Synthesized from the destination root's name.
            assert_eq!(index.index.metadata.slug, "out");
            assert_eq!(index.index.metadata.template, "index.html");
            assert_eq!(index.index.metadata.date, NOW);
        }
        _ => panic!("last action should write the root index"),
    }
}

#[test]
fn members_sorted_by_date_descending_stable() {
    // Listing order: 2024-01-01, 2024-03-01, 2024-02-01.  The index must
    // list 2024-03-01, 2024-02-01, 2024-01-01.
    let root = SourceDir {
        name: "src".to_string(),
        files: vec![
            file("jan.md", doc("January", "2024-01-01")),
            file("mar.md", doc("March", "2024-03-01")),
            file("feb.md", doc("February", "2024-02-01")),
        ],
        dirs: Vec::new(),
    };
    let acts = generator().initial_replication(&root, NOW);
    match acts.last().expect("a plan") {
        Action::WriteIndex { index, .. } => {
            let titles: Vec<&str> =
                index.pages.iter().map(|p| p.metadata.title.as_str()).collect();
            assert_eq!(titles, vec!["March", "February", "January"]);
        }
        _ => panic!("last action should write the index"),
    }
}

#[test]
fn equal_dates_keep_listing_order() {
    let root = SourceDir {
        name: "src".to_string(),
        files: vec![
            file("one.md", doc("One", "2024-04-01")),
            file("two.md", doc("Two", "2024-04-01")),
            file("three.md", doc("Three", "2024-05-01")),
        ],
        dirs: Vec::new(),
    };
    let acts = generator().initial_replication(&root, NOW);
    match acts.last().expect("a plan") {
        Action::WriteIndex { index, .. } => {
            let titles: Vec<&str> =
                index.pages.iter().map(|p| p.metadata.title.as_str()).collect();
            assert_eq!(titles, vec!["Three", "One", "Two"]);
        }
        _ => panic!("last action should write the index"),
    }
}

#[test]
fn new_directory_generates_members_then_index() {
    // A directory with two content files yields the two slug outputs first
    // and its own index last.
    let dir = SourceDir {
        name: "notes".to_string(),
        files: vec![
            file("a.md", doc("Alpha", "2024-06-01")),
            file("b.md", doc("Beta", "2024-05-01")),
        ],
        dirs: Vec::new(),
    };
    let g = generator();
    let path = segs(&["src", "notes"]);
    let acts = g.replicate_folder(&path, &dir, NOW);
    assert_eq!(acts.len(), 6);
    match &acts[1] {
        Action::WritePage { path, .. } => {
            assert_eq!(path, &segs(&["out", "notes", "alpha", "index.html"]));
        }
        _ => panic!("expected the alpha page"),
    }
    match &acts[3] {
        Action::WritePage { path, .. } => {
            assert_eq!(path, &segs(&["out", "notes", "beta", "index.html"]));
        }
        _ => panic!("expected the beta page"),
    }
    match &acts[5] {
        Action::WriteIndex { path, index } => {
            assert_eq!(path, &segs(&["out", "notes", "index.html"]));
            assert_eq!(index.pages.len(), 2);
            assert_eq!(index.index.metadata.title, "notes");
        }
        _ => panic!("index must come after both members"),
    }
}

#[test]
fn nested_directories_come_before_parent_members() {
    let root = SourceDir {
        name: "src".to_string(),
        files: vec![file("top.md", doc("Top", "2024-06-01"))],
        dirs: vec![SourceDir {
            name: "inner".to_string(),
            files: vec![file("deep.md", doc("Deep", "2024-06-01"))],
            dirs: Vec::new(),
        }],
    };
    let acts = generator().initial_replication(&root, NOW);
    // Wipe, then the inner subtree, then the top page, then the root index.
    assert_eq!(acts.len(), 9);
    match &acts[2] {
        Action::WritePage { path, .. } => {
            assert_eq!(path, &segs(&["out", "inner", "deep", "index.html"]));
        }
        _ => panic!("inner page should come first"),
    }
    match &acts[4] {
        Action::WriteIndex { path, index } => {
            assert_eq!(path, &segs(&["out", "inner", "index.html"]));
            assert_eq!(index.index.metadata.title, "inner");
        }
        _ => panic!("inner index should close the subtree"),
    }
    match &acts[8] {
        Action::WriteIndex { path, index } => {
            assert_eq!(path, &segs(&["out", "index.html"]));
            // Nested documents belong to their own directory, not this one.
            assert_eq!(index.pages.len(), 1);
            assert_eq!(index.pages[0].metadata.title, "Top");
        }
        _ => panic!("root index should close the plan"),
    }
}

#[test]
fn index_document_is_parsed_like_a_page() {
    let root = SourceDir {
        name: "src".to_string(),
        files: vec![
            file(
                "index.md",
                "---\ntitle: Front\ndate: 2024-06-01T00:00:00+00:00\npublicated: true\ntemplate: front.html\n---\nWelcome\n"
                    .to_string(),
            ),
        ],
        dirs: Vec::new(),
    };
    let acts = generator().initial_replication(&root, NOW);
    // index.md is itself a content document too: it gets its own slug
    // output before the directory index.
    match acts.last().expect("a plan") {
        Action::WriteIndex { index, .. } => {
            assert_eq!(index.index.metadata.title, "Front");
            assert_eq!(index.index.metadata.template, "front.html");
            assert!(index.index.content.contains("Welcome"));
            assert_eq!(index.pages.len(), 1);
        }
        _ => panic!("last action should write the index"),
    }
}

#[test]
fn invalid_member_is_dropped_siblings_proceed() {
    let root = SourceDir {
        name: "src".to_string(),
        files: vec![
            file("bad.md", "no header at all".to_string()),
            file("good.md", doc("Good", "2024-06-01")),
        ],
        dirs: Vec::new(),
    };
    let acts = generator().initial_replication(&root, NOW);
    // Wipe, good dir, good page, destination dir, index.
    assert_eq!(acts.len(), 5);
    match acts.last().expect("a plan") {
        Action::WriteIndex { index, .. } => {
            assert_eq!(index.pages.len(), 1);
            assert_eq!(index.pages[0].metadata.title, "Good");
        }
        _ => panic!("last action should write the index"),
    }
}

#[test]
fn non_content_files_are_ignored() {
    let root = SourceDir {
        name: "src".to_string(),
        files: vec![
            file("README", "not content".to_string()),
            file("notes.txt", "not content".to_string()),
            file(".md", "hidden, no stem".to_string()),
        ],
        dirs: Vec::new(),
    };
    let acts = generator().initial_replication(&root, NOW);
    assert_eq!(acts.len(), 3);
    match acts.last().expect("a plan") {
        Action::WriteIndex { index, .. } => assert!(index.pages.is_empty()),
        _ => panic!("last action should write the index"),
    }
}

#[test]
fn duplicate_slugs_overwrite_in_plan_order() {
    // Two sources mapping to one slug: both writes stand in the plan, the
    // later one replacing the earlier output.
    let root = SourceDir {
        name: "src".to_string(),
        files: vec![
            file("a.md", doc("Same", "2024-06-01")),
            file("b.md", doc("Same", "2024-05-01")),
        ],
        dirs: Vec::new(),
    };
    let acts = generator().initial_replication(&root, NOW);
    let writes: Vec<&Vec<String>> = acts
        .iter()
        .filter_map(|a| match a {
            Action::WritePage { path, .. } => Some(path),
            _ => None,
        })
        .collect();
    assert_eq!(writes.len(), 2);
    assert_eq!(writes[0], writes[1]);
}
