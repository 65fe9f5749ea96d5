use sitemirror::action::Action;
use sitemirror::errors::MetaField;
use sitemirror::errors::MirrorError;
use sitemirror::generator::Generator;
use sitemirror::config::Config;
use sitemirror::index::Index;
use sitemirror::site::Site;
use sitemirror::walker::SourceDir;
use sitemirror::walker::SourceFile;

const NOW: i64 = 1_700_000_000;

fn segs(parts: &[&str]) -> Vec<String> {
    parts.iter().map(|s| s.to_string()).collect()
}

#[test]
fn synthesized_index_uses_the_directory_name() {
    let route = segs(&["my-notes"]);
    let destination = segs(&["out", "my-notes"]);
    let ix = Index::read(&route, None, &destination, Vec::new(), NOW)
        .expect("synthesized metadata validates");
    assert_eq!(ix.index.metadata.title, "my notes");
    assert_eq!(ix.index.metadata.excerpt, "my notes");
    assert_eq!(ix.index.metadata.slug, "my-notes");
    assert_eq!(ix.index.metadata.template, "index.html");
    assert_eq!(ix.index.metadata.date, NOW);
    assert!(ix.index.metadata.publicated);
    assert_eq!(ix.index.content, "");
}

#[test]
fn parsed_index_surfaces_validation_errors() {
    let route = segs(&[]);
    let destination = segs(&["out"]);
    let text = "---\ntitle: T\npublicated: true\ntemplate: \"\"\n---\nbody";
    assert!(matches!(
        Index::read(&route, Some(text), &destination, Vec::new(), NOW),
        Err(MirrorError::Validation(MetaField::Template))
    ));
    let absent = "no header";
    assert!(matches!(
        Index::read(&route, Some(absent), &destination, Vec::new(), NOW),
        Err(MirrorError::Parse)
    ));
}

#[test]
fn generate_plans_directory_then_index_file() {
    let route = segs(&[]);
    let destination = segs(&["out"]);
    let ix = Index::read(&route, None, &destination, Vec::new(), NOW).expect("validates");
    let acts = ix.generate(&destination);
    assert_eq!(acts.len(), 2);
    assert!(matches!(&acts[0], Action::EnsureDir { path } if path == &segs(&["out"])));
    assert!(
        matches!(&acts[1], Action::WriteIndex { path, .. } if path == &segs(&["out", "index.html"]))
    );
}

fn site() -> Site {
    Site {
        url: String::new(),
        language: String::new(),
        language_direction: String::new(),
        theme: String::new(),
        title: String::new(),
        description: String::new(),
        author: String::new(),
        avatar: String::new(),
        email: String::new(),
        telegram: None,
        mastodon: None,
        socials: None,
    }
}

fn fingerprint(acts: &[Action]) -> Vec<(String, Vec<String>, i64)> {
    acts.iter()
        .map(|a| match a {
            Action::WipeDestination { path } => ("wipe".to_string(), path.clone(), 0),
            Action::EnsureDir { path } => ("dir".to_string(), path.clone(), 0),
            Action::WritePage { path, page } => {
                ("page".to_string(), path.clone(), page.metadata.date)
            }
            Action::WriteIndex { path, index } => {
                ("index".to_string(), path.clone(), index.index.metadata.date)
            }
        })
        .collect()
}

#[test]
fn full_mirror_is_idempotent_when_dates_are_pinned() {
    // Every file carries its date and the directory has its own index
    // document: re-running the full mirror at another time plans the very
    // same actions.
    let doc = "---\ntitle: A\ndate: 2024-06-01T00:00:00+00:00\npublicated: true\ntemplate: page.html\n---\nx";
    let front =
        "---\ntitle: Front\ndate: 2024-06-01T00:00:00+00:00\npublicated: true\ntemplate: index.html\n---\nhome";
    let root = SourceDir {
        name: "src".to_string(),
        files: vec![
            SourceFile { name: "a.md".to_string(), text: doc.to_string() },
            SourceFile { name: "index.md".to_string(), text: front.to_string() },
        ],
        dirs: Vec::new(),
    };
    let g = Generator::new(Config {
        source: "/src".to_string(),
        destination: "/out".to_string(),
        assets: "/assets".to_string(),
        site: site(),
    });
    let first = g.initial_replication(&root, NOW);
    let second = g.initial_replication(&root, NOW + 86_400);
    assert_eq!(fingerprint(&first), fingerprint(&second));
}
