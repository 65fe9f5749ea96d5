use sitemirror::config::Config;
use sitemirror::errors::ConfigIssue;
use sitemirror::errors::MirrorError;
use sitemirror::events::FsEvent;
use sitemirror::events::FsEventKind;
use sitemirror::events::RouteAction;
use sitemirror::generator::Generator;
use sitemirror::site::Site;

fn site() -> Site {
    Site {
        url: String::new(),
        language: String::new(),
        language_direction: String::new(),
        theme: String::new(),
        title: String::new(),
        description: String::new(),
        author: String::new(),
        avatar: String::new(),
        email: String::new(),
        telegram: None,
        mastodon: None,
        socials: None,
    }
}

fn config(source: &str, destination: &str) -> Config {
    Config {
        source: source.to_string(),
        destination: destination.to_string(),
        assets: "/assets".to_string(),
        site: site(),
    }
}

fn generator() -> Generator {
    Generator::new(config("/src", "/out"))
}

fn segs(parts: &[&str]) -> Vec<String> {
    parts.iter().map(|s| s.to_string()).collect()
}

#[test]
fn remove_file_deletes_exactly_the_counterpart() {
    let event = FsEvent {
        kind: FsEventKind::RemoveFile,
        paths: vec!["/src/posts/a.md".to_string()],
    };
    let acts = generator().replicate(&event);
    assert_eq!(acts.len(), 1);
    match &acts[0] {
        RouteAction::DeleteFile { destination } => {
            assert_eq!(destination, &segs(&["out", "posts", "a.md"]));
        }
        _ => panic!("a removed file maps to one delete of its counterpart"),
    }
}

#[test]
fn remove_folder_deletes_the_mirrored_subtree() {
    let event = FsEvent {
        kind: FsEventKind::RemoveFolder,
        paths: vec!["/src/posts".to_string()],
    };
    let acts = generator().replicate(&event);
    assert_eq!(acts.len(), 1);
    match &acts[0] {
        RouteAction::DeleteFolder { destination } => {
            assert_eq!(destination, &segs(&["out", "posts"]));
        }
        _ => panic!("a removed folder maps to one recursive delete"),
    }
}

#[test]
fn create_folder_requests_a_new_walk() {
    let event = FsEvent {
        kind: FsEventKind::CreateFolder,
        paths: vec!["/src/new".to_string()],
    };
    let acts = generator().replicate(&event);
    assert_eq!(acts.len(), 1);
    match &acts[0] {
        RouteAction::MirrorFolder { source } => {
            assert_eq!(source, &segs(&["src", "new"]));
        }
        _ => panic!("a created folder maps to one mirror request"),
    }
}

#[test]
fn create_file_and_modify_are_logged_only() {
    let g = generator();
    let created = FsEvent {
        kind: FsEventKind::CreateFile,
        paths: vec!["/src/a.md".to_string()],
    };
    assert!(g.replicate(&created).is_empty());
    let modified = FsEvent {
        kind: FsEventKind::Modify,
        paths: vec!["/src/a.md".to_string()],
    };
    assert!(g.replicate(&modified).is_empty());
    let other = FsEvent {
        kind: FsEventKind::Other,
        paths: vec!["/src/a.md".to_string()],
    };
    assert!(g.replicate(&other).is_empty());
}

#[test]
fn every_reported_path_is_routed() {
    let event = FsEvent {
        kind: FsEventKind::RemoveFile,
        paths: vec!["/src/a.md".to_string(), "/src/b.md".to_string()],
    };
    let acts = generator().replicate(&event);
    assert_eq!(acts.len(), 2);
}

#[test]
fn config_validation() {
    assert!(config("/src", "/out").validate().is_ok());
    assert_eq!(
        config("src", "/out").validate(),
        Err(MirrorError::Config(ConfigIssue::SourceNotAbsolute))
    );
    assert_eq!(
        config("/src", "out").validate(),
        Err(MirrorError::Config(ConfigIssue::DestinationNotAbsolute))
    );
    assert_eq!(
        config("/src", "/src/out").validate(),
        Err(MirrorError::Config(ConfigIssue::Nested))
    );
    assert_eq!(
        config("/a/b", "/a").validate(),
        Err(MirrorError::Config(ConfigIssue::Nested))
    );
    assert_eq!(
        config("/same", "/same").validate(),
        Err(MirrorError::Config(ConfigIssue::Nested))
    );
    // A shared name prefix is not nesting.
    assert!(config("/src", "/srcout").validate().is_ok());
}
