use sitemirror::action::Action;
use sitemirror::events::FsEvent;
use sitemirror::events::FsEventKind;
use sitemirror::replicator::PathAction;
use sitemirror::replicator::Replicator;
use sitemirror::walker::SourceDir;
use sitemirror::walker::SourceFile;

const NOW: i64 = 1_700_000_000;

#[test]
fn new_keeps_both_roots() {
    let r = Replicator::new("/src", "/out");
    assert_eq!(r.origin, "/src");
    assert_eq!(r.destination, "/out");
}

#[test]
fn absolute_destination_swaps_the_prefix() {
    let r = Replicator::new("/src", "/out");
    assert_eq!(r.get_absolute_destination("/src/posts/a.md"), "/out/posts/a.md");
    assert_eq!(r.get_absolute_destination("/src"), "/out");
}

#[test]
fn remove_events_map_to_deletes() {
    let r = Replicator::new("/src", "/out");
    let event = FsEvent {
        kind: FsEventKind::RemoveFile,
        paths: vec!["/src/a.md".to_string()],
    };
    let acts = r.replicate(&event);
    assert_eq!(acts.len(), 1);
    match &acts[0] {
        PathAction::DeleteFile { destination } => assert_eq!(destination, "/out/a.md"),
        _ => panic!("a removed file maps to one delete"),
    }
    let event = FsEvent {
        kind: FsEventKind::RemoveFolder,
        paths: vec!["/src/posts".to_string()],
    };
    let acts = r.replicate(&event);
    match &acts[0] {
        PathAction::DeleteFolder { destination } => assert_eq!(destination, "/out/posts"),
        _ => panic!("a removed folder maps to one recursive delete"),
    }
}

#[test]
fn modify_is_logged_only() {
    let r = Replicator::new("/src", "/out");
    let event = FsEvent {
        kind: FsEventKind::Modify,
        paths: vec!["/src/a.md".to_string()],
    };
    assert!(r.replicate(&event).is_empty());
}

#[test]
fn initial_replication_wipes_then_walks() {
    let r = Replicator::new("/src", "/out");
    let root = SourceDir {
        name: "src".to_string(),
        files: vec![SourceFile {
            name: "a.md".to_string(),
            text: "---\ntitle: A\npublicated: true\ntemplate: page.html\n---\nx".to_string(),
        }],
        dirs: Vec::new(),
    };
    let acts = r.initial_replication(&root, NOW);
    assert_eq!(acts.len(), 5);
    assert!(matches!(&acts[0], Action::WipeDestination { .. }));
    assert!(matches!(&acts[4], Action::WriteIndex { .. }));
}
