use share_mirror::api::{Children, File};
use share_mirror::builder::{BuildStep, TreeBuilder};
use share_mirror::executor::{
    decide_action, download_complete, target_segments, RunReport, Scheduler, TaskAction,
};
use share_mirror::plan::{download_tree, DownloadEntry};
use share_mirror::sanitize::sanitize_share_id;
use share_mirror::tree::{FileNode, Node};

fn file_child(id: &str, name: &str, size: u64, url: &str) -> Children {
    Children {
        id: id.to_string(),
        name: name.to_string(),
        size,
        content_download_url: Some(url.to_string()),
        file: Some(File::default()),
        ..Default::default()
    }
}

fn folder_child(id: &str, name: &str) -> Children {
    Children {
        id: id.to_string(),
        name: name.to_string(),
        ..Default::default()
    }
}

/// Drives a builder against a fixed "remote": a list of (node id, children).
fn discover(
    root_children: Vec<Children>,
    remote: &[(&str, Vec<Children>)],
) -> Vec<share_mirror::tree::ChildEntry> {
    let mut b = TreeBuilder::new(root_children);
    let mut fetches = 0;
    while !b.finished() {
        match b.step() {
            BuildStep::Fetch(id) => {
                let (_, kids) = remote
                    .iter()
                    .find(|(rid, _)| *rid == id.as_str())
                    .expect("fetch asked for an unknown node id");
                b.supply(kids.clone());
                fetches += 1;
            }
            BuildStep::Progress => {}
        }
        assert!(fetches <= remote.len(), "more fetches than folders");
    }
    b.into_tree()
}

#[test]
fn classification_needs_file_marker_and_url() {
    assert!(file_child("1", "a.txt", 3, "http://u").is_file());

    // file marker without any download URL: treated as a folder
    let mut c = file_child("1", "a.txt", 3, "http://u");
    c.content_download_url = None;
    assert!(!c.is_file());

    // file marker with an empty download URL: treated as a folder
    let mut c = file_child("1", "a.txt", 3, "");
    assert!(!c.is_file());

    // URL but no file marker: treated as a folder
    c.content_download_url = Some("http://u".to_string());
    c.file = None;
    assert!(!c.is_file());

    assert!(!folder_child("2", "dir").is_file());
}

#[test]
fn empty_share_finishes_without_fetches() {
    let tree = discover(vec![], &[]);
    assert!(tree.is_empty());
}

#[test]
fn end_to_end_plan_for_nested_share() {
    // Share root: [FolderA(id=1), File1.txt(id=2, size=10, url=U)];
    // FolderA has one child File2.txt(id=3, size=20, url=V).
    let root = vec![
        folder_child("1", "FolderA"),
        file_child("2", "File1.txt", 10, "U"),
    ];
    let remote = [("1", vec![file_child("3", "File2.txt", 20, "V")])];
    let tree = discover(root, &remote);

    assert_eq!(tree.len(), 2);
    assert_eq!(tree[0].id, "1");
    match &tree[0].node {
        Node::Folder(fo) => {
            assert_eq!(fo.name, "FolderA");
            assert_eq!(fo.children.len(), 1);
            assert_eq!(fo.children[0].id, "3");
            match &fo.children[0].node {
                Node::File(f) => {
                    assert_eq!(f.name, "File2.txt");
                    assert_eq!(f.size, 20);
                    assert_eq!(f.content_download_url, "V");
                }
                Node::Folder(_) => panic!("File2.txt came back as a folder"),
            }
        }
        Node::File(_) => panic!("FolderA came back as a file"),
    }
    assert_eq!(tree[1].id, "2");

    // Flatten under `base`: exactly one task per file, each under the
    // folder names leading to it.
    let mut path = vec!["base".to_string()];
    let mut store: Vec<DownloadEntry> = Vec::new();
    download_tree(&tree, &mut path, &mut store);
    assert_eq!(path, vec!["base".to_string()]);

    assert_eq!(store.len(), 2);
    assert_eq!(store[0].file.name, "File2.txt");
    assert_eq!(store[0].file.size, 20);
    assert_eq!(store[0].file.content_download_url, "V");
    assert_eq!(store[0].path, vec!["base".to_string(), "FolderA".to_string()]);
    assert_eq!(store[1].file.name, "File1.txt");
    assert_eq!(store[1].file.size, 10);
    assert_eq!(store[1].file.content_download_url, "U");
    assert_eq!(store[1].path, vec!["base".to_string()]);

    // Final target paths append the file's own name.
    let t0 = target_segments(&store[0]);
    assert_eq!(t0, vec!["base".to_string(), "FolderA".to_string(), "File2.txt".to_string()]);
    let t1 = target_segments(&store[1]);
    assert_eq!(t1, vec!["base".to_string(), "File1.txt".to_string()]);

    // With no pre-existing files both tasks are fresh downloads.
    assert_eq!(decide_action(None, store[0].file.size), TaskAction::Download);
    assert_eq!(decide_action(None, store[1].file.size), TaskAction::Download);
}

#[test]
fn flatten_deeply_nested_folders() {
    let root = vec![folder_child("1", "outer")];
    let remote = [
        ("1", vec![folder_child("2", "inner")]),
        ("2", vec![file_child("3", "deep.bin", 7, "W")]),
    ];
    let tree = discover(root, &remote);

    let mut path: Vec<String> = Vec::new();
    let mut store: Vec<DownloadEntry> = Vec::new();
    download_tree(&tree, &mut path, &mut store);
    assert!(path.is_empty());
    assert_eq!(store.len(), 1);
    assert_eq!(store[0].path, vec!["outer".to_string(), "inner".to_string()]);
    assert_eq!(store[0].file.name, "deep.bin");
}

#[test]
fn flatten_emits_no_task_for_empty_folders() {
    let root = vec![folder_child("1", "empty"), folder_child("2", "alsoempty")];
    let remote = [("1", vec![]), ("2", vec![])];
    let tree = discover(root, &remote);

    let mut path: Vec<String> = Vec::new();
    let mut store: Vec<DownloadEntry> = Vec::new();
    download_tree(&tree, &mut path, &mut store);
    assert!(store.is_empty());
}

#[test]
fn skip_when_existing_size_matches() {
    // An existing file of exactly the recorded size means no download.
    assert_eq!(decide_action(Some(10), 10), TaskAction::Skip);
    assert_eq!(decide_action(Some(0), 0), TaskAction::Skip);
}

#[test]
fn mismatch_triggers_redownload() {
    assert_eq!(decide_action(Some(9), 10), TaskAction::Redownload);
    assert_eq!(decide_action(Some(11), 10), TaskAction::Redownload);
    assert_eq!(decide_action(Some(0), 10), TaskAction::Redownload);
}

#[test]
fn absent_file_triggers_download() {
    assert_eq!(decide_action(None, 10), TaskAction::Download);
    assert_eq!(decide_action(None, 0), TaskAction::Download);
}

#[test]
fn download_completeness_is_exact_size_match() {
    assert!(download_complete(10, 10));
    assert!(!download_complete(9, 10));
    assert!(!download_complete(11, 10));
}

#[test]
fn sanitize_removes_marker_and_separators() {
    let s = sanitize_share_id("s!AVX/u/v!w");
    assert_eq!(s, "s-AVX-u-v-w");
    assert!(!s.contains('!'));
    assert!(!s.contains('/'));
}

#[test]
fn sanitize_keeps_safe_characters() {
    assert_eq!(sanitize_share_id("plain-id_123"), "plain-id_123");
    assert_eq!(sanitize_share_id(""), "");
}

fn dummy_task(n: u64) -> DownloadEntry {
    DownloadEntry {
        file: FileNode {
            name: format!("f{}", n),
            size: n,
            content_download_url: format!("u{}", n),
        },
        path: vec!["base".to_string()],
    }
}

#[test]
fn scheduler_never_exceeds_limit() {
    let tasks: Vec<DownloadEntry> = (0..5u64).map(dummy_task).collect();
    let mut s = Scheduler::new(tasks, 2);

    let a = s.try_start();
    assert!(a.is_some());
    let b = s.try_start();
    assert!(b.is_some());
    assert_eq!(s.in_flight, 2);

    // At the cap: no third task is handed out.
    assert!(s.try_start().is_none());
    assert_eq!(s.in_flight, 2);

    s.finish_one();
    assert_eq!(s.in_flight, 1);
    assert!(s.try_start().is_some());
    assert_eq!(s.in_flight, 2);

    // Drain the rest, checking the bound throughout.
    let mut started = 3;
    loop {
        s.finish_one();
        match s.try_start() {
            Some(_) => started += 1,
            None => break,
        }
        assert!(s.in_flight <= s.limit);
    }
    while s.in_flight > 0 {
        s.finish_one();
    }
    assert_eq!(started, 5);
    assert!(s.pending.is_empty());
}

#[test]
fn scheduler_with_limit_one_is_sequential() {
    let tasks: Vec<DownloadEntry> = (0..3u64).map(dummy_task).collect();
    let mut s = Scheduler::new(tasks, 1);
    for _ in 0..3 {
        assert!(s.try_start().is_some());
        assert!(s.try_start().is_none());
        assert_eq!(s.in_flight, 1);
        s.finish_one();
    }
    assert!(s.try_start().is_none());
}

#[test]
fn run_report_counts_and_verdict() {
    let mut r = RunReport::new();
    assert!(r.all_ok());
    r.record_skip();
    r.record_download();
    r.record_download();
    assert!(r.all_ok());
    assert_eq!((r.skipped, r.downloaded, r.failed), (1, 2, 0));
    r.record_failure();
    assert!(!r.all_ok());
    assert_eq!((r.skipped, r.downloaded, r.failed), (1, 2, 1));
}
