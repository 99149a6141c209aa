use watchrs::scanner::{is_tracked_extension, ListedEntry, ScanState};
use watchrs::Files;

fn dir(name: &str, path: &str) -> ListedEntry {
    ListedEntry {
        name: String::from(name),
        path: String::from(path),
        is_dir: true,
        time: 0,
        extension: String::new(),
    }
}

fn file(name: &str, path: &str, extension: &str) -> ListedEntry {
    ListedEntry {
        name: String::from(name),
        path: String::from(path),
        is_dir: false,
        time: 7,
        extension: String::from(extension),
    }
}

/// Runs a scan over a fixed tree, given as a lookup from directory path to
/// its listing.
fn run_scan(
    root: &str,
    tree: &[(&str, Vec<ListedEntry>)],
    ignored: &[&str],
    filters: &[&str],
) -> (Vec<Files>, Vec<String>) {
    let ignored: Vec<String> = ignored.iter().map(|s| s.to_string()).collect();
    let filters: Vec<String> = filters.iter().map(|s| s.to_string()).collect();
    let mut state = ScanState::start(&root.to_string(), &ignored);
    let mut visited = Vec::new();
    while let Some(d) = state.next_dir() {
        let listing = tree
            .iter()
            .find(|(p, _)| *p == d)
            .map(|(_, l)| l.clone())
            .unwrap_or_default();
        visited.push(d);
        state.absorb(listing, &ignored, &filters);
    }
    assert!(state.is_done());
    (state.finish(), visited)
}

fn names(files: &[Files]) -> Vec<String> {
    let mut n: Vec<String> = files.iter().map(|f| f.name.clone()).collect();
    n.sort();
    n
}

#[test]
fn scan_prunes_ignored_build_directory() {
    let tree = vec![
        ("/p", vec![dir("src", "/p/src"), dir("target", "/p/target")]),
        (
            "/p/src",
            vec![file("a.txt", "/p/src/a.txt", "txt"), file("b.txt", "/p/src/b.txt", "txt")],
        ),
        ("/p/target", vec![dir("debug", "/p/target/debug")]),
        ("/p/target/debug", vec![file("app.exe", "/p/target/debug/app.exe", "exe")]),
    ];
    let (found, visited) = run_scan("/p", &tree, &["/p/target"], &[]);
    assert_eq!(names(&found), vec!["a.txt".to_string(), "b.txt".to_string()]);
    assert!(!visited.iter().any(|d| d.starts_with("/p/target")));
}

#[test]
fn test_watch_rs_file_discovery() {
    let tree = vec![
        ("/t", vec![dir("ignore_me", "/t/ignore_me"), file("test.txt", "/t/test.txt", "txt")]),
        ("/t/ignore_me", vec![file("test2.txt", "/t/ignore_me/test2.txt", "txt")]),
    ];
    let (found, _) = run_scan("/t", &tree, &[], &[]);
    assert_eq!(found.len(), 2);
}

#[test]
fn scan_ignore_matches_exact_paths_only() {
    let tree = vec![
        ("/p", vec![dir("target", "/p/target")]),
        ("/p/target", vec![dir("debug", "/p/target/debug"), file("x.rs", "/p/target/x.rs", "rs")]),
        ("/p/target/debug", vec![file("app.exe", "/p/target/debug/app.exe", "exe")]),
    ];
    let (found, _) = run_scan("/p", &tree, &["/p/target/debug"], &[]);
    assert_eq!(names(&found), vec!["x.rs".to_string()]);
}

#[test]
fn scan_of_ignored_root_reads_nothing() {
    let tree = vec![("/p", vec![file("a.txt", "/p/a.txt", "txt")])];
    let (found, visited) = run_scan("/p", &tree, &["/p"], &[]);
    assert!(found.is_empty());
    assert!(visited.is_empty());
}

#[test]
fn scan_applies_extension_filter() {
    let tree = vec![(
        "/p",
        vec![
            file("main.rs", "/p/main.rs", "rs"),
            file("notes.md", "/p/notes.md", "md"),
            file("Makefile", "/p/Makefile", ""),
        ],
    )];
    let (found, _) = run_scan("/p", &tree, &[], &["rs"]);
    assert_eq!(names(&found), vec!["main.rs".to_string()]);
    let (found, _) = run_scan("/p", &tree, &[], &[]);
    assert_eq!(found.len(), 3);
}

#[test]
fn scan_entries_keep_listing_fields() {
    let tree = vec![("/p", vec![file("a.txt", "/p/a.txt", "txt")])];
    let (found, _) = run_scan("/p", &tree, &[], &[]);
    assert_eq!(
        found,
        vec![Files {
            name: "a.txt".to_string(),
            path: "/p/a.txt".to_string(),
            time: 7,
            extension: "txt".to_string(),
        }]
    );
}

#[test]
fn tracked_extension_rules() {
    let none: Vec<String> = Vec::new();
    let some = vec!["rs".to_string(), "toml".to_string()];
    assert!(is_tracked_extension(&"md".to_string(), &none));
    assert!(is_tracked_extension(&"toml".to_string(), &some));
    assert!(!is_tracked_extension(&"md".to_string(), &some));
}
