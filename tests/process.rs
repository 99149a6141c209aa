use watchrs::process::{
    candidate_names, get_executable_from_dir, get_executable_id, identify_step,
    package_candidates, running_process_id, IdentifyStep, ProcessEntry,
};

fn row(pid: u32, name: &str) -> ProcessEntry {
    ProcessEntry { pid, name: String::from(name) }
}

#[test]
fn watch_rs_get_exe_from_dir() {
    // the listing of a build output directory holding one executable
    let listing = vec![String::from("test_exe_0.exe")];
    let exe_name = get_executable_from_dir(&listing, true);
    assert_eq!(exe_name, String::from("test_exe_0.exe"));
}

#[test]
fn watch_rs_test_name() {
    let table = vec![row(4, "explorer.exe"), row(812, "cargo.exe")];
    let pid = get_executable_id(&table, &vec![String::from("cargo.exe")]).unwrap();
    assert_ne!(pid, 0);
}

#[test]
fn identifier_picks_first_of_two_matches() {
    let table = vec![row(1, "init"), row(42, "app"), row(7, "app"), row(9, "sh")];
    let names = vec![String::from("app")];
    let first = get_executable_id(&table, &names);
    assert_eq!(first, Some(42));
    assert_eq!(get_executable_id(&table, &names), first);
}

#[test]
fn identifier_matches_any_candidate() {
    let table = vec![row(5, "b"), row(6, "a")];
    let names = vec![String::from("a"), String::from("b")];
    assert_eq!(get_executable_id(&table, &names), Some(5));
}

#[test]
fn identifier_finds_nothing() {
    let table = vec![row(5, "b")];
    assert_eq!(get_executable_id(&table, &vec![String::from("app")]), None);
    assert_eq!(get_executable_id(&Vec::new(), &vec![String::from("app")]), None);
    assert_eq!(get_executable_id(&table, &Vec::new()), None);
}

#[test]
fn executable_search_rules() {
    let listing = vec![
        String::from("build"),
        String::from("app.d"),
        String::from("app.exe"),
        String::from("other.exe"),
    ];
    assert_eq!(get_executable_from_dir(&listing, true), "app.exe");
    assert_eq!(get_executable_from_dir(&listing, false), "");
    assert_eq!(get_executable_from_dir(&vec![String::from("app")], true), "");
}

#[test]
fn package_candidate_names() {
    assert_eq!(package_candidates(&String::from("app"), true), vec![String::from("app.exe")]);
    assert_eq!(package_candidates(&String::from("app"), false), vec![String::from("app")]);
}

#[test]
fn live_process_table_lookup_matches_its_snapshot() {
    let mut sys = sysinfo::System::new();
    let names = vec![String::from("no-such-process-name")];
    let (table, pid) = running_process_id(&mut sys, &names);
    assert_eq!(pid, None);
    assert_eq!(get_executable_id(&table, &names), pid);
}

#[test]
fn identify_step_rules() {
    let names = vec![String::from("app")];
    let none: Vec<String> = Vec::new();
    assert_eq!(identify_step(&none, Some(9), 100, false), IdentifyStep::Report(100));
    assert_eq!(identify_step(&names, Some(9), 100, true), IdentifyStep::Report(9));
    assert_eq!(identify_step(&names, None, 100, true), IdentifyStep::Report(100));
    assert_eq!(identify_step(&names, None, 100, false), IdentifyStep::Poll);
}

#[test]
fn candidate_name_sources() {
    let listing = vec![String::from("deps"), String::from("app.exe")];
    assert_eq!(
        candidate_names(Some(String::from("web")), &listing, true),
        vec![String::from("web.exe")]
    );
    assert_eq!(
        candidate_names(Some(String::from("web")), &listing, false),
        vec![String::from("web")]
    );
    assert_eq!(candidate_names(None, &listing, true), vec![String::from("app.exe")]);
    assert!(candidate_names(None, &listing, false).is_empty());
}
