//! Finding the run command's process in the operating system's process table.
use vstd::prelude::*;

use crate::text::{contains_text, has_infix, name_listed, views};

verus! {

/// One row of a process table snapshot.
#[derive(Clone, Debug, PartialEq)]
pub struct ProcessEntry {
    pub pid: u32,
    pub name: String,
}

/// The pid of the first row of `table` whose name is one of `names`.
pub open spec fn first_match(table: Seq<ProcessEntry>, names: Seq<Seq<char>>) -> Option<u32>
    decreases table.len(),
{
    if table.len() == 0 {
        None
    } else if names.contains(table[0].name@) {
        Some(table[0].pid)
    } else {
        first_match(table.skip(1), names)
    }
}

/// Picks the process whose name equals one of the candidate `names`: the
/// first such row of the snapshot `table`. On a given snapshot the choice is
/// always the same, even when several rows match.
pub fn get_executable_id(table: &Vec<ProcessEntry>, names: &Vec<String>) -> (r: Option<u32>)
    ensures
        r == first_match(table@, views(names@)),
{
    let ghost nv = views(names@);
    let mut i: usize = 0;
    assert(table@.skip(0) =~= table@);
    while i < table.len()
        invariant
            i <= table.len(),
            nv == views(names@),
            first_match(table@, nv) == first_match(table@.skip(i as int), nv),
        decreases table.len() - i,
    {
        let ghost rest = table@.skip(i as int);
        assert(rest[0] == table@[i as int]);
        assert(rest.skip(1) =~= table@.skip(i + 1));
        if name_listed(names, &table[i].name) {
            return Some(table[i].pid);
        }
        i = i + 1;
    }
    assert(table@.skip(i as int).len() == 0);
    None
}

/// When rows `i` and `j` of a snapshot both carry a candidate name and no
/// row before `i` does, exactly one pid is picked: that of row `i`.
pub proof fn lemma_first_of_two_matches_is_picked(
    table: Seq<ProcessEntry>,
    names: Seq<Seq<char>>,
    i: int,
    j: int,
)
    requires
        0 <= i < j < table.len(),
        names.contains(table[i].name@),
        names.contains(table[j].name@),
        forall|k: int| 0 <= k < i ==> !names.contains(#[trigger] table[k].name@),
    ensures
        first_match(table, names) == Some(table[i].pid),
    decreases i,
{
    if i > 0 {
        let rest = table.skip(1);
        assert forall|k: int| 0 <= k < i - 1 implies !names.contains(#[trigger] rest[k].name@) by {
            assert(rest[k] == table[k + 1]);
        }
        assert(rest[i - 1] == table[i]);
        assert(rest[j - 1] == table[j]);
        assert(!names.contains(table[0].name@));
        lemma_first_of_two_matches_is_picked(rest, names, i - 1, j - 1);
    }
}

/// The first of `file_names` that is an executable of the platform, or the
/// empty string. Only Windows executables are recognised by name, by the
/// `.exe` they contain.
pub open spec fn first_executable(file_names: Seq<Seq<char>>, windows: bool) -> Seq<char>
    decreases file_names.len(),
{
    if !windows || file_names.len() == 0 {
        Seq::empty()
    } else if has_infix(file_names[0], ".exe"@) {
        file_names[0]
    } else {
        first_executable(file_names.skip(1), windows)
    }
}

/// Picks the executable's name from the names of the files in the build
/// output directory: the first that contains `.exe` on Windows, else the
/// empty string.
pub fn get_executable_from_dir(file_names: &Vec<String>, windows: bool) -> (r: String)
    ensures
        r@ == first_executable(views(file_names@), windows),
{
    if !windows {
        return String::new();
    }
    let ghost fv = views(file_names@);
    let mut i: usize = 0;
    assert(fv.skip(0) =~= fv);
    while i < file_names.len()
        invariant
            windows,
            i <= file_names.len(),
            fv == views(file_names@),
            first_executable(fv, windows) == first_executable(fv.skip(i as int), windows),
        decreases file_names.len() - i,
    {
        let ghost rest = fv.skip(i as int);
        assert(rest[0] == file_names@[i as int]@);
        assert(rest.skip(1) =~= fv.skip(i + 1));
        if contains_text(file_names[i].as_str(), ".exe") {
            return file_names[i].clone();
        }
        i = i + 1;
    }
    assert(fv.skip(i as int).len() == 0);
    String::new()
}

/// The process names of the package `name`.
pub open spec fn package_names(name: Seq<char>, windows: bool) -> Seq<Seq<char>> {
    if windows {
        seq![name + ".exe"@]
    } else {
        seq![name]
    }
}

/// The process names that the run command's program goes by, given the
/// package name that the project declares: on Windows the name with `.exe`
/// added, elsewhere the name itself.
pub fn package_candidates(package_name: &String, windows: bool) -> (r: Vec<String>)
    ensures
        views(r@) == package_names(package_name@, windows),
{
    let mut r: Vec<String> = Vec::new();
    if windows {
        let name = package_name.clone().concat(".exe");
        r.push(name);
    } else {
        r.push(package_name.clone());
    }
    assert(views(r@) =~= seq![r@[0]@]);
    r
}

#[verifier::external_type_specification]
#[verifier::external_body]
pub struct ExSystem(sysinfo::System);

#[verifier::external_type_specification]
#[verifier::external_body]
pub struct ExProcess(sysinfo::Process);

/// Relies on sysinfo::System::refresh_processes: reloads every process of
/// the machine and drops those that have ended.
#[verifier::external_body]
fn refresh_process_table(sys: &mut sysinfo::System) {
    sys.refresh_processes(sysinfo::ProcessesToUpdate::All, true);
}

/// Relies on sysinfo::System::processes: the pid and name of each process of
/// the table, in the order in which its map walks them.
#[verifier::external_body]
fn process_rows(sys: &sysinfo::System) -> (r: Vec<ProcessEntry>) {
    sys.processes().iter().map(
        |(pid, process)|
            ProcessEntry { pid: pid.as_u32(), name: process.name().to_string_lossy().into_owned() },
    ).collect()
}

/// Relies on sysinfo::System::process: the process with the given pid, if
/// the table holds one.
#[verifier::external_body]
fn lookup_process(sys: &sysinfo::System, pid: u32) -> (r: Option<&sysinfo::Process>) {
    sys.process(sysinfo::Pid::from_u32(pid))
}

/// Relies on sysinfo::Process::kill: sends the kill signal; true when the
/// signal was sent.
#[verifier::external_body]
fn send_kill(process: &sysinfo::Process) -> (r: bool) {
    process.kill()
}

/// Reloads the process table and picks the process of the run command from
/// it: the snapshot that was read, and the pid that
/// [`get_executable_id`] picks from that snapshot.
pub fn running_process_id(sys: &mut sysinfo::System, names: &Vec<String>) -> (r: (
    Vec<ProcessEntry>,
    Option<u32>,
))
    ensures
        r.1 == first_match(r.0@, views(names@)),
{
    refresh_process_table(sys);
    let table = process_rows(sys);
    let pid = get_executable_id(&table, names);
    (table, pid)
}

/// The names to look for in the process table: those of the package that the
/// project declares when its name is known, else the executable found in the
/// build output directory's listing, else none.
pub fn candidate_names(package_name: Option<String>, build_listing: &Vec<String>, windows: bool) -> (r:
    Vec<String>)
    ensures
        package_name matches Some(n) ==> views(r@) == package_names(n@, windows),
        package_name is None && first_executable(views(build_listing@), windows).len() == 0
            ==> r@.len() == 0,
        package_name is None && first_executable(views(build_listing@), windows).len() > 0
            ==> views(r@) == seq![first_executable(views(build_listing@), windows)],
{
    match package_name {
        Some(name) => package_candidates(&name, windows),
        None => {
            let exe = get_executable_from_dir(build_listing, windows);
            let mut r: Vec<String> = Vec::new();
            if exe.unicode_len() > 0 {
                r.push(exe);
                assert(views(r@) =~= seq![r@[0]@]);
            }
            r
        },
    }
}

/// What the command runner does while it waits to learn its child's pid.
#[derive(Clone, Debug, PartialEq)]
pub enum IdentifyStep {
    /// Report this pid in a `Watching` event.
    Report(u32),
    /// Look at the process table again after a short pause.
    Poll,
}

/// One step of waiting for the run command's process: with no name to look
/// for, the spawned child's own pid is reported; a process found under a
/// candidate name is reported; if the child has already ended, its own pid is
/// reported, as nothing will appear any more; otherwise the table is polled
/// again.
pub fn identify_step(names: &Vec<String>, found: Option<u32>, child_pid: u32, child_ended: bool) -> (r:
    IdentifyStep)
    ensures
        names@.len() == 0 ==> r == IdentifyStep::Report(child_pid),
        names@.len() > 0 ==> (found matches Some(p) ==> r == IdentifyStep::Report(p)),
        names@.len() > 0 && found is None && child_ended ==> r == IdentifyStep::Report(child_pid),
        names@.len() > 0 && found is None && !child_ended ==> r == IdentifyStep::Poll,
{
    if names.len() == 0 {
        IdentifyStep::Report(child_pid)
    } else {
        match found {
            Some(p) => IdentifyStep::Report(p),
            None => if child_ended {
                IdentifyStep::Report(child_pid)
            } else {
                IdentifyStep::Poll
            },
        }
    }
}

/// Reloads the process table and sends the kill signal to the process `pid`.
/// A process that has already ended is no error: the result is then false.
pub fn terminate_process(sys: &mut sysinfo::System, pid: u32) -> (r: bool) {
    refresh_process_table(sys);
    match lookup_process(sys, pid) {
        Some(process) => send_kill(process),
        None => false,
    }
}

} // verus!
