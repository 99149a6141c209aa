//! File entries and manifests: one scan pass over a directory tree.
use vstd::prelude::*;

verus! {

/// The mathematical value of a [`Files`] entry.
pub struct FileEntry {
    pub name: Seq<char>,
    pub path: Seq<char>,
    pub time: int,
    pub extension: Seq<char>,
}

/// One tracked file as seen by a scan: its name, its full path, its
/// modification time in nanoseconds relative to the Unix epoch, and its
/// extension (without the dot; empty when the file has none).
///
/// Two entries are equal when all four fields are equal, so a changed
/// modification time makes otherwise identical entries differ.
#[derive(Clone, Debug)]
pub struct Files {
    pub name: String,
    pub path: String,
    pub time: i128,
    pub extension: String,
}

impl View for Files {
    type V = FileEntry;

    open spec fn view(&self) -> FileEntry {
        FileEntry {
            name: self.name@,
            path: self.path@,
            time: self.time as int,
            extension: self.extension@,
        }
    }
}

impl PartialEq for Files {
    fn eq(&self, other: &Files) -> (r: bool)
        ensures
            r == (self@ == other@),
    {
        self.time == other.time && self.name == other.name && self.path == other.path
            && self.extension == other.extension
    }
}

impl vstd::std_specs::cmp::PartialEqSpecImpl for Files {
    open spec fn obeys_eq_spec() -> bool {
        true
    }

    open spec fn eq_spec(&self, other: &Files) -> bool {
        self@ == other@
    }
}

impl Eq for Files {

}

/// The view of a manifest: the entries of one scan, in scan order.
pub open spec fn manifest_view(m: Seq<Files>) -> Seq<FileEntry> {
    m.map_values(|f: Files| f@)
}

/// The entries of `current` that do not occur, with all fields equal, in
/// `previous`, in the order of `current`. Entries of `previous` that are
/// missing from `current` are not reported.
pub open spec fn changed_entries(current: Seq<FileEntry>, previous: Seq<FileEntry>) -> Seq<
    FileEntry,
>
    decreases current.len(),
{
    if current.len() == 0 {
        Seq::empty()
    } else {
        let rest = changed_entries(current.drop_last(), previous);
        if previous.contains(current.last()) {
            rest
        } else {
            rest.push(current.last())
        }
    }
}

/// Whether no two entries of a manifest share a path, as in one scan pass.
pub open spec fn paths_unique(m: Seq<Files>) -> bool {
    forall|i: int, j: int| 0 <= i < m.len() && 0 <= j < m.len() && i != j ==> m[i].path@ != m[j].path@
}

proof fn lemma_changed_concat(a: Seq<FileEntry>, b: Seq<FileEntry>, p: Seq<FileEntry>)
    ensures
        changed_entries(a + b, p) == changed_entries(a, p) + changed_entries(b, p),
    decreases b.len(),
{
    if b.len() == 0 {
        assert(a + b =~= a);
        assert(changed_entries(a, p) + changed_entries(b, p) =~= changed_entries(a, p));
    } else {
        assert((a + b).drop_last() =~= a + b.drop_last());
        assert((a + b).last() == b.last());
        lemma_changed_concat(a, b.drop_last(), p);
        if p.contains(b.last()) {
        } else {
            assert(changed_entries(a, p) + changed_entries(b.drop_last(), p).push(b.last())
                =~= (changed_entries(a, p) + changed_entries(b.drop_last(), p)).push(b.last()));
        }
    }
}

proof fn lemma_changed_member(c: Seq<FileEntry>, p: Seq<FileEntry>, x: FileEntry)
    ensures
        changed_entries(c, p).contains(x) <==> (c.contains(x) && !p.contains(x)),
    decreases c.len(),
{
    if c.len() > 0 {
        lemma_changed_member(c.drop_last(), p, x);
        let rest = changed_entries(c.drop_last(), p);
        if c.contains(x) && !c.drop_last().contains(x) {
            let j = choose|j: int| 0 <= j < c.len() && c[j] == x;
            if j < c.len() - 1 {
                assert(c.drop_last()[j] == x);
            }
        }
        if c.drop_last().contains(x) {
            let j = choose|j: int| 0 <= j < c.drop_last().len() && c.drop_last()[j] == x;
            assert(c[j] == x);
        }
        if !p.contains(c.last()) {
            assert(rest.push(c.last()).contains(x) <==> (rest.contains(x) || x == c.last())) by {
                if rest.push(c.last()).contains(x) && x != c.last() {
                    let j = choose|j: int|
                        0 <= j < rest.push(c.last()).len() && rest.push(c.last())[j] == x;
                    assert(rest[j] == x);
                }
                if x == c.last() {
                    assert(rest.push(c.last())[rest.len() as int] == x);
                }
                if rest.contains(x) {
                    let j = choose|j: int| 0 <= j < rest.len() && rest[j] == x;
                    assert(rest.push(c.last())[j] == x);
                }
            }
        }
        assert(c[c.len() - 1] == c.last());
    }
}

/// Comparing a manifest with itself reports nothing.
pub proof fn lemma_diff_of_same_manifest_is_empty(m: Seq<Files>)
    ensures
        changed_entries(manifest_view(m), manifest_view(m)) == Seq::<FileEntry>::empty(),
{
    let v = manifest_view(m);
    assert forall|x: FileEntry| !changed_entries(v, v).contains(x) by {
        lemma_changed_member(v, v, x);
    }
    let r = changed_entries(v, v);
    if r.len() > 0 {
        assert(r.contains(r[0]));
    }
    assert(r =~= Seq::<FileEntry>::empty());
}

/// Entries appended to a manifest, none of which it already holds, are
/// reported exactly, in their order, when the extended manifest is compared
/// with the manifest it extends.
pub proof fn lemma_diff_reports_added_entries(m: Seq<Files>, added: Seq<Files>)
    requires
        forall|i: int| 0 <= i < added.len() ==> !manifest_view(m).contains(#[trigger] added[i]@),
    ensures
        changed_entries(manifest_view(m + added), manifest_view(m)) == manifest_view(added),
{
    let v = manifest_view(m);
    let a = manifest_view(added);
    assert(manifest_view(m + added) =~= v + a);
    lemma_changed_concat(v, a, v);
    lemma_diff_of_same_manifest_is_empty(m);
    lemma_changed_all_new(a, v);
    assert(Seq::<FileEntry>::empty() + a =~= a);
}

proof fn lemma_changed_all_new(c: Seq<FileEntry>, p: Seq<FileEntry>)
    requires
        forall|i: int| 0 <= i < c.len() ==> !p.contains(#[trigger] c[i]),
    ensures
        changed_entries(c, p) == c,
    decreases c.len(),
{
    if c.len() > 0 {
        lemma_changed_all_new(c.drop_last(), p);
        assert(c.drop_last().push(c.last()) =~= c);
    }
}

proof fn lemma_changed_all_old(c: Seq<FileEntry>, p: Seq<FileEntry>)
    requires
        forall|i: int| 0 <= i < c.len() ==> p.contains(#[trigger] c[i]),
    ensures
        changed_entries(c, p) == Seq::<FileEntry>::empty(),
    decreases c.len(),
{
    if c.len() > 0 {
        lemma_changed_all_old(c.drop_last(), p);
        assert(p.contains(c[c.len() - 1]));
    }
}

/// In a manifest whose paths are unique, giving one entry a new modification
/// time (and nothing else) makes the comparison report exactly that entry.
pub proof fn lemma_diff_reports_retimed_entry(old: Seq<Files>, i: int, changed: Files)
    requires
        paths_unique(old),
        0 <= i < old.len(),
        changed.name@ == old[i].name@,
        changed.path@ == old[i].path@,
        changed.extension@ == old[i].extension@,
        changed.time != old[i].time,
    ensures
        changed_entries(manifest_view(old.update(i, changed)), manifest_view(old)) == seq![
            changed@,
        ],
{
    let p = manifest_view(old);
    let front = p.take(i);
    let back = p.skip(i + 1);
    assert(manifest_view(old.update(i, changed)) =~= front + seq![changed@] + back);
    assert forall|k: int| 0 <= k < front.len() implies p.contains(#[trigger] front[k]) by {
        assert(p[k] == front[k]);
    }
    assert forall|k: int| 0 <= k < back.len() implies p.contains(#[trigger] back[k]) by {
        assert(p[k + i + 1] == back[k]);
    }
    lemma_changed_all_old(front, p);
    lemma_changed_all_old(back, p);
    assert(!p.contains(changed@)) by {
        if p.contains(changed@) {
            let j = choose|j: int| 0 <= j < p.len() && p[j] == changed@;
            assert(old[j].path@ == old[i].path@);
        }
    }
    lemma_changed_all_new(seq![changed@], p);
    lemma_changed_concat(front, seq![changed@], p);
    lemma_changed_concat(front + seq![changed@], back, p);
    assert(Seq::<FileEntry>::empty() + seq![changed@] + Seq::<FileEntry>::empty() =~= seq![
        changed@,
    ]);
}

/// An entry of the earlier manifest that the later one lacks is never
/// reported: the comparison is not symmetric.
pub proof fn lemma_diff_ignores_removed_entries(new: Seq<Files>, old: Seq<Files>, removed: Files)
    requires
        manifest_view(old).contains(removed@),
        !manifest_view(new).contains(removed@),
    ensures
        !changed_entries(manifest_view(new), manifest_view(old)).contains(removed@),
{
    lemma_changed_member(manifest_view(new), manifest_view(old), removed@);
}

} // verus!
