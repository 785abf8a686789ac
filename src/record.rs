//! The document record and its rename history.

use vstd::prelude::*;
use crate::text::views;

verus! {

/// The persisted description of one processed document.
pub struct DocumentRecord {
    /// Where the record itself is stored.
    pub json_file_path: String,
    /// The source images, in assembly order.
    pub pages_paths: Vec<String>,
    /// The current name, without extension.
    pub file_name: String,
    /// Names the document has had, without repeats.
    pub file_name_history: Vec<String>,
}

impl DocumentRecord {
    pub open spec fn history(&self) -> Seq<Seq<char>> {
        views(self.file_name_history@)
    }

    pub open spec fn pages(&self) -> Seq<Seq<char>> {
        views(self.pages_paths@)
    }
}

/// A fresh record for a page set, stored at `json_file_path`, with no history.
pub fn new_record(json_file_path: String, pages_paths: Vec<String>, file_name: String) -> (r: DocumentRecord)
    ensures
        r.json_file_path@ == json_file_path@,
        r.pages() == views(pages_paths@),
        r.file_name@ == file_name@,
        r.history().len() == 0,
{
    DocumentRecord { json_file_path, pages_paths, file_name, file_name_history: Vec::new() }
}

/// The history after renaming from `current`: the replaced name is added
/// unless it is already there.
pub open spec fn renamed_history(history: Seq<Seq<char>>, current: Seq<char>) -> Seq<Seq<char>> {
    if history.contains(current) { history } else { history.push(current) }
}

fn contains_name(v: &Vec<String>, name: &String) -> (r: bool)
    ensures
        r == views(v@).contains(name@),
{
    let mut i: usize = 0;
    while i < v.len()
        invariant
            i <= v.len(),
            forall|k: int| 0 <= k < i ==> v@[k]@ != name@,
        decreases v.len() - i,
    {
        if v[i] == *name {
            assert(views(v@)[i as int] == name@);
            return true;
        }
        i = i + 1;
    }
    assert forall|k: int| 0 <= k < views(v@).len() implies views(v@)[k] != name@ by {
        assert(views(v@)[k] == v@[k]@);
    }
    false
}

/// Renames the document. Where `name` is its current name nothing changes and
/// `false` comes back; otherwise the replaced name joins the history as
/// `renamed_history` says, the name is set, and `true` comes back.
pub fn update_file_name(record: &mut DocumentRecord, name: String) -> (changed: bool)
    ensures
        changed == (old(record).file_name@ != name@),
        final(record).json_file_path == old(record).json_file_path,
        final(record).pages_paths == old(record).pages_paths,
        !changed ==> final(record).file_name == old(record).file_name,
        !changed ==> final(record).file_name_history == old(record).file_name_history,
        changed ==> final(record).file_name@ == name@,
        changed ==> final(record).history() == renamed_history(old(record).history(), old(record).file_name@),
{
    if record.file_name == name {
        return false;
    }
    let ghost before = record.history();
    if !contains_name(&record.file_name_history, &record.file_name) {
        let current = record.file_name.clone();
        record.file_name_history.push(current);
        assert(record.history() =~= before.push(old(record).file_name@));
    }
    record.file_name = name;
    true
}

/// Renaming a document first named `a` to `b` and then to `c` (three distinct
/// names) leaves the history `a, b`; renaming it back to `a` then adds only
/// `c`, so `a` stays in the history once.
pub proof fn lemma_rename_chain(a: Seq<char>, b: Seq<char>, c: Seq<char>)
    requires
        a != b,
        b != c,
        a != c,
    ensures
        renamed_history(seq![], a) == seq![a],
        renamed_history(seq![a], b) == seq![a, b],
        renamed_history(seq![a, b], c) == seq![a, b, c],
{
    let h0: Seq<Seq<char>> = seq![];
    assert(!h0.contains(a));
    assert(h0.push(a) =~= seq![a]);
    let s1: Seq<Seq<char>> = seq![a];
    assert(!s1.contains(b)) by {
        assert(s1[0] != b);
    }
    assert(s1.push(b) =~= seq![a, b]);
    let s2: Seq<Seq<char>> = seq![a, b];
    assert(!s2.contains(c)) by {
        assert(s2[0] != c && s2[1] != c);
    }
    assert(s2.push(c) =~= seq![a, b, c]);
}

} // verus!
