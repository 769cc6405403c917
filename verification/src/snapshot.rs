//! An immutable listing of a directory's children.
//!
//! The snapshot is computed once, from an already-read sequence of
//! `(name, kind)` pairs, and holds its entries sorted ascending by name
//! whatever order the filesystem reported them in. It is never mutated; a
//! fresh snapshot must be taken to observe filesystem changes.

use vstd::prelude::*;
use crate::order::lex_le;
use crate::order::lex_le_exec;
use crate::order::lemma_lex_le_total;
use crate::order::lemma_lex_le_trans;

verus! {

broadcast use {vstd::seq_lib::group_to_multiset_ensures, vstd::multiset::group_multiset_axioms};

/// What a directory child is: a nested directory or a plain file.
#[derive(Clone, Copy, PartialEq, Eq, Structural, Debug)]
pub enum EntryKind {
    Directory,
    File,
}

/// One filesystem child: its name and its kind. Immutable once constructed.
#[derive(Debug)]
pub struct DirectoryEntry {
    pub name: String,
    pub kind: EntryKind,
}

impl DirectoryEntry {
    /// Builds an entry from its name and kind.
    pub fn new(name: String, kind: EntryKind) -> (e: DirectoryEntry)
        ensures
            e.name@ == name@,
            e.kind == kind,
    {
        DirectoryEntry { name, kind }
    }
}

/// The entries stand in ascending lexicographic order of their names.
pub open spec fn sorted_by_name(s: Seq<DirectoryEntry>) -> bool {
    forall|i: int, j: int|
        0 <= i < j < s.len() ==> lex_le(#[trigger] s[i].name@, #[trigger] s[j].name@)
}

/// Places `e` before the first strictly larger name of the sorted `v`,
/// keeping `v` sorted and adding exactly `e` to its contents.
fn insert_sorted(v: Vec<DirectoryEntry>, e: DirectoryEntry) -> (r: Vec<DirectoryEntry>)
    requires
        sorted_by_name(v@),
    ensures
        sorted_by_name(r@),
        r@.to_multiset() == v@.to_multiset().insert(e),
{
    let ghost s: Seq<DirectoryEntry> = v@;
    let mut out = v;
    let mut p: usize = 0;
    while p < out.len() && lex_le_exec(out[p].name.as_str(), e.name.as_str())
        invariant
            p <= out@.len(),
            out@ == s,
            sorted_by_name(s),
            forall|k: int| 0 <= k < p ==> lex_le(#[trigger] s[k].name@, e.name@),
        decreases out@.len() - p,
    {
        p = p + 1;
    }
    proof {
        assert forall|k: int| p <= k < s.len() implies lex_le(
            e.name@,
            #[trigger] s[k].name@,
        ) by {
            lemma_lex_le_total(s[p as int].name@, e.name@);
            if k > p {
                lemma_lex_le_trans(e.name@, s[p as int].name@, s[k].name@);
            }
        }
    }
    out.insert(p, e);
    proof {
        let a = s.subrange(0, p as int);
        let b = s.subrange(p as int, s.len() as int);
        s.insert_ensures(p as int, e);
        assert(out@ == a.push(e) + b);
        vstd::seq_lib::lemma_multiset_commutative(a.push(e), b);
        vstd::seq_lib::lemma_multiset_commutative(a, b);
        assert(a + b =~= s);
        assert(out@.to_multiset() =~= s.to_multiset().insert(e));
        assert forall|i: int, j: int| 0 <= i < j < out@.len() implies lex_le(
            #[trigger] out@[i].name@,
            #[trigger] out@[j].name@,
        ) by {
            if j < p {
            } else if i < p && j == p {
            } else if i < p && j > p {
            } else if i == p {
            } else {
                assert(out@[i] == s[i - 1]);
                assert(out@[j] == s[j - 1]);
            }
        }
    }
    out
}

/// Sorts entries ascending by name; the result holds exactly the same
/// entries, whatever order they arrived in.
pub fn sort_entries(entries: Vec<DirectoryEntry>) -> (r: Vec<DirectoryEntry>)
    ensures
        sorted_by_name(r@),
        r@.to_multiset() == entries@.to_multiset(),
        r@.len() == entries@.len(),
{
    let ghost orig: Seq<DirectoryEntry> = entries@;
    let mut rest = entries;
    let mut out: Vec<DirectoryEntry> = Vec::new();
    proof {
        assert(out@.to_multiset().add(rest@.to_multiset()) =~= orig.to_multiset());
    }
    while rest.len() > 0
        invariant
            sorted_by_name(out@),
            out@.to_multiset().add(rest@.to_multiset()) == orig.to_multiset(),
        decreases rest@.len(),
    {
        let ghost before: Seq<DirectoryEntry> = rest@;
        let e = rest.pop().unwrap();
        proof {
            assert(before =~= rest@.push(e));
        }
        out = insert_sorted(out, e);
        proof {
            assert(out@.to_multiset().add(rest@.to_multiset()) =~= orig.to_multiset());
        }
    }
    proof {
        assert(rest@.to_multiset().len() == 0);
        assert(out@.to_multiset() =~= orig.to_multiset());
        assert(out@.to_multiset().len() == out@.len());
        assert(orig.to_multiset().len() == orig.len());
    }
    out
}

/// An immutable listing of a directory: the absolute path it was taken at,
/// and its children sorted ascending by name.
#[derive(Debug)]
pub struct DirectorySnapshot {
    root_path: String,
    entries: Vec<DirectoryEntry>,
}

impl DirectorySnapshot {
    /// The path the snapshot was taken at.
    pub closed spec fn spec_root(self) -> Seq<char> {
        self.root_path@
    }

    /// The entries, in the order the snapshot holds them.
    pub closed spec fn spec_entries(self) -> Seq<DirectoryEntry> {
        self.entries@
    }

    /// The snapshot's entries stand in ascending name order.
    pub open spec fn wf(self) -> bool {
        sorted_by_name(self.spec_entries())
    }

    /// Takes a snapshot from an already-read listing: remembers the path and
    /// sorts the entries by name, whatever order the collaborator reported.
    pub fn new(root_path: String, entries: Vec<DirectoryEntry>) -> (s: DirectorySnapshot)
        ensures
            s.wf(),
            s.spec_root() == root_path@,
            s.spec_entries().to_multiset() == entries@.to_multiset(),
            s.spec_entries().len() == entries@.len(),
    {
        let sorted = sort_entries(entries);
        DirectorySnapshot { root_path, entries: sorted }
    }

    /// The path the snapshot was taken at.
    pub fn root_path(&self) -> (r: &String)
        ensures
            r@ == self.spec_root(),
    {
        &self.root_path
    }

    /// The entries, sorted ascending by name.
    pub fn entries(&self) -> (r: &Vec<DirectoryEntry>)
        ensures
            r@ == self.spec_entries(),
    {
        &self.entries
    }
}

} // verus!
