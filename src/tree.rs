//! Notes, and the note tree made from a recursive listing.

use vstd::prelude::*;

use crate::path::root_prefix;
use crate::text::{chars_of, string_of};

verus! {

broadcast use {
    vstd::seq::group_seq_axioms,
    vstd::std_specs::vec::group_vec_axioms,
};

/// A note as handed to callers: a file (no `children`) or a directory
/// (`children` present, `content` absent).
pub struct Note {
    pub id: String,
    pub name: String,
    pub content: Option<String>,
    pub children: Option<Vec<Note>>,
}

/// What a listing found under a directory, fetched one level after another.
pub enum EntryKind {
    File,
    /// A directory, with what its own listing found.
    Dir(Vec<TreeEntry>),
    /// A directory whose own listing failed.
    Unreadable,
}

/// One item of a recursive listing, with its repository path and its name.
pub struct TreeEntry {
    pub path: String,
    pub name: String,
    pub kind: EntryKind,
}

/// The id of the note stored at a repository path: the path without its
/// leading `notes/`.
pub open spec fn id_of_path(p: Seq<char>) -> Seq<char> {
    if p.len() >= root_prefix().len() && p.subrange(0, root_prefix().len() as int)
        == root_prefix() {
        p.subrange(root_prefix().len() as int, p.len() as int)
    } else {
        p
    }
}

/// `n` is the note listed for the entry `e`: same id and name, no content,
/// and for a directory the notes of its own entries.
pub open spec fn note_of_entry(n: Note, e: TreeEntry) -> bool
    decreases e,
{
    &&& n.id@ == id_of_path(e.path@)
    &&& n.name@ == e.name@
    &&& n.content is None
    &&& match e.kind {
        EntryKind::File => n.children is None,
        EntryKind::Dir(v) => {
            &&& n.children is Some
            &&& notes_of_entries(n.children->0@, v@)
        },
        EntryKind::Unreadable => false,
    }
}

/// `ns` are the notes listed for the entries `es`, in the same order, with
/// each unreadable directory left out.
pub open spec fn notes_of_entries(ns: Seq<Note>, es: Seq<TreeEntry>) -> bool
    decreases es,
{
    if es.len() == 0 {
        ns.len() == 0
    } else if es.last().kind is Unreadable {
        notes_of_entries(ns, es.drop_last())
    } else {
        &&& ns.len() > 0
        &&& note_of_entry(ns.last(), es.last())
        &&& notes_of_entries(ns.drop_last(), es.drop_last())
    }
}

/// The number of leaves among the notes, at every depth.
pub open spec fn leaf_count(ns: Seq<Note>) -> nat
    decreases ns,
{
    if ns.len() == 0 {
        0
    } else {
        leaf_count(ns.drop_last()) + note_leaves(ns.last())
    }
}

/// The number of leaves in the note and below it.
pub open spec fn note_leaves(n: Note) -> nat
    decreases n,
{
    match n.children {
        Some(c) => leaf_count(c@),
        None => 1,
    }
}

/// The number of file entries in a listing, at every depth that could be listed.
pub open spec fn file_count(es: Seq<TreeEntry>) -> nat
    decreases es,
{
    if es.len() == 0 {
        0
    } else {
        file_count(es.drop_last()) + entry_files(es.last())
    }
}

/// The number of file entries in the entry and below it.
pub open spec fn entry_files(e: TreeEntry) -> nat
    decreases e,
{
    match e.kind {
        EntryKind::File => 1,
        EntryKind::Dir(v) => file_count(v@),
        EntryKind::Unreadable => 0,
    }
}

/// No note, at any depth, carries content.
pub open spec fn without_content(ns: Seq<Note>) -> bool
    decreases ns,
{
    if ns.len() == 0 {
        true
    } else {
        without_content(ns.drop_last()) && note_without_content(ns.last())
    }
}

/// Neither the note nor any note below it carries content.
pub open spec fn note_without_content(n: Note) -> bool
    decreases n,
{
    &&& n.content is None
    &&& match n.children {
        Some(c) => without_content(c@),
        None => true,
    }
}

/// The notes of a listing have one leaf for each file entry, at every depth,
/// and neither a directory node nor a leaf carries content.
pub proof fn lemma_listing_leaves(ns: Seq<Note>, es: Seq<TreeEntry>)
    requires
        notes_of_entries(ns, es),
    ensures
        leaf_count(ns) == file_count(es),
        without_content(ns),
    decreases es,
{
    if es.len() == 0 {
    } else if es.last().kind is Unreadable {
        lemma_listing_leaves(ns, es.drop_last());
        assert(entry_files(es.last()) == 0);
    } else {
        lemma_entry_leaves(ns.last(), es.last());
        lemma_listing_leaves(ns.drop_last(), es.drop_last());
    }
}

/// The note listed for one entry has one leaf for each file entry below it,
/// and carries no content at any depth.
pub proof fn lemma_entry_leaves(n: Note, e: TreeEntry)
    requires
        note_of_entry(n, e),
    ensures
        note_leaves(n) == entry_files(e),
        note_without_content(n),
    decreases e,
{
    match e.kind {
        EntryKind::Dir(v) => {
            lemma_listing_leaves(n.children->0@, v@);
        },
        _ => {},
    }
}

/// The name of a directory's marker file.
pub open spec fn marker_name() -> Seq<char> {
    seq!['R', 'E', 'A', 'D', 'M', 'E', '.', 'm', 'd']
}

/// The number of file entries of a listing named `README.md` (`named` true)
/// or otherwise named, at every depth that could be listed.
pub open spec fn files_named(es: Seq<TreeEntry>, named: bool) -> nat
    decreases es,
{
    if es.len() == 0 {
        0
    } else {
        files_named(es.drop_last(), named) + entry_files_named(es.last(), named)
    }
}

/// The number of such file entries in the entry and below it.
pub open spec fn entry_files_named(e: TreeEntry, named: bool) -> nat
    decreases e,
{
    match e.kind {
        EntryKind::File => if (e.name@ == marker_name()) == named {
            1
        } else {
            0
        },
        EntryKind::Dir(v) => files_named(v@, named),
        EntryKind::Unreadable => 0,
    }
}

/// Every file entry is either a marker file or another file.
pub proof fn lemma_files_split(es: Seq<TreeEntry>)
    ensures
        file_count(es) == files_named(es, true) + files_named(es, false),
    decreases es,
{
    if es.len() > 0 {
        lemma_files_split(es.drop_last());
        lemma_entry_files_split(es.last());
    }
}

/// Every file entry below the entry is either a marker file or another file.
pub proof fn lemma_entry_files_split(e: TreeEntry)
    ensures
        entry_files(e) == entry_files_named(e, true) + entry_files_named(e, false),
    decreases e,
{
    if let EntryKind::Dir(v) = e.kind {
        lemma_files_split(v@);
    }
}

/// In a listing that holds no `README.md` file, at any depth, the notes have
/// one leaf for each file entry that is not a `README.md`, and no note
/// carries content.
pub proof fn lemma_listing_leaves_without_markers(ns: Seq<Note>, es: Seq<TreeEntry>)
    requires
        notes_of_entries(ns, es),
        files_named(es, true) == 0,
    ensures
        leaf_count(ns) == files_named(es, false),
        without_content(ns),
{
    lemma_listing_leaves(ns, es);
    lemma_files_split(es);
}

/// The id of the note stored at a repository path.
pub fn id_of(path: &str) -> (r: String)
    ensures
        r@ == id_of_path(path@),
{
    let cs = chars_of(path);
    let root = chars_of("notes/");
    proof {
        reveal_strlit("notes/");
    }
    let n = root.len();
    if cs.len() < n {
        return string_of(&cs);
    }
    let mut i: usize = 0;
    while i < n
        invariant
            cs@ == path@,
            root@ == root_prefix(),
            n == root@.len(),
            n <= cs@.len(),
            i <= n,
            forall|j: int| 0 <= j < i ==> cs@[j] == root@[j],
        decreases n - i,
    {
        if cs[i] != root[i] {
            assert(cs@.subrange(0, n as int)[i as int] == cs@[i as int]);
            assert(cs@.subrange(0, n as int) != root_prefix());
            return string_of(&cs);
        }
        i = i + 1;
    }
    assert(cs@.subrange(0, n as int) == root_prefix());
    let mut rest: Vec<char> = Vec::new();
    crate::text::append_range(&mut rest, &cs, n, cs.len());
    string_of(&rest)
}

/// The notes of a listing: a leaf for each file, a directory node with its
/// children for each directory that could be listed, in the listing's
/// order. A directory whose own listing failed is left out, with what
/// lies below it; no note carries content, since listing fetches no bodies.
pub fn notes_of(entries: &Vec<TreeEntry>) -> (r: Vec<Note>)
    ensures
        notes_of_entries(r@, entries@),
    decreases entries,
{
    let mut out: Vec<Note> = Vec::new();
    let mut i: usize = 0;
    while i < entries.len()
        invariant
            i <= entries@.len(),
            notes_of_entries(out@, entries@.subrange(0, i as int)),
        decreases entries@.len() - i,
    {
        let e = &entries[i];
        let ghost sub = entries@.subrange(0, i + 1);
        assert(sub.drop_last() == entries@.subrange(0, i as int));
        assert(sub.last() == entries@[i as int]);
        match &e.kind {
            EntryKind::File => {
                let note = Note {
                    id: id_of(e.path.as_str()),
                    name: e.name.clone(),
                    content: None,
                    children: None,
                };
                assert(note_of_entry(note, sub.last()));
                let ghost prev = out@;
                out.push(note);
                assert(out@.drop_last() == prev);
                assert(notes_of_entries(out@, sub));
            },
            EntryKind::Dir(v) => {
                assert(decreases_to!(entries => entries@[i as int]));
                let children = notes_of(v);
                let note = Note {
                    id: id_of(e.path.as_str()),
                    name: e.name.clone(),
                    content: None,
                    children: Some(children),
                };
                assert(note_of_entry(note, sub.last()));
                let ghost prev = out@;
                out.push(note);
                assert(out@.drop_last() == prev);
                assert(notes_of_entries(out@, sub));
            },
            EntryKind::Unreadable => {
                assert(notes_of_entries(out@, sub));
            },
        }
        i = i + 1;
    }
    assert(entries@.subrange(0, entries@.len() as int) == entries@);
    out
}

} // verus!
