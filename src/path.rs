//! Note ids, the repository paths they address, and the markers of their
//! ancestor directories.

use vstd::prelude::*;

use crate::text::{append_range, chars_of, string_of};

verus! {

/// The directory under which every note is stored: `notes/`.
pub open spec fn root_prefix() -> Seq<char> {
    seq!['n', 'o', 't', 'e', 's', '/']
}

/// What follows a directory's path in the path of its marker: `/README.md`.
pub open spec fn marker_suffix() -> Seq<char> {
    seq!['/', 'R', 'E', 'A', 'D', 'M', 'E', '.', 'm', 'd']
}

/// The repository path of the note with the given id.
pub open spec fn physical_path(id: Seq<char>) -> Seq<char> {
    root_prefix() + id
}

/// A `..` segment starts at `i`.
pub open spec fn parent_segment_at(id: Seq<char>, i: int) -> bool {
    &&& 0 <= i
    &&& i + 1 < id.len()
    &&& id[i] == '.'
    &&& id[i + 1] == '.'
    &&& (i == 0 || id[i - 1] == '/')
    &&& (i + 2 == id.len() || id[i + 2] == '/')
}

/// An id names a note below the root: it is not empty, and none of its
/// `/`-separated segments is empty or `..`.
pub open spec fn valid_id(id: Seq<char>) -> bool {
    &&& id.len() > 0
    &&& id[0] != '/'
    &&& id[id.len() - 1] != '/'
    &&& forall|i: int| 0 <= i < id.len() - 1 && #[trigger] id[i] == '/' ==> id[i + 1] != '/'
    &&& forall|i: int| !parent_segment_at(id, i)
}

/// The positions of the `/` characters among the first `n` characters of `id`,
/// in increasing order; each ends the path of one ancestor directory.
pub open spec fn slash_positions(id: Seq<char>, n: int) -> Seq<int>
    decreases n,
{
    if n <= 0 {
        seq![]
    } else if id[n - 1] == '/' {
        slash_positions(id, n - 1).push(n - 1)
    } else {
        slash_positions(id, n - 1)
    }
}

/// Where the segment that holds position `n` of `id` starts.
pub open spec fn segment_start(id: Seq<char>, n: int) -> int
    decreases n,
{
    if n <= 0 {
        0
    } else if id[n - 1] == '/' {
        n
    } else {
        segment_start(id, n - 1)
    }
}

/// The ancestor directories of a note, by the positions that end their paths.
pub open spec fn ancestor_ends(id: Seq<char>) -> Seq<int> {
    slash_positions(id, id.len() as int)
}

/// The path of the marker file of the directory `id[..end]`.
pub open spec fn marker_path(id: Seq<char>, end: int) -> Seq<char> {
    root_prefix() + id.subrange(0, end) + marker_suffix()
}

/// A name with its hyphens turned into spaces.
pub open spec fn spaced(name: Seq<char>) -> Seq<char> {
    name.map_values(|c: char| if c == '-' { ' ' } else { c })
}

/// A level-one heading: `# ` and the name with hyphens turned into spaces.
pub open spec fn heading(name: Seq<char>) -> Seq<char> {
    seq!['#', ' '] + spaced(name)
}

/// The body synthesized for the marker of the directory `id[..end]`: a
/// heading made of the directory's own name.
pub open spec fn marker_title(id: Seq<char>, end: int) -> Seq<char> {
    heading(id.subrange(segment_start(id, end), end))
}

/// The marker file of one ancestor directory, with the body it gets when it
/// is synthesized.
pub struct Marker {
    pub path: String,
    pub title: String,
}

/// `ms` holds the markers of the directories ended by `ends`, in that order.
pub open spec fn markers_at(ms: Seq<Marker>, id: Seq<char>, ends: Seq<int>) -> bool {
    &&& ms.len() == ends.len()
    &&& forall|k: int|
        0 <= k < ms.len() ==> {
            &&& #[trigger] ms[k].path@ == marker_path(id, ends[k])
            &&& ms[k].title@ == marker_title(id, ends[k])
        }
}

/// `ms` holds the markers of all ancestor directories of `id`, shallowest first.
pub open spec fn plans_markers(ms: Seq<Marker>, id: Seq<char>) -> bool {
    markers_at(ms, id, ancestor_ends(id))
}

/// Whether `id` is a valid note id.
pub fn is_valid_id(id: &str) -> (r: bool)
    ensures
        r == valid_id(id@),
{
    let cs = chars_of(id);
    let n = cs.len();
    if n == 0 {
        return false;
    }
    if cs[0] == '/' || cs[n - 1] == '/' {
        return false;
    }
    let mut i: usize = 0;
    while i < n
        invariant
            n == cs@.len(),
            n > 0,
            cs@ == id@,
            cs@[0] != '/',
            cs@[n - 1] != '/',
            i <= n,
            forall|j: int| 0 <= j < i && j < n - 1 && #[trigger] cs@[j] == '/' ==> cs@[j + 1] != '/',
            forall|j: int| 0 <= j < i ==> !parent_segment_at(cs@, j),
        decreases n - i,
    {
        if cs[i] == '/' && i + 1 < n && cs[i + 1] == '/' {
            return false;
        }
        if cs[i] == '.' && i + 1 < n && cs[i + 1] == '.' && (i == 0 || cs[i - 1] == '/') && (i + 2
            == n || cs[i + 2] == '/') {
            assert(parent_segment_at(cs@, i as int));
            return false;
        }
        i = i + 1;
    }
    assert forall|j: int| !parent_segment_at(cs@, j) by {
        if 0 <= j && j < n {
        }
    }
    true
}

/// The repository path of the note with the given id: `notes/` and the id.
pub fn physical_path_of(id: &str) -> (r: String)
    ensures
        r@ == physical_path(id@),
{
    let root = String::from_str("notes/");
    proof {
        reveal_strlit("notes/");
    }
    root.concat(id)
}

/// Appends `src[from..to]` to `dst` with each hyphen turned into a space.
fn append_spaced(dst: &mut Vec<char>, src: &Vec<char>, from: usize, to: usize)
    requires
        from <= to <= src@.len(),
    ensures
        final(dst)@ == old(dst)@ + spaced(src@.subrange(from as int, to as int)),
{
    let mut i: usize = from;
    while i < to
        invariant
            from <= i <= to <= src@.len(),
            dst@ == old(dst)@ + spaced(src@.subrange(from as int, i as int)),
        decreases to - i,
    {
        let c = src[i];
        if c == '-' {
            dst.push(' ');
        } else {
            dst.push(c);
        }
        assert(spaced(src@.subrange(from as int, i + 1)) == spaced(
            src@.subrange(from as int, i as int),
        ).push(if c == '-' { ' ' } else { c }));
        i = i + 1;
    }
}

/// The last segment of `id`: the name of the note or directory it addresses.
pub open spec fn last_segment(id: Seq<char>) -> Seq<char> {
    id.subrange(segment_start(id, id.len() as int), id.len() as int)
}

/// The last segment of `id`.
pub fn last_segment_of(id: &str) -> (r: String)
    ensures
        r@ == last_segment(id@),
{
    let cs = chars_of(id);
    let mut start: usize = 0;
    let mut i: usize = 0;
    while i < cs.len()
        invariant
            start <= i <= cs@.len(),
            start as int == segment_start(cs@, i as int),
        decreases cs@.len() - i,
    {
        if cs[i] == '/' {
            start = i + 1;
        }
        i = i + 1;
    }
    let mut out: Vec<char> = Vec::new();
    append_range(&mut out, &cs, start, cs.len());
    string_of(&out)
}

/// The markers of every ancestor directory of the note `id`, from the
/// shallowest to the deepest: for `a/b/c.md`, `notes/a/README.md` titled
/// `# a`, then `notes/a/b/README.md` titled `# b`.
pub fn ancestor_markers(id: &str) -> (r: Vec<Marker>)
    ensures
        plans_markers(r@, id@),
{
    let cs = chars_of(id);
    let root = chars_of("notes/");
    let suffix = chars_of("/README.md");
    proof {
        reveal_strlit("notes/");
        reveal_strlit("/README.md");
    }
    let mut out: Vec<Marker> = Vec::new();
    let mut start: usize = 0;
    let mut i: usize = 0;
    while i < cs.len()
        invariant
            cs@ == id@,
            root@ == root_prefix(),
            suffix@ == marker_suffix(),
            start <= i <= cs@.len(),
            start as int == segment_start(cs@, i as int),
            markers_at(out@, cs@, slash_positions(cs@, i as int)),
        decreases cs@.len() - i,
    {
        if cs[i] == '/' {
            let mut p: Vec<char> = Vec::new();
            append_range(&mut p, &root, 0, root.len());
            append_range(&mut p, &cs, 0, i);
            append_range(&mut p, &suffix, 0, suffix.len());
            let mut t: Vec<char> = Vec::new();
            t.push('#');
            t.push(' ');
            append_spaced(&mut t, &cs, start, i);
            assert(root@.subrange(0, root@.len() as int) == root@);
            assert(suffix@.subrange(0, suffix@.len() as int) == suffix@);
            assert(t@ == heading(cs@.subrange(start as int, i as int)));
            let m = Marker { path: string_of(&p), title: string_of(&t) };
            out.push(m);
            start = i + 1;
        }
        i = i + 1;
    }
    out
}

} // verus!
