//! A remote repository as a map from paths to bodies, and what the store's
//! operations do against one that answers faithfully.

use vstd::prelude::*;

use crate::error::{GitHubServiceError, NoteServiceError};
use crate::gateway::{ContentItem, ItemKind, Reply, Request};
use crate::path::{
    ancestor_ends, marker_path, marker_suffix, physical_path, slash_positions,
};
use crate::store::{
    create_next, create_started, from_marker, lookup_of, modify_next, revision_found,
    CreatePhase, CreateSession, Lookup, ModifyPhase, ModifySession, Step,
};

verus! {

broadcast use {vstd::seq::group_seq_axioms, vstd::std_specs::vec::group_vec_axioms};

/// `k` is the path of something stored inside the directory `p`.
pub open spec fn lies_below(k: Seq<char>, p: Seq<char>) -> bool {
    k.len() > p.len() && k.subrange(0, p.len() + 1 as int) == p.push('/')
}

/// Something is stored at `p` in a repository that holds `files` (the body
/// of each file, by path): the file `p`, or a file inside the directory `p`.
pub open spec fn occupied(files: Map<Seq<char>, Seq<char>>, p: Seq<char>) -> bool {
    files.contains_key(p) || exists|k: Seq<char>| files.contains_key(k) && lies_below(k, p)
}

/// How a remote that holds `files` answers the requests of a create
/// operation, and what it holds afterwards: a create of an occupied path is
/// refused as a conflict, any other create is committed.
pub open spec fn answer(files: Map<Seq<char>, Seq<char>>, req: Request) -> (
    Reply,
    Map<Seq<char>, Seq<char>>,
) {
    match req {
        Request::CheckExists { path } => (Reply::Exists(occupied(files, path@)), files),
        Request::CreateFile { path, content, .. } => if occupied(files, path@) {
            (Reply::Failed(GitHubServiceError::AlreadyExists), files)
        } else {
            (Reply::Written, files.insert(path@, content@))
        },
        _ => (Reply::Failed(GitHubServiceError::NotFound), files),
    }
}

/// A create operation run against a remote that answers as `answer` says,
/// for at most `fuel` calls: what the remote holds at the end, and the
/// outcome if the operation finished.
pub open spec fn run_create(
    s: CreateSession,
    step: Step,
    files: Map<Seq<char>, Seq<char>>,
    fuel: nat,
) -> (Map<Seq<char>, Seq<char>>, Option<Result<(), NoteServiceError>>)
    decreases fuel,
{
    match step {
        Step::Done(res) => (files, Some(res)),
        Step::Send(req) => if fuel == 0 {
            (files, None)
        } else {
            let (reply, next_files) = answer(files, req);
            let (next, next_step) = create_next(s, reply);
            run_create(next, next_step, next_files, (fuel - 1) as nat)
        },
    }
}

/// The items hold the file `p` of `files` alone, with its body.
pub open spec fn serves_file(v: Seq<ContentItem>, p: Seq<char>, files: Map<Seq<char>, Seq<char>>) -> bool {
    &&& v.len() == 1
    &&& v[0].path@ == p
    &&& v[0].kind == ItemKind::File
    &&& v[0].body matches Some(b)
    &&& files.contains_key(p)
    &&& b@ == files[p]
}

/// Each ancestor position is a `/` of the id.
proof fn lemma_slash_positions(id: Seq<char>, n: int)
    requires
        0 <= n <= id.len(),
    ensures
        forall|k: int|
            0 <= k < slash_positions(id, n).len() ==> 0 <= #[trigger] slash_positions(id, n)[k]
                < n && id[slash_positions(id, n)[k]] == '/',
        forall|a: int, b: int|
            0 <= a < b < slash_positions(id, n).len() ==> #[trigger] slash_positions(id, n)[a]
                < #[trigger] slash_positions(id, n)[b],
    decreases n,
{
    if n > 0 {
        lemma_slash_positions(id, n - 1);
        let prev = slash_positions(id, n - 1);
        if id[n - 1] == '/' {
            assert(slash_positions(id, n) == prev.push(n - 1));
        } else {
            assert(slash_positions(id, n) == prev);
        }
    }
}

/// A marker never lies inside the directory that the note's own path would name.
proof fn lemma_marker_not_below(id: Seq<char>, e: int)
    requires
        0 <= e < id.len(),
    ensures
        !lies_below(marker_path(id, e), physical_path(id)),
{
    let m = marker_path(id, e);
    let t = physical_path(id);
    if lies_below(m, t) {
        let at = t.len() as int;
        assert(m.subrange(0, at + 1)[at] == t.push('/')[at]);
        assert(m[at] == '/');
        let d = id.len() - e;
        assert(1 <= d < 10);
        assert(m[at] == marker_suffix()[d]);
    }
}

/// Where the ancestor loop stands: either the note is still absent and no
/// marker passed so far was the note, or one of them was and the note holds
/// the caller's content.
pub open spec fn loop_holds(
    s: CreateSession,
    j: int,
    files: Map<Seq<char>, Seq<char>>,
    c: Seq<char>,
) -> bool {
    ||| !occupied(files, s.target@) && forall|k: int|
        0 <= k < j ==> #[trigger] s.markers@[k].path@ != s.target@
    ||| files.contains_key(s.target@) && files[s.target@] == c && exists|k: int|
        0 <= k < j && #[trigger] s.markers@[k].path@ == s.target@
}

proof fn lemma_markers_run(
    s: CreateSession,
    id: Seq<char>,
    c: Seq<char>,
    j: int,
    files: Map<Seq<char>, Seq<char>>,
    fuel: nat,
)
    requires
        s.target@ == physical_path(id),
        s.content@ == c,
        crate::path::plans_markers(s.markers@, id),
        0 <= j <= s.markers@.len(),
        fuel >= 2 * (s.markers@.len() - j) + 1,
        loop_holds(s, j, files, c),
    ensures
        ({
            let (next, step) = from_marker(s, j);
            let (after, res) = run_create(next, step, files, fuel);
            res == Some(Ok::<(), NoteServiceError>(())) && after.contains_key(s.target@)
                && after[s.target@] == c
        }),
    decreases s.markers@.len() - j,
{
    let n = s.markers@.len() as int;
    let t = s.target@;
    assert(s.markers@.len() == s.markers.len());
    if j < n {
        let m = s.markers@[j].path@;
        let ends = ancestor_ends(id);
        lemma_slash_positions(id, id.len() as int);
        assert(m == marker_path(id, ends[j]));
        lemma_marker_not_below(id, ends[j]);
        let (s1, step1) = from_marker(s, j);
        assert(s1.markers == s.markers && s1.target == s.target && s1.content == s.content);
        if occupied(files, m) {
            let (s2, step2) = create_next(s1, Reply::Exists(true));
            assert(loop_holds(s1, j + 1, files, c));
            lemma_markers_run(s1, id, c, j + 1, files, (fuel - 1) as nat);
            assert(from_marker(s1, j + 1) == (s2, step2));
            assert(run_create(s1, step1, files, fuel) == run_create(s2, step2, files, (fuel - 1) as nat));
        } else {
            let (s2, step2) = create_next(s1, Reply::Exists(false));
            assert(s2.markers == s.markers && s2.target == s.target && s2.content == s.content);
            let body = crate::store::marker_body(s1, j);
            let files2 = files.insert(m, body@);
            let (s3, step3) = create_next(s2, Reply::Written);
            if m == t {
                assert(body == s.content);
                assert(s2.markers@[j].path@ == s2.target@);
                assert(loop_holds(s2, j + 1, files2, c));
            } else {
                if !occupied(files, t) {
                    assert forall|k: Seq<char>| files2.contains_key(k) && lies_below(k, t) implies files.contains_key(
                        k,
                    ) && lies_below(k, t) by {
                        if k == m {
                        }
                    }
                    assert(!occupied(files2, t));
                    assert forall|k: int| 0 <= k < j + 1 implies #[trigger] s2.markers@[k].path@ != s2.target@ by {
                        if k < j {
                            assert(s.markers@[k].path@ != s.target@);
                        }
                    }
                } else {
                    let k0 = choose|k: int| 0 <= k < j && #[trigger] s.markers@[k].path@ == s.target@;
                    assert(s2.markers@[k0].path@ == s2.target@);
                    assert(files2[t] == files[t]);
                }
                assert(loop_holds(s2, j + 1, files2, c));
            }
            lemma_markers_run(s2, id, c, j + 1, files2, (fuel - 2) as nat);
            assert(from_marker(s2, j + 1) == (s3, step3));
            assert(answer(files, step1->Send_0) == (Reply::Exists(false), files));
            assert(run_create(s1, step1, files, fuel) == run_create(s2, step2, files, (fuel - 1) as nat));
            assert(answer(files, step2->Send_0) == (Reply::Written, files2));
            assert(run_create(s2, step2, files, (fuel - 1) as nat) == run_create(s3, step3, files2, (fuel - 2) as nat));
        }
    } else {
        if crate::store::target_is_marker(s) {
            let k0 = choose|k: int| 0 <= k < s.markers@.len() && #[trigger] s.markers@[k].path@ == s.target@;
            assert(s.markers@[k0].path@ == s.target@);
            assert(!(forall|k: int| 0 <= k < j ==> #[trigger] s.markers@[k].path@ != s.target@));
        } else {
            let (s1, step1) = from_marker(s, j);
            let files2 = files.insert(t, c);
            if !occupied(files, t) {
            } else {
                let k0 = choose|k: int| 0 <= k < j && #[trigger] s.markers@[k].path@ == s.target@;
                assert(s.markers@[k0].path@ == s.target@);
            }
            assert(!occupied(files, t));
            let (s2, step2) = create_next(s1, Reply::Written);
            assert(run_create(s2, step2, files2, (fuel - 1) as nat) == (
                files2,
                Some(Ok::<(), NoteServiceError>(())),
            ));
            assert(run_create(s1, step1, files, fuel) == run_create(s2, step2, files2, (fuel - 1) as nat));
        }
    }
}

/// A note created where nothing was stored is then read back with the
/// caller's content: the create operation, run against a remote that
/// answers faithfully, succeeds, the remote then holds the content at the
/// note's path, and reading that path yields a note whose content it is.
pub proof fn lemma_create_then_read(
    s: CreateSession,
    id: Seq<char>,
    c: Seq<char>,
    app: Seq<char>,
    files: Map<Seq<char>, Seq<char>>,
)
    requires
        create_started(s, id, c, app),
        !occupied(files, physical_path(id)),
    ensures
        ({
            let (after, res) = run_create(
                s,
                Step::Send(Request::CheckExists { path: s.target }),
                files,
                2 * s.markers@.len() + 2,
            );
            &&& res == Some(Ok::<(), NoteServiceError>(()))
            &&& after.contains_key(physical_path(id))
            &&& after[physical_path(id)] == c
            &&& forall|v: Vec<ContentItem>, r: Result<Lookup, NoteServiceError>|
                serves_file(v@, physical_path(id), after) && lookup_of(id, Reply::Items(v), r)
                    ==> (r matches Ok(Lookup::Found(note)) && note.content matches Some(b) && b@
                    == c)
        }),
{
    let fuel = 2 * s.markers@.len() + 2;
    let (s1, step1) = create_next(s, Reply::Exists(false));
    assert(loop_holds(s, 0, files, c));
    lemma_markers_run(s, id, c, 0, files, (fuel - 1) as nat);
    assert(run_create(s, Step::Send(Request::CheckExists { path: s.target }), files, fuel)
        == run_create(s1, step1, files, (fuel - 1) as nat));
}

/// Creating a note whose path is occupied fails with `NoteAlreadyExists`
/// after one existence check, and the remote is left as it was.
pub proof fn lemma_create_existing(
    s: CreateSession,
    id: Seq<char>,
    c: Seq<char>,
    app: Seq<char>,
    files: Map<Seq<char>, Seq<char>>,
    fuel: nat,
)
    requires
        create_started(s, id, c, app),
        occupied(files, physical_path(id)),
        fuel >= 1,
    ensures
        run_create(s, Step::Send(Request::CheckExists { path: s.target }), files, fuel) == (
            files,
            Some(Err::<(), NoteServiceError>(NoteServiceError::NoteAlreadyExists)),
        ),
{
    let (s1, step1) = create_next(s, Reply::Exists(true));
    assert(run_create(s1, step1, files, (fuel - 1) as nat) == (
        files,
        Some(Err::<(), NoteServiceError>(NoteServiceError::NoteAlreadyExists)),
    ));
}

/// A marker create that meets a conflict (another writer created the marker
/// first) goes on exactly as a create that succeeded.
pub proof fn lemma_marker_conflict_absorbed(s: CreateSession)
    requires
        s.phase matches CreatePhase::CreateMarker(i) && i < s.markers@.len(),
    ensures
        create_next(s, Reply::Failed(GitHubServiceError::AlreadyExists)) == create_next(
            s,
            Reply::Written,
        ),
        !(create_next(s, Reply::Written).1 matches Step::Done(Err(_))),
{
}

/// Two create operations that both found the same marker absent and both
/// ask to create it: the remote commits the first create alone, and the
/// second operation goes on as if its own create had succeeded.
pub proof fn lemma_racing_marker_creates(
    a: CreateSession,
    b: CreateSession,
    files: Map<Seq<char>, Seq<char>>,
)
    requires
        a.phase matches CreatePhase::CreateMarker(i) && i < a.markers@.len(),
        b.phase matches CreatePhase::CreateMarker(j) && j < b.markers@.len(),
        !occupied(files, a.markers@[a.phase->CreateMarker_0 as int].path@),
        a.markers@[a.phase->CreateMarker_0 as int].path@
            == b.markers@[b.phase->CreateMarker_0 as int].path@,
    ensures
        ({
            let i = a.phase->CreateMarker_0 as int;
            let j = b.phase->CreateMarker_0 as int;
            let req_a = Request::CreateFile {
                path: a.markers@[i].path,
                message: a.marker_message,
                content: crate::store::marker_body(a, i),
            };
            let req_b = Request::CreateFile {
                path: b.markers@[j].path,
                message: b.marker_message,
                content: crate::store::marker_body(b, j),
            };
            let (reply_a, files_a) = answer(files, req_a);
            let (reply_b, files_b) = answer(files_a, req_b);
            &&& files_b == files.insert(a.markers@[i].path@, crate::store::marker_body(a, i)@)
            &&& create_next(a, reply_a) == create_next(a, Reply::Written)
            &&& create_next(b, reply_b) == create_next(b, Reply::Written)
            &&& !(create_next(a, reply_a).1 matches Step::Done(Err(_)))
            &&& !(create_next(b, reply_b).1 matches Step::Done(Err(_)))
        }),
{
    let i = a.phase->CreateMarker_0 as int;
    let p = a.markers@[i].path@;
    let files_a = files.insert(p, crate::store::marker_body(a, i)@);
    assert(files_a.contains_key(p));
}

/// An update or a delete of a note that is not there fails with `NotFound`
/// after its one read, without asking for any write.
pub proof fn lemma_modify_missing(s: ModifySession, r: Reply)
    requires
        s.phase == ModifyPhase::ReadRevision,
        r matches Reply::Failed(GitHubServiceError::NotFound) || (r matches Reply::Items(v)
            && !revision_found(s, v@)),
    ensures
        modify_next(s, r).1 == Step::Done(Err::<(), NoteServiceError>(NoteServiceError::NotFound)),
{
}

} // verus!
