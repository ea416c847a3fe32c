//! The store's operations: each a session that asks for one remote call at
//! a time and decides from the reply what comes next.

use vstd::prelude::*;

use crate::error::{service_error_of, GitHubServiceError, NoteServiceError};
use crate::gateway::{ContentItem, ItemKind, Reply, Request};
use crate::path::{
    ancestor_markers, is_valid_id, last_segment, last_segment_of, physical_path,
    physical_path_of, plans_markers, root_prefix, valid_id, Marker,
};
use crate::tree::{notes_of, notes_of_entries, Note};

verus! {

/// What an operation of the store does next.
pub enum Step {
    /// Make this remote call and hand its reply to the operation.
    Send(Request),
    /// The operation is over, with this outcome.
    Done(Result<(), NoteServiceError>),
}

/// The commit message of a synthesized directory marker.
pub open spec fn marker_message(app: Seq<char>) -> Seq<char> {
    "feat: create category README by "@ + app
}

/// The commit message of a new note.
pub open spec fn create_message(app: Seq<char>) -> Seq<char> {
    "feat: create new note by "@ + app
}

/// The commit message of an update.
pub open spec fn update_message(app: Seq<char>) -> Seq<char> {
    "feat: update note by "@ + app
}

/// The commit message of a delete.
pub open spec fn delete_message(app: Seq<char>) -> Seq<char> {
    "feat: delete note by "@ + app
}

/// The number of `/` characters among the first `n` characters of `s`.
pub open spec fn slash_count(s: Seq<char>, n: int) -> nat
    decreases n,
{
    if n <= 0 {
        0
    } else {
        slash_count(s, n - 1) + if s[n - 1] == '/' {
            1nat
        } else {
            0nat
        }
    }
}

/// A prefix of `s` holds no more `/` than `s` does; one that stops before
/// the first `/` holds none.
proof fn lemma_slash_count_prefix(s: Seq<char>, n: int)
    requires
        0 <= n <= s.len(),
        slash_count(s, n) == 0,
    ensures
        slash_count(s.subrange(0, n), n) == 0,
    decreases n,
{
    if n > 0 {
        assert(slash_count(s, n - 1) == 0);
        lemma_slash_count_prefix(s, n - 1);
        assert(slash_count(s.subrange(0, n), n - 1) == slash_count(s.subrange(0, n - 1), n - 1))
            by {
            lemma_slash_count_same(s.subrange(0, n), s.subrange(0, n - 1), n - 1);
        }
    }
}

/// Two sequences that agree on their first `n` characters hold as many `/` there.
proof fn lemma_slash_count_same(a: Seq<char>, b: Seq<char>, n: int)
    requires
        0 <= n <= a.len(),
        n <= b.len(),
        forall|i: int| 0 <= i < n ==> a[i] == b[i],
    ensures
        slash_count(a, n) == slash_count(b, n),
    decreases n,
{
    if n > 0 {
        lemma_slash_count_same(a, b, n - 1);
    }
}

/// A store bound to one repository, `owner/repo`, with the credential that
/// reaches it and the name that every commit message ends with.
pub struct NoteService {
    pub github_token: String,
    pub owner: String,
    pub repo: String,
    pub app_identifier: String,
}

/// Where an operation that creates a note stands.
#[derive(Debug, Clone, Copy, PartialEq, Eq, Structural)]
pub enum CreatePhase {
    /// Waiting to learn whether the note is already there.
    CheckTarget,
    /// Waiting to learn whether the marker with this index is there.
    CheckMarker(usize),
    /// Waiting for the create of the marker with this index.
    CreateMarker(usize),
    /// Waiting for the create of the note itself.
    CreateLeaf,
    Finished,
}

/// An operation that creates a note, with the markers of its ancestor
/// directories.
pub struct CreateSession {
    pub target: String,
    pub content: String,
    pub markers: Vec<Marker>,
    pub marker_message: String,
    pub leaf_message: String,
    pub phase: CreatePhase,
}

/// The note to create is the marker of one of its own ancestors: it is the
/// description note of its directory.
pub open spec fn target_is_marker(s: CreateSession) -> bool {
    exists|k: int| 0 <= k < s.markers@.len() && #[trigger] s.markers@[k].path@ == s.target@
}

/// The body that the marker with index `k` is created with: the caller's
/// content where the marker is the note being created, else its heading.
pub open spec fn marker_body(s: CreateSession, k: int) -> String {
    if s.markers@[k].path@ == s.target@ {
        s.content
    } else {
        s.markers@[k].title
    }
}

/// The session with a new phase, and the step it answers with.
pub open spec fn moved(s: CreateSession, phase: CreatePhase, step: Step) -> (CreateSession, Step) {
    (CreateSession { phase, ..s }, step)
}

/// The operation is over with `res`.
pub open spec fn finish(s: CreateSession, res: Result<(), NoteServiceError>) -> (
    CreateSession,
    Step,
) {
    moved(s, CreatePhase::Finished, Step::Done(res))
}

/// Go on from the marker with index `j`: check it if there is one, else
/// create the note itself, unless a marker was the note.
pub open spec fn from_marker(s: CreateSession, j: int) -> (CreateSession, Step) {
    if 0 <= j < s.markers@.len() {
        moved(
            s,
            CreatePhase::CheckMarker(j as usize),
            Step::Send(Request::CheckExists { path: s.markers@[j].path }),
        )
    } else if target_is_marker(s) {
        finish(s, Ok(()))
    } else {
        moved(
            s,
            CreatePhase::CreateLeaf,
            Step::Send(
                Request::CreateFile { path: s.target, message: s.leaf_message, content: s.content },
            ),
        )
    }
}

/// The reply says that nothing is stored at the path.
pub open spec fn says_absent(r: Reply) -> bool {
    r matches Reply::Exists(false) || r matches Reply::Failed(GitHubServiceError::NotFound)
}

/// How a create operation answers a reply: the next phase and step.
pub open spec fn create_next(s: CreateSession, r: Reply) -> (CreateSession, Step) {
    match s.phase {
        CreatePhase::CheckTarget => {
            if (r matches Reply::Exists(true)) {
                finish(s, Err(NoteServiceError::NoteAlreadyExists))
            } else if says_absent(r) {
                from_marker(s, 0)
            } else if let Reply::Failed(e) = r {
                finish(s, Err(service_error_of(e)))
            } else {
                finish(s, Err(NoteServiceError::UnexpectedReply))
            }
        },
        CreatePhase::CheckMarker(i) => {
            if i >= s.markers@.len() {
                finish(s, Err(NoteServiceError::UnexpectedReply))
            } else if (r matches Reply::Exists(true)) {
                from_marker(s, i + 1)
            } else if says_absent(r) {
                moved(
                    s,
                    CreatePhase::CreateMarker(i),
                    Step::Send(
                        Request::CreateFile {
                            path: s.markers@[i as int].path,
                            message: s.marker_message,
                            content: marker_body(s, i as int),
                        },
                    ),
                )
            } else if let Reply::Failed(e) = r {
                finish(s, Err(service_error_of(e)))
            } else {
                finish(s, Err(NoteServiceError::UnexpectedReply))
            }
        },
        CreatePhase::CreateMarker(i) => {
            if i >= s.markers@.len() {
                finish(s, Err(NoteServiceError::UnexpectedReply))
            } else if r is Written || (r matches Reply::Failed(GitHubServiceError::AlreadyExists)) {
                from_marker(s, i + 1)
            } else if let Reply::Failed(e) = r {
                finish(s, Err(service_error_of(e)))
            } else {
                finish(s, Err(NoteServiceError::UnexpectedReply))
            }
        },
        CreatePhase::CreateLeaf => {
            if r is Written {
                finish(s, Ok(()))
            } else if let Reply::Failed(e) = r {
                finish(s, Err(service_error_of(e)))
            } else {
                finish(s, Err(NoteServiceError::UnexpectedReply))
            }
        },
        CreatePhase::Finished => finish(s, Err(NoteServiceError::UnexpectedReply)),
    }
}

/// `s` is the operation that creates the note `id` with `content`, before
/// its first reply.
pub open spec fn create_started(
    s: CreateSession,
    id: Seq<char>,
    content: Seq<char>,
    app: Seq<char>,
) -> bool {
    &&& s.target@ == physical_path(id)
    &&& s.content@ == content
    &&& plans_markers(s.markers@, id)
    &&& s.marker_message@ == marker_message(app)
    &&& s.leaf_message@ == create_message(app)
    &&& s.phase == CreatePhase::CheckTarget
}

impl CreateSession {
    /// The first remote call: whether the note is already there.
    pub fn first_request(&self) -> (r: Request)
        ensures
            r == (Request::CheckExists { path: self.target }),
    {
        Request::CheckExists { path: self.target.clone() }
    }

    fn finish(&mut self, res: Result<(), NoteServiceError>) -> (step: Step)
        ensures
            (*final(self), step) == finish(*old(self), res),
    {
        self.phase = CreatePhase::Finished;
        Step::Done(res)
    }

    fn marker_is_target(&self) -> (r: bool)
        ensures
            r == target_is_marker(*self),
    {
        let mut k: usize = 0;
        while k < self.markers.len()
            invariant
                k <= self.markers@.len(),
                forall|j: int| 0 <= j < k ==> #[trigger] self.markers@[j].path@ != self.target@,
            decreases self.markers@.len() - k,
        {
            if self.markers[k].path == self.target {
                return true;
            }
            k = k + 1;
        }
        false
    }

    fn from_marker(&mut self, j: usize) -> (step: Step)
        ensures
            (*final(self), step) == from_marker(*old(self), j as int),
    {
        if j < self.markers.len() {
            self.phase = CreatePhase::CheckMarker(j);
            Step::Send(Request::CheckExists { path: self.markers[j].path.clone() })
        } else if self.marker_is_target() {
            self.finish(Ok(()))
        } else {
            self.phase = CreatePhase::CreateLeaf;
            Step::Send(
                Request::CreateFile {
                    path: self.target.clone(),
                    message: self.leaf_message.clone(),
                    content: self.content.clone(),
                },
            )
        }
    }

    /// Hands the reply to the pending remote call to the operation, which
    /// answers with its next call or its outcome.
    pub fn advance(&mut self, reply: Reply) -> (step: Step)
        ensures
            (*final(self), step) == create_next(*old(self), reply),
    {
        match self.phase {
            CreatePhase::CheckTarget => match reply {
                Reply::Exists(true) => self.finish(Err(NoteServiceError::NoteAlreadyExists)),
                Reply::Exists(false) | Reply::Failed(GitHubServiceError::NotFound) => {
                    self.from_marker(0)
                },
                Reply::Failed(e) => self.finish(Err(NoteServiceError::from(e))),
                _ => self.finish(Err(NoteServiceError::UnexpectedReply)),
            },
            CreatePhase::CheckMarker(i) => {
                if i >= self.markers.len() {
                    return self.finish(Err(NoteServiceError::UnexpectedReply));
                }
                match reply {
                    Reply::Exists(true) => self.from_marker(i + 1),
                    Reply::Exists(false) | Reply::Failed(GitHubServiceError::NotFound) => {
                        let body = if self.markers[i].path == self.target {
                            self.content.clone()
                        } else {
                            self.markers[i].title.clone()
                        };
                        self.phase = CreatePhase::CreateMarker(i);
                        Step::Send(
                            Request::CreateFile {
                                path: self.markers[i].path.clone(),
                                message: self.marker_message.clone(),
                                content: body,
                            },
                        )
                    },
                    Reply::Failed(e) => self.finish(Err(NoteServiceError::from(e))),
                    _ => self.finish(Err(NoteServiceError::UnexpectedReply)),
                }
            },
            CreatePhase::CreateMarker(i) => {
                if i >= self.markers.len() {
                    return self.finish(Err(NoteServiceError::UnexpectedReply));
                }
                match reply {
                    Reply::Written | Reply::Failed(GitHubServiceError::AlreadyExists) => {
                        self.from_marker(i + 1)
                    },
                    Reply::Failed(e) => self.finish(Err(NoteServiceError::from(e))),
                    _ => self.finish(Err(NoteServiceError::UnexpectedReply)),
                }
            },
            CreatePhase::CreateLeaf => match reply {
                Reply::Written => self.finish(Ok(())),
                Reply::Failed(e) => self.finish(Err(NoteServiceError::from(e))),
                _ => self.finish(Err(NoteServiceError::UnexpectedReply)),
            },
            CreatePhase::Finished => self.finish(Err(NoteServiceError::UnexpectedReply)),
        }
    }
}

/// Where an operation that changes or removes a note stands.
#[derive(Debug, Clone, Copy, PartialEq, Eq, Structural)]
pub enum ModifyPhase {
    /// Waiting for the note's current revision tag.
    ReadRevision,
    /// Waiting for the update or the delete.
    Write,
    Finished,
}

/// An operation that replaces a note's body (`content` present) or removes
/// the note (`content` absent), quoting the revision it read.
pub struct ModifySession {
    pub path: String,
    pub message: String,
    pub content: Option<String>,
    pub phase: ModifyPhase,
}

/// The items read at the session's path start with the file itself.
pub open spec fn revision_found(s: ModifySession, items: Seq<ContentItem>) -> bool {
    items.len() > 0 && items[0].path@ == s.path@
}

/// The write that the session asks for once it knows the revision tag.
pub open spec fn write_request(s: ModifySession, sha: String) -> Request {
    match s.content {
        Some(c) => Request::UpdateFile { path: s.path, message: s.message, content: c, sha },
        None => Request::DeleteFile { path: s.path, message: s.message, sha },
    }
}

/// The operation is over with `res`.
pub open spec fn modify_finish(s: ModifySession, res: Result<(), NoteServiceError>) -> (
    ModifySession,
    Step,
) {
    (ModifySession { phase: ModifyPhase::Finished, ..s }, Step::Done(res))
}

/// How an update or a delete answers a reply: the next phase and step.
pub open spec fn modify_next(s: ModifySession, r: Reply) -> (ModifySession, Step) {
    match s.phase {
        ModifyPhase::ReadRevision => match r {
            Reply::Items(v) => if revision_found(s, v@) {
                (
                    ModifySession { phase: ModifyPhase::Write, ..s },
                    Step::Send(write_request(s, v@[0].sha)),
                )
            } else {
                modify_finish(s, Err(NoteServiceError::NotFound))
            },
            Reply::Failed(e) => modify_finish(s, Err(service_error_of(e))),
            _ => modify_finish(s, Err(NoteServiceError::UnexpectedReply)),
        },
        ModifyPhase::Write => match r {
            Reply::Written => modify_finish(s, Ok(())),
            Reply::Failed(e) => modify_finish(s, Err(service_error_of(e))),
            _ => modify_finish(s, Err(NoteServiceError::UnexpectedReply)),
        },
        ModifyPhase::Finished => modify_finish(s, Err(NoteServiceError::UnexpectedReply)),
    }
}

/// `s` is the operation that changes (`content` present) or removes the
/// note `id`, before its first reply.
pub open spec fn modify_started(
    s: ModifySession,
    id: Seq<char>,
    content: Option<Seq<char>>,
    message: Seq<char>,
) -> bool {
    &&& s.path@ == physical_path(id)
    &&& s.message@ == message
    &&& match content {
        Some(c) => s.content is Some && s.content->0@ == c,
        None => s.content is None,
    }
    &&& s.phase == ModifyPhase::ReadRevision
}

impl ModifySession {
    /// The first remote call: read the note, for its revision tag.
    pub fn first_request(&self) -> (r: Request)
        ensures
            r == (Request::Read { path: self.path }),
    {
        Request::Read { path: self.path.clone() }
    }

    fn finish(&mut self, res: Result<(), NoteServiceError>) -> (step: Step)
        ensures
            (*final(self), step) == modify_finish(*old(self), res),
    {
        self.phase = ModifyPhase::Finished;
        Step::Done(res)
    }

    /// Hands the reply to the pending remote call to the operation, which
    /// answers with its next call or its outcome.
    pub fn advance(&mut self, reply: Reply) -> (step: Step)
        ensures
            (*final(self), step) == modify_next(*old(self), reply),
    {
        match self.phase {
            ModifyPhase::ReadRevision => match reply {
                Reply::Items(v) => {
                    if v.len() > 0 && v[0].path == self.path {
                        let sha = v[0].sha.clone();
                        self.phase = ModifyPhase::Write;
                        let request = match &self.content {
                            Some(c) => Request::UpdateFile {
                                path: self.path.clone(),
                                message: self.message.clone(),
                                content: c.clone(),
                                sha,
                            },
                            None => Request::DeleteFile {
                                path: self.path.clone(),
                                message: self.message.clone(),
                                sha,
                            },
                        };
                        Step::Send(request)
                    } else {
                        self.finish(Err(NoteServiceError::NotFound))
                    }
                },
                Reply::Failed(e) => self.finish(Err(NoteServiceError::from(e))),
                _ => self.finish(Err(NoteServiceError::UnexpectedReply)),
            },
            ModifyPhase::Write => match reply {
                Reply::Written => self.finish(Ok(())),
                Reply::Failed(e) => self.finish(Err(NoteServiceError::from(e))),
                _ => self.finish(Err(NoteServiceError::UnexpectedReply)),
            },
            ModifyPhase::Finished => self.finish(Err(NoteServiceError::UnexpectedReply)),
        }
    }
}

/// What reading a note's path found.
pub enum Lookup {
    /// Nothing is stored there.
    Absent,
    /// A file, read with its body.
    Found(Note),
    /// A directory: its tree is listed with this call, then handed to
    /// `NoteService::directory_note`.
    Directory(Request),
}

/// `r` is what reading the path of the note `id` found, given the reply.
pub open spec fn lookup_of(id: Seq<char>, reply: Reply, r: Result<Lookup, NoteServiceError>) -> bool {
    match reply {
        Reply::Items(v) => if v@.len() == 0 {
            r == Ok::<Lookup, NoteServiceError>(Lookup::Absent)
        } else if v@.len() == 1 && v@[0].path@ == physical_path(id) && v@[0].kind
            == ItemKind::File {
            &&& r matches Ok(Lookup::Found(n))
            &&& n.id@ == id
            &&& n.name == v@[0].name
            &&& n.content == v@[0].body
            &&& n.children is None
        } else {
            &&& r matches Ok(Lookup::Directory(Request::List { path }))
            &&& path@ == physical_path(id)
        },
        Reply::Failed(GitHubServiceError::NotFound) => r == Ok::<Lookup, NoteServiceError>(
            Lookup::Absent,
        ),
        Reply::Failed(e) => r == Err::<Lookup, NoteServiceError>(service_error_of(e)),
        _ => r == Err::<Lookup, NoteServiceError>(NoteServiceError::UnexpectedReply),
    }
}

fn message(lead: &str, app: &String) -> (r: String)
    ensures
        r@ == lead@ + app@,
{
    String::from_str(lead).concat(app.as_str())
}

impl NoteService {
    /// A store for the repository `repo_name`, written `owner/name`: one `/`
    /// exactly; any other form is a configuration error.
    pub fn new(github_token: String, repo_name: String, app_identifier: String) -> (r: Result<
        NoteService,
        NoteServiceError,
    >)
        ensures
            slash_count(repo_name@, repo_name@.len() as int) == 1 <==> r is Ok,
            r matches Err(e) ==> e is Configuration,
            r matches Ok(s) ==> {
                &&& s.owner@ + seq!['/'] + s.repo@ == repo_name@
                &&& slash_count(s.owner@, s.owner@.len() as int) == 0
                &&& s.github_token == github_token
                &&& s.app_identifier == app_identifier
            },
    {
        let cs = crate::text::chars_of(repo_name.as_str());
        let mut count: usize = 0;
        let mut at: usize = 0;
        let mut i: usize = 0;
        while i < cs.len()
            invariant
                cs@ == repo_name@,
                i <= cs@.len(),
                count as nat == slash_count(cs@, i as int),
                count <= i,
                count == 0 ==> at == 0,
                count >= 1 ==> at < i && cs@[at as int] == '/' && slash_count(cs@, at as int) == 0,
            decreases cs@.len() - i,
        {
            if cs[i] == '/' {
                if count == 0 {
                    at = i;
                }
                count = count + 1;
            }
            i = i + 1;
        }
        if count != 1 {
            return Err(
                NoteServiceError::Configuration(
                    String::from_str("Invalid repo_name format. Expected 'owner/name'"),
                ),
            );
        }
        let mut owner: Vec<char> = Vec::new();
        crate::text::append_range(&mut owner, &cs, 0, at);
        let mut repo: Vec<char> = Vec::new();
        crate::text::append_range(&mut repo, &cs, at + 1, cs.len());
        assert(owner@ + seq!['/'] + repo@ == cs@);
        assert(owner@ == cs@.subrange(0, at as int));
        proof {
            lemma_slash_count_prefix(cs@, at as int);
        }
        Ok(
            NoteService {
                github_token,
                owner: crate::text::string_of(&owner),
                repo: crate::text::string_of(&repo),
                app_identifier,
            },
        )
    }

    /// Starts the update of the note `id` with `content`; an invalid id is
    /// refused before any remote call.
    pub fn update_note(&self, id: &str, content: &str) -> (r: Result<ModifySession, NoteServiceError>)
        ensures
            !valid_id(id@) ==> r == Err::<ModifySession, NoteServiceError>(
                NoteServiceError::InvalidId,
            ),
            valid_id(id@) ==> r is Ok && modify_started(
                r->Ok_0,
                id@,
                Some(content@),
                update_message(self.app_identifier@),
            ),
    {
        if !is_valid_id(id) {
            return Err(NoteServiceError::InvalidId);
        }
        Ok(
            ModifySession {
                path: physical_path_of(id),
                message: message("feat: update note by ", &self.app_identifier),
                content: Some(String::from_str(content)),
                phase: ModifyPhase::ReadRevision,
            },
        )
    }

    /// Starts the removal of the note `id`; an invalid id is refused before
    /// any remote call.
    pub fn delete_note(&self, id: &str) -> (r: Result<ModifySession, NoteServiceError>)
        ensures
            !valid_id(id@) ==> r == Err::<ModifySession, NoteServiceError>(
                NoteServiceError::InvalidId,
            ),
            valid_id(id@) ==> r is Ok && modify_started(
                r->Ok_0,
                id@,
                None,
                delete_message(self.app_identifier@),
            ),
    {
        if !is_valid_id(id) {
            return Err(NoteServiceError::InvalidId);
        }
        Ok(
            ModifySession {
                path: physical_path_of(id),
                message: message("feat: delete note by ", &self.app_identifier),
                content: None,
                phase: ModifyPhase::ReadRevision,
            },
        )
    }

    /// The remote call that reads the note `id`; an invalid id is refused.
    pub fn get_note(&self, id: &str) -> (r: Result<Request, NoteServiceError>)
        ensures
            !valid_id(id@) ==> r == Err::<Request, NoteServiceError>(NoteServiceError::InvalidId),
            valid_id(id@) ==> (r matches Ok(Request::Read { path }) && path@ == physical_path(id@)),
    {
        if !is_valid_id(id) {
            return Err(NoteServiceError::InvalidId);
        }
        Ok(Request::Read { path: physical_path_of(id) })
    }

    /// What reading the path of the note `id` found: nothing (also where the
    /// API answers that the path is absent), the file with its body, or a
    /// directory whose tree must be listed next.
    pub fn note_from_read(id: &str, reply: Reply) -> (r: Result<Lookup, NoteServiceError>)
        ensures
            lookup_of(id@, reply, r),
    {
        match reply {
            Reply::Items(v) => {
                if v.len() == 0 {
                    return Ok(Lookup::Absent);
                }
                let path = physical_path_of(id);
                if v.len() == 1 && v[0].path == path && v[0].kind == ItemKind::File {
                    let item = &v[0];
                    let body = match &item.body {
                        Some(b) => Some(b.clone()),
                        None => None,
                    };
                    Ok(
                        Lookup::Found(
                            Note {
                                id: String::from_str(id),
                                name: item.name.clone(),
                                content: body,
                                children: None,
                            },
                        ),
                    )
                } else {
                    Ok(Lookup::Directory(Request::List { path }))
                }
            },
            Reply::Failed(GitHubServiceError::NotFound) => Ok(Lookup::Absent),
            Reply::Failed(e) => Err(NoteServiceError::from(e)),
            _ => Err(NoteServiceError::UnexpectedReply),
        }
    }

    /// The directory note `id`, with the notes of its listed tree as children.
    pub fn directory_note(id: &str, reply: Reply) -> (r: Result<Note, NoteServiceError>)
        ensures
            match reply {
                Reply::Tree(es) => {
                    &&& r matches Ok(n)
                    &&& n.id@ == id@
                    &&& n.name@ == last_segment(id@)
                    &&& n.content is None
                    &&& n.children matches Some(c)
                    &&& notes_of_entries(c@, es@)
                },
                Reply::Failed(e) => r == Err::<Note, NoteServiceError>(service_error_of(e)),
                _ => r == Err::<Note, NoteServiceError>(NoteServiceError::UnexpectedReply),
            },
    {
        match reply {
            Reply::Tree(es) => Ok(
                Note {
                    id: String::from_str(id),
                    name: last_segment_of(id),
                    content: None,
                    children: Some(notes_of(&es)),
                },
            ),
            Reply::Failed(e) => Err(NoteServiceError::from(e)),
            _ => Err(NoteServiceError::UnexpectedReply),
        }
    }

    /// The remote call that lists every note: the tree below `notes/`.
    pub fn get_all_notes(&self) -> (r: Request)
        ensures
            r matches Request::List { path } && path@ == root_prefix(),
    {
        let root = String::from_str("notes/");
        proof {
            reveal_strlit("notes/");
        }
        Request::List { path: root }
    }

    /// The notes of the whole tree, given its listing; where the API answers
    /// that `notes/` is absent there are none.
    pub fn all_notes(reply: Reply) -> (r: Result<Vec<Note>, NoteServiceError>)
        ensures
            match reply {
                Reply::Tree(es) => (r matches Ok(ns) && notes_of_entries(ns@, es@)),
                Reply::Failed(GitHubServiceError::NotFound) => (r matches Ok(ns) && ns@.len() == 0),
                Reply::Failed(e) => r == Err::<Vec<Note>, NoteServiceError>(service_error_of(e)),
                _ => r == Err::<Vec<Note>, NoteServiceError>(NoteServiceError::UnexpectedReply),
            },
    {
        match reply {
            Reply::Tree(es) => Ok(notes_of(&es)),
            Reply::Failed(GitHubServiceError::NotFound) => Ok(Vec::new()),
            Reply::Failed(e) => Err(NoteServiceError::from(e)),
            _ => Err(NoteServiceError::UnexpectedReply),
        }
    }

    /// Starts the creation of the note `id` with `content`; an invalid id is
    /// refused before any remote call.
    pub fn create_note(&self, id: &str, content: &str) -> (r: Result<CreateSession, NoteServiceError>)
        ensures
            !valid_id(id@) ==> r == Err::<CreateSession, NoteServiceError>(
                NoteServiceError::InvalidId,
            ),
            valid_id(id@) ==> r is Ok && create_started(
                r->Ok_0,
                id@,
                content@,
                self.app_identifier@,
            ),
    {
        if !is_valid_id(id) {
            return Err(NoteServiceError::InvalidId);
        }
        Ok(
            CreateSession {
                target: physical_path_of(id),
                content: String::from_str(content),
                markers: ancestor_markers(id),
                marker_message: message("feat: create category README by ", &self.app_identifier),
                leaf_message: message("feat: create new note by ", &self.app_identifier),
                phase: CreatePhase::CheckTarget,
            },
        )
    }
}

} // verus!
