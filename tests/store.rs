use std::collections::BTreeMap;

use note_store::config::{get_note_service, service_from_settings, ApiHeaders, MissingHeader};
use note_store::error::{GitHubServiceError, NoteServiceError, TauriError};
use note_store::gateway::{ContentItem, ItemKind, Reply, Request};
use note_store::path::{ancestor_markers, is_valid_id, last_segment_of, physical_path_of};
use note_store::store::{CreateSession, Lookup, ModifySession, NoteService, Step};
use note_store::tree::{id_of, notes_of, EntryKind, Note, TreeEntry};

/// A repository held in memory that answers requests as the remote does.
struct Remote {
    files: BTreeMap<String, String>,
    writes: Vec<(String, String, String)>,
    reads: usize,
}

impl Remote {
    fn new() -> Remote {
        Remote { files: BTreeMap::new(), writes: Vec::new(), reads: 0 }
    }

    fn with(files: &[(&str, &str)]) -> Remote {
        let mut r = Remote::new();
        for (p, c) in files {
            r.files.insert(p.to_string(), c.to_string());
        }
        r
    }

    fn occupied(&self, p: &str) -> bool {
        let below = format!("{}/", p.trim_end_matches('/'));
        self.files.contains_key(p) || self.files.keys().any(|k| k.starts_with(&below))
    }

    fn entries(&self, dir: &str) -> Vec<(String, bool)> {
        let prefix = format!("{}/", dir.trim_end_matches('/'));
        let mut out: Vec<(String, bool)> = Vec::new();
        for k in self.files.keys() {
            if let Some(rest) = k.strip_prefix(&prefix) {
                let (child, is_dir) = match rest.find('/') {
                    Some(i) => (format!("{}{}", prefix, &rest[..i]), true),
                    None => (k.clone(), false),
                };
                if !out.iter().any(|(c, _)| *c == child) {
                    out.push((child, is_dir));
                }
            }
        }
        out
    }

    fn item(&self, path: &str, is_dir: bool) -> ContentItem {
        ContentItem {
            path: path.to_string(),
            name: path.rsplit('/').next().unwrap().to_string(),
            kind: if is_dir { ItemKind::Dir } else { ItemKind::File },
            sha: format!("sha-of-{}", path),
            body: if is_dir { None } else { self.files.get(path).cloned() },
        }
    }

    fn tree(&self, dir: &str) -> Vec<TreeEntry> {
        self.entries(dir)
            .into_iter()
            .map(|(p, is_dir)| TreeEntry {
                name: p.rsplit('/').next().unwrap().to_string(),
                kind: if is_dir { EntryKind::Dir(self.tree(&p)) } else { EntryKind::File },
                path: p,
            })
            .collect()
    }

    fn answer(&mut self, req: &Request) -> Reply {
        match req {
            Request::CheckExists { path } => {
                self.reads += 1;
                Reply::Exists(self.occupied(path))
            }
            Request::Read { path } => {
                self.reads += 1;
                if self.files.contains_key(path) {
                    Reply::Items(vec![self.item(path, false)])
                } else if self.occupied(path) {
                    let items = self.entries(path).iter().map(|(p, d)| self.item(p, *d)).collect();
                    Reply::Items(items)
                } else {
                    Reply::Failed(GitHubServiceError::NotFound)
                }
            }
            Request::List { path } => {
                self.reads += 1;
                if self.occupied(path) {
                    Reply::Tree(self.tree(path))
                } else {
                    Reply::Failed(GitHubServiceError::NotFound)
                }
            }
            Request::CreateFile { path, message, content } => {
                if self.occupied(path) {
                    Reply::Failed(GitHubServiceError::AlreadyExists)
                } else {
                    self.files.insert(path.clone(), content.clone());
                    self.writes.push((path.clone(), message.clone(), content.clone()));
                    Reply::Written
                }
            }
            Request::UpdateFile { path, message, content, sha } => {
                if *sha != format!("sha-of-{}", path) || !self.files.contains_key(path) {
                    Reply::Failed(GitHubServiceError::Api("sha does not match".to_string()))
                } else {
                    self.files.insert(path.clone(), content.clone());
                    self.writes.push((path.clone(), message.clone(), content.clone()));
                    Reply::Written
                }
            }
            Request::DeleteFile { path, message, sha } => {
                if *sha != format!("sha-of-{}", path) || !self.files.contains_key(path) {
                    Reply::Failed(GitHubServiceError::Api("sha does not match".to_string()))
                } else {
                    self.files.remove(path);
                    self.writes.push((path.clone(), message.clone(), String::new()));
                    Reply::Written
                }
            }
        }
    }
}

fn service() -> NoteService {
    NoteService::new("token".to_string(), "octo/notes".to_string(), "tester".to_string()).unwrap()
}

fn run_create(remote: &mut Remote, mut s: CreateSession) -> Result<(), NoteServiceError> {
    let mut step = Step::Send(s.first_request());
    loop {
        match step {
            Step::Send(req) => {
                let reply = remote.answer(&req);
                step = s.advance(reply);
            }
            Step::Done(r) => return r,
        }
    }
}

fn run_modify(remote: &mut Remote, mut s: ModifySession) -> Result<(), NoteServiceError> {
    let mut step = Step::Send(s.first_request());
    loop {
        match step {
            Step::Send(req) => {
                let reply = remote.answer(&req);
                step = s.advance(reply);
            }
            Step::Done(r) => return r,
        }
    }
}

fn get(remote: &mut Remote, id: &str) -> Result<Option<Note>, NoteServiceError> {
    let req = service().get_note(id)?;
    let reply = remote.answer(&req);
    match NoteService::note_from_read(id, reply)? {
        Lookup::Absent => Ok(None),
        Lookup::Found(n) => Ok(Some(n)),
        Lookup::Directory(list) => {
            let reply = remote.answer(&list);
            Ok(Some(NoteService::directory_note(id, reply)?))
        }
    }
}

fn leaves(ns: &[Note]) -> usize {
    ns.iter()
        .map(|n| match &n.children {
            Some(c) => leaves(c),
            None => 1,
        })
        .sum()
}

fn dirs_without_content(ns: &[Note]) -> bool {
    ns.iter().all(|n| {
        n.content.is_none()
            && match &n.children {
                Some(c) => dirs_without_content(c),
                None => true,
            }
    })
}

#[test]
fn create_then_get_returns_content() {
    let mut remote = Remote::with(&[("notes/other.md", "x")]);
    let s = service().create_note("topic/sub/page.md", "hello").unwrap();
    assert_eq!(run_create(&mut remote, s), Ok(()));
    let note = get(&mut remote, "topic/sub/page.md").unwrap().unwrap();
    assert_eq!(note.content, Some("hello".to_string()));
    assert_eq!(note.id, "topic/sub/page.md");
    assert_eq!(note.name, "page.md");
    assert!(note.children.is_none());
}

#[test]
fn create_existing_fails_without_writes() {
    let mut remote = Remote::with(&[("notes/a/b.md", "old")]);
    let s = service().create_note("a/b.md", "new").unwrap();
    assert_eq!(run_create(&mut remote, s), Err(NoteServiceError::NoteAlreadyExists));
    assert!(remote.writes.is_empty());
    assert_eq!(remote.reads, 1);
    assert_eq!(remote.files.get("notes/a/b.md"), Some(&"old".to_string()));
}

#[test]
fn create_on_existing_directory_fails() {
    let mut remote = Remote::with(&[("notes/a/b.md", "old")]);
    let s = service().create_note("a", "new").unwrap();
    assert_eq!(run_create(&mut remote, s), Err(NoteServiceError::NoteAlreadyExists));
    assert!(remote.writes.is_empty());
}

#[test]
fn create_nested_writes_markers_then_note() {
    let mut remote = Remote::new();
    let s = service().create_note("a/b/c.md", "body").unwrap();
    assert_eq!(run_create(&mut remote, s), Ok(()));
    let expected = vec![
        (
            "notes/a/README.md".to_string(),
            "feat: create category README by tester".to_string(),
            "# a".to_string(),
        ),
        (
            "notes/a/b/README.md".to_string(),
            "feat: create category README by tester".to_string(),
            "# b".to_string(),
        ),
        (
            "notes/a/b/c.md".to_string(),
            "feat: create new note by tester".to_string(),
            "body".to_string(),
        ),
    ];
    assert_eq!(remote.writes, expected);
}

#[test]
fn create_keeps_existing_markers() {
    let mut remote = Remote::with(&[("notes/a/README.md", "# Alpha")]);
    let s = service().create_note("a/b/c.md", "body").unwrap();
    assert_eq!(run_create(&mut remote, s), Ok(()));
    assert_eq!(remote.files.get("notes/a/README.md"), Some(&"# Alpha".to_string()));
    assert_eq!(remote.files.get("notes/a/b/README.md"), Some(&"# b".to_string()));
    assert_eq!(remote.writes.len(), 2);
}

#[test]
fn marker_heading_turns_hyphens_into_spaces() {
    let mut remote = Remote::new();
    let s = service().create_note("my-long-topic/x.md", "x").unwrap();
    assert_eq!(run_create(&mut remote, s), Ok(()));
    assert_eq!(remote.files.get("notes/my-long-topic/README.md"), Some(&"# my long topic".to_string()));
}

#[test]
fn create_directory_note_writes_content_verbatim() {
    let mut remote = Remote::new();
    let s = service().create_note("a/README.md", "About a").unwrap();
    assert_eq!(run_create(&mut remote, s), Ok(()));
    assert_eq!(
        remote.writes,
        vec![(
            "notes/a/README.md".to_string(),
            "feat: create category README by tester".to_string(),
            "About a".to_string(),
        )]
    );
}

#[test]
fn create_nested_directory_note() {
    let mut remote = Remote::new();
    let s = service().create_note("a/b/README.md", "About b").unwrap();
    assert_eq!(run_create(&mut remote, s), Ok(()));
    assert_eq!(remote.writes.len(), 2);
    assert_eq!(remote.files.get("notes/a/README.md"), Some(&"# a".to_string()));
    assert_eq!(remote.files.get("notes/a/b/README.md"), Some(&"About b".to_string()));
}

#[test]
fn create_top_level_readme_is_a_plain_note() {
    let mut remote = Remote::new();
    let s = service().create_note("README.md", "top").unwrap();
    assert_eq!(run_create(&mut remote, s), Ok(()));
    assert_eq!(
        remote.writes,
        vec![(
            "notes/README.md".to_string(),
            "feat: create new note by tester".to_string(),
            "top".to_string(),
        )]
    );
}

#[test]
fn racing_creates_share_one_marker() {
    let mut remote = Remote::new();
    let mut a = service().create_note("x/one.md", "1").unwrap();
    let mut b = service().create_note("x/two.md", "2").unwrap();
    // Both learn that their notes are absent, then that the marker is absent.
    let mut step_a = a.advance(remote.answer(&a.first_request()));
    let mut step_b = b.advance(remote.answer(&b.first_request()));
    if let Step::Send(req) = step_a {
        step_a = a.advance(remote.answer(&req));
    }
    if let Step::Send(req) = step_b {
        step_b = b.advance(remote.answer(&req));
    }
    // Both now ask to create x/README.md; a's create lands first.
    let req_a = match step_a {
        Step::Send(r) => r,
        Step::Done(_) => panic!("a finished early"),
    };
    let req_b = match step_b {
        Step::Send(r) => r,
        Step::Done(_) => panic!("b finished early"),
    };
    assert!(matches!(&req_a, Request::CreateFile { path, .. } if path == "notes/x/README.md"));
    assert!(matches!(&req_b, Request::CreateFile { path, .. } if path == "notes/x/README.md"));
    let reply_a = remote.answer(&req_a);
    let reply_b = remote.answer(&req_b);
    assert!(matches!(reply_b, Reply::Failed(GitHubServiceError::AlreadyExists)));
    let mut step_a = a.advance(reply_a);
    let mut step_b = b.advance(reply_b);
    let finish = |s: &mut CreateSession, mut step: Step, remote: &mut Remote| loop {
        match step {
            Step::Send(req) => {
                let reply = remote.answer(&req);
                step = s.advance(reply);
            }
            Step::Done(r) => return r,
        }
    };
    let ra = finish(&mut a, std::mem::replace(&mut step_a, Step::Done(Ok(()))), &mut remote);
    let rb = finish(&mut b, std::mem::replace(&mut step_b, Step::Done(Ok(()))), &mut remote);
    assert_eq!(ra, Ok(()));
    assert_eq!(rb, Ok(()));
    let marker_writes = remote.writes.iter().filter(|w| w.0 == "notes/x/README.md").count();
    assert_eq!(marker_writes, 1);
    assert!(remote.files.contains_key("notes/x/one.md"));
    assert!(remote.files.contains_key("notes/x/two.md"));
}

#[test]
fn leaf_conflict_is_reported() {
    let mut s = service().create_note("a.md", "x").unwrap();
    let step = s.advance(Reply::Exists(false));
    assert!(matches!(step, Step::Send(Request::CreateFile { .. })));
    let step = s.advance(Reply::Failed(GitHubServiceError::AlreadyExists));
    assert!(matches!(step, Step::Done(Err(NoteServiceError::NoteAlreadyExists))));
}

#[test]
fn marker_failure_is_reported() {
    let mut s = service().create_note("a/b.md", "x").unwrap();
    let _ = s.advance(Reply::Exists(false));
    let _ = s.advance(Reply::Exists(false));
    let step = s.advance(Reply::Failed(GitHubServiceError::Api("boom".to_string())));
    assert!(matches!(step, Step::Done(Err(NoteServiceError::RemoteApi(m))) if m == "boom"));
}

#[test]
fn unexpected_reply_ends_the_operation() {
    let mut s = service().create_note("a.md", "x").unwrap();
    let step = s.advance(Reply::Written);
    assert!(matches!(step, Step::Done(Err(NoteServiceError::UnexpectedReply))));
    let step = s.advance(Reply::Exists(false));
    assert!(matches!(step, Step::Done(Err(NoteServiceError::UnexpectedReply))));
}

#[test]
fn update_missing_fails_not_found() {
    let mut remote = Remote::with(&[("notes/a.md", "x")]);
    let s = service().update_note("b.md", "y").unwrap();
    assert_eq!(run_modify(&mut remote, s), Err(NoteServiceError::NotFound));
    assert!(remote.writes.is_empty());
}

#[test]
fn delete_missing_fails_not_found() {
    let mut remote = Remote::with(&[("notes/a.md", "x")]);
    let s = service().delete_note("b.md").unwrap();
    assert_eq!(run_modify(&mut remote, s), Err(NoteServiceError::NotFound));
    assert!(remote.writes.is_empty());
}

#[test]
fn update_directory_fails_not_found() {
    let mut remote = Remote::with(&[("notes/a/b.md", "x")]);
    let s = service().update_note("a", "y").unwrap();
    assert_eq!(run_modify(&mut remote, s), Err(NoteServiceError::NotFound));
    assert!(remote.writes.is_empty());
}

#[test]
fn update_quotes_revision_and_replaces_body() {
    let mut remote = Remote::with(&[("notes/a.md", "x")]);
    let s = service().update_note("a.md", "y").unwrap();
    assert_eq!(run_modify(&mut remote, s), Ok(()));
    assert_eq!(remote.files.get("notes/a.md"), Some(&"y".to_string()));
    assert_eq!(remote.writes[0].1, "feat: update note by tester");
}

#[test]
fn update_request_carries_the_read_sha() {
    let mut s = service().update_note("a.md", "y").unwrap();
    let item = ContentItem {
        path: "notes/a.md".to_string(),
        name: "a.md".to_string(),
        kind: ItemKind::File,
        sha: "abc123".to_string(),
        body: Some("x".to_string()),
    };
    let step = s.advance(Reply::Items(vec![item]));
    match step {
        Step::Send(Request::UpdateFile { path, message, content, sha }) => {
            assert_eq!(path, "notes/a.md");
            assert_eq!(message, "feat: update note by tester");
            assert_eq!(content, "y");
            assert_eq!(sha, "abc123");
        }
        _ => panic!("expected an update"),
    }
    let step = s.advance(Reply::Failed(GitHubServiceError::Api("409 conflict".to_string())));
    assert!(matches!(step, Step::Done(Err(NoteServiceError::RemoteApi(_)))));
}

#[test]
fn delete_removes_the_file() {
    let mut remote = Remote::with(&[("notes/a.md", "x"), ("notes/b.md", "y")]);
    let s = service().delete_note("a.md").unwrap();
    assert_eq!(run_modify(&mut remote, s), Ok(()));
    assert!(!remote.files.contains_key("notes/a.md"));
    assert_eq!(remote.writes[0].1, "feat: delete note by tester");
    assert_eq!(get(&mut remote, "a.md").unwrap().is_none(), true);
}

#[test]
fn get_missing_note_is_absent() {
    let mut remote = Remote::new();
    assert!(get(&mut remote, "nothing.md").unwrap().is_none());
    let r = NoteService::note_from_read("x.md", Reply::Items(Vec::new())).unwrap();
    assert!(matches!(r, Lookup::Absent));
}

#[test]
fn get_read_error_is_passed_on() {
    let r = NoteService::note_from_read("x.md", Reply::Failed(GitHubServiceError::Api("500".to_string())));
    assert!(matches!(r, Err(NoteServiceError::RemoteApi(m)) if m == "500"));
}

#[test]
fn get_directory_lists_its_tree() {
    let mut remote = Remote::with(&[
        ("notes/a/README.md", "# a"),
        ("notes/a/b/c.md", "c"),
        ("notes/a/d.md", "d"),
    ]);
    let note = get(&mut remote, "a").unwrap().unwrap();
    assert_eq!(note.id, "a");
    assert_eq!(note.name, "a");
    assert!(note.content.is_none());
    let children = note.children.unwrap();
    assert_eq!(leaves(&children), 3);
    assert_eq!(children.len(), 3);
}

#[test]
fn listing_counts_leaves_and_has_no_content() {
    let mut remote = Remote::with(&[
        ("notes/top.md", "t"),
        ("notes/a/x.md", "x"),
        ("notes/a/b/y.md", "y"),
        ("notes/a/b/c/z.md", "z"),
        ("notes/d/w.md", "w"),
    ]);
    let req = service().get_all_notes();
    assert!(matches!(&req, Request::List { path } if path == "notes/"));
    let notes = NoteService::all_notes(remote.answer(&req)).unwrap();
    assert_eq!(leaves(&notes), 5);
    assert!(dirs_without_content(&notes));
    let a = notes.iter().find(|n| n.id == "a").unwrap();
    assert!(a.children.is_some());
}

#[test]
fn listing_of_empty_store_is_empty() {
    let notes = NoteService::all_notes(Reply::Failed(GitHubServiceError::NotFound)).unwrap();
    assert!(notes.is_empty());
    let err = NoteService::all_notes(Reply::Failed(GitHubServiceError::Api("401".to_string())));
    assert!(matches!(err, Err(NoteServiceError::RemoteApi(_))));
}

#[test]
fn listing_drops_unreadable_directories_and_keeps_order() {
    let entries = vec![
        TreeEntry { path: "notes/z.md".to_string(), name: "z.md".to_string(), kind: EntryKind::File },
        TreeEntry { path: "notes/bad".to_string(), name: "bad".to_string(), kind: EntryKind::Unreadable },
        TreeEntry {
            path: "notes/dir".to_string(),
            name: "dir".to_string(),
            kind: EntryKind::Dir(vec![TreeEntry {
                path: "notes/dir/a.md".to_string(),
                name: "a.md".to_string(),
                kind: EntryKind::File,
            }]),
        },
        TreeEntry { path: "notes/a.md".to_string(), name: "a.md".to_string(), kind: EntryKind::File },
    ];
    let notes = notes_of(&entries);
    let ids: Vec<&str> = notes.iter().map(|n| n.id.as_str()).collect();
    assert_eq!(ids, vec!["z.md", "dir", "a.md"]);
    assert_eq!(notes[1].children.as_ref().unwrap()[0].id, "dir/a.md");
    assert_eq!(leaves(&notes), 3);
}

#[test]
fn ids_are_checked() {
    for bad in ["", "/a", "a/", "a//b", "..", "../x", "a/../b", "a/.."] {
        assert!(!is_valid_id(bad), "{} should be refused", bad);
        assert_eq!(service().create_note(bad, "x").err(), Some(NoteServiceError::InvalidId));
        assert_eq!(service().update_note(bad, "x").err(), Some(NoteServiceError::InvalidId));
        assert_eq!(service().delete_note(bad).err(), Some(NoteServiceError::InvalidId));
        assert_eq!(service().get_note(bad).err(), Some(NoteServiceError::InvalidId));
    }
    for good in ["a", "a.md", "a/b/c.md", "a/..b", "...", "a/.b/c"] {
        assert!(is_valid_id(good), "{} should be accepted", good);
    }
}

#[test]
fn paths_and_markers() {
    assert_eq!(physical_path_of("a/b.md"), "notes/a/b.md");
    assert_eq!(last_segment_of("a/b-c"), "b-c");
    assert_eq!(last_segment_of("top"), "top");
    let ms = ancestor_markers("one/two-three/four.md");
    let got: Vec<(&str, &str)> = ms.iter().map(|m| (m.path.as_str(), m.title.as_str())).collect();
    assert_eq!(
        got,
        vec![("notes/one/README.md", "# one"), ("notes/one/two-three/README.md", "# two three")]
    );
    assert!(ancestor_markers("flat.md").is_empty());
    assert_eq!(id_of("notes/a/b.md"), "a/b.md");
    assert_eq!(id_of("other/a.md"), "other/a.md");
    assert_eq!(id_of("note"), "note");
}

#[test]
fn service_needs_owner_and_name() {
    let s = NoteService::new("t".to_string(), "octo/notes".to_string(), "app".to_string()).unwrap();
    assert_eq!(s.owner, "octo");
    assert_eq!(s.repo, "notes");
    assert_eq!(s.github_token, "t");
    assert_eq!(s.app_identifier, "app");
    for bad in ["octo", "a/b/c", ""] {
        let r = NoteService::new("t".to_string(), bad.to_string(), "app".to_string());
        assert!(matches!(r, Err(NoteServiceError::Configuration(_))));
    }
}

#[test]
fn headers_and_settings() {
    let h = ApiHeaders::from_values(Some("t".to_string()), Some("o/r".to_string()), None).unwrap();
    assert_eq!(h.app_identifier, "NoteApp");
    let svc = get_note_service(&h).unwrap();
    assert_eq!(svc.owner, "o");
    let missing = ApiHeaders::from_values(None, Some("o/r".to_string()), None);
    assert!(matches!(missing, Err(MissingHeader::GithubToken)));
    let missing = ApiHeaders::from_values(Some("t".to_string()), None, None);
    assert!(matches!(missing, Err(MissingHeader::NotesRepo)));
    assert_eq!(MissingHeader::NotesRepo.message(), "NOTES_REPO header is missing");
    let s = service_from_settings(Some("t".to_string()), Some("o/r".to_string()), Some("desk".to_string())).unwrap();
    assert_eq!(s.app_identifier, "desk");
    assert!(matches!(service_from_settings(None, Some("o/r".to_string()), None), Err(NoteServiceError::Configuration(_))));
    assert!(matches!(service_from_settings(Some("t".to_string()), None, None), Err(NoteServiceError::Configuration(_))));
}

#[test]
fn errors_convert() {
    assert_eq!(NoteServiceError::from(GitHubServiceError::NotFound), NoteServiceError::NotFound);
    assert_eq!(
        NoteServiceError::from(GitHubServiceError::AlreadyExists),
        NoteServiceError::NoteAlreadyExists
    );
    assert_eq!(
        NoteServiceError::from(GitHubServiceError::Api("m".to_string())),
        NoteServiceError::RemoteApi("m".to_string())
    );
    assert_eq!(TauriError::from(NoteServiceError::RemoteApi("m".to_string())), TauriError::GitHub("m".to_string()));
    assert_eq!(
        TauriError::from(NoteServiceError::Configuration("c".to_string())),
        TauriError::Anyhow("c".to_string())
    );
    assert_eq!(TauriError::from(NoteServiceError::NoteAlreadyExists), TauriError::NoteAlreadyExists);
}
