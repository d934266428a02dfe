use gitit::{CommitData, LastError, Oid, Repository};

fn accepted() -> LastError {
    LastError { klass: 0, message: String::new() }
}

fn last(klass: i32, message: &str) -> LastError {
    LastError { klass, message: String::from(message) }
}

fn fixture_hash() -> [u8; 20] {
    let mut hash = [0u8; 20];
    for (i, b) in hash.iter_mut().enumerate() {
        *b = i as u8;
    }
    hash
}

fn fixture_commit() -> CommitData {
    CommitData {
        message: Some(b"Initial commit\n".to_vec()),
        author_name: Some(b"Jane Doe".to_vec()),
        author_email: Some(b"jane@example.com".to_vec()),
    }
}

#[test]
fn accepted_session_reaches_author_and_message() {
    let mut repo = Repository::open(0, accepted()).unwrap();
    let oid = repo.reference_name_to_oid(0, accepted(), fixture_hash()).unwrap();
    assert_eq!(oid.bytes(), fixture_hash());
    let commit = repo.find_commit(0, accepted(), fixture_commit()).unwrap();

    let author = commit.author();
    assert_eq!(author.name(), Some(String::from("Jane Doe")));
    assert_eq!(author.email(), Some(String::from("jane@example.com")));
    assert_eq!(commit.message(), Some(String::from("Initial commit\n")));

    assert!(repo.owns_commit(&commit));
    repo.free_commit(commit);
    assert_eq!(repo.live_commit_count(), 0);
    assert!(!repo.has_live_commits());
    repo.close();
}

#[test]
fn open_of_a_non_repository_fails_cleanly() {
    let r = Repository::open(-3, last(6, "could not find repository at 'nowhere'"));
    let e = r.unwrap_err();
    assert!(e.code() < 0);
    assert_eq!(e.klass(), 6);
    assert!(!e.message().is_empty());
}

#[test]
fn unresolved_reference_fails_and_mutates_nothing() {
    let repo = Repository::open(0, accepted()).unwrap();
    let r = repo.reference_name_to_oid(-3, last(4, "reference 'HEAD' not found"), [0u8; 20]);
    let e = r.unwrap_err();
    assert_eq!(e.code(), -3);
    assert_eq!(e.klass(), 4);
    assert_eq!(repo.live_commit_count(), 0);
    repo.close();
}

#[test]
fn refused_lookup_leaves_no_handle_behind() {
    let mut repo = Repository::open(0, accepted()).unwrap();
    let r = repo.find_commit(-3, last(3, "object not found"), fixture_commit());
    assert!(r.is_err());
    assert_eq!(repo.live_commit_count(), 0);
    assert!(!repo.has_live_commits());
    repo.close();
}

#[test]
fn commits_are_released_before_their_repository() {
    let mut repo = Repository::open(0, accepted()).unwrap();
    let first = repo.find_commit(0, accepted(), fixture_commit()).unwrap();
    let second = repo.find_commit(0, accepted(), fixture_commit()).unwrap();
    assert_eq!(repo.live_commit_count(), 2);
    assert!(repo.has_live_commits());

    repo.free_commit(first);
    assert_eq!(repo.live_commit_count(), 1);
    repo.free_commit(second);
    assert_eq!(repo.live_commit_count(), 0);
    assert!(!repo.has_live_commits());
    repo.close();
}

#[test]
fn absent_author_fields_decode_to_none() {
    let mut repo = Repository::open(0, accepted()).unwrap();
    let commit = repo
        .find_commit(
            0,
            accepted(),
            CommitData { message: None, author_name: None, author_email: Some(vec![0xff]) },
        )
        .unwrap();
    let author = commit.author();
    assert_eq!(author.name(), None);
    assert_eq!(author.email(), None);
    assert_eq!(commit.message(), None);
    repo.free_commit(commit);
    repo.close();
}

#[test]
fn oid_carries_its_bytes() {
    let hash = fixture_hash();
    let oid = Oid::from_bytes(hash);
    assert_eq!(oid.bytes(), hash);
    let copy = oid;
    assert_eq!(copy.bytes(), oid.bytes());
}
