use gossip::dao::InMemoryRepository;
use gossip::dao::Repository;
use gossip::dao::RepositoryError;
use gossip::domain::NewPaste;
use gossip::domain::PasteContent;
use gossip::domain::PasteId;

fn id(raw: &str) -> PasteId {
    PasteId::parse(raw.to_string()).unwrap()
}

fn content(raw: &str) -> PasteContent {
    PasteContent::parse(raw.to_string()).unwrap()
}

#[test]
fn inserted_paste_is_found_unchanged() {
    let mut repo = InMemoryRepository::new();
    repo.insert(NewPaste { id: id("abc"), content: content("somecontent") })
        .unwrap();
    let found = repo.find_one(id("abc")).unwrap();
    assert_eq!("somecontent", found.as_str());
}

#[test]
fn missing_id_reports_not_found_carrying_it() {
    let repo = InMemoryRepository::new();
    let err = repo.find_one(id("abc")).unwrap_err();
    assert!(matches!(&err, RepositoryError::NotFound(s) if s == "abc"));
    assert_eq!("Not found: abc", err.message());
}

#[test]
fn inserting_other_keys_leaves_a_key_missing() {
    let mut repo = InMemoryRepository::new();
    repo.insert(NewPaste { id: id("other"), content: content("x") })
        .unwrap();
    let err = repo.find_one(id("abc")).unwrap_err();
    assert!(matches!(&err, RepositoryError::NotFound(s) if s == "abc"));
}

#[test]
fn overwrite_keeps_only_the_second_content() {
    let mut repo = InMemoryRepository::new();
    repo.insert(NewPaste { id: id("abc"), content: content("first") })
        .unwrap();
    repo.insert(NewPaste { id: id("abc"), content: content("second") })
        .unwrap();
    let found = repo.find_one(id("abc")).unwrap();
    assert_eq!("second", found.as_str());
}

#[test]
fn distinct_keys_do_not_disturb_each_other() {
    let mut repo = InMemoryRepository::new();
    repo.insert(NewPaste { id: id("one"), content: content("alpha") })
        .unwrap();
    repo.insert(NewPaste { id: id("two"), content: content("beta") })
        .unwrap();
    repo.insert(NewPaste { id: id("one"), content: content("gamma") })
        .unwrap();
    assert_eq!("gamma", repo.find_one(id("one")).unwrap().as_str());
    assert_eq!("beta", repo.find_one(id("two")).unwrap().as_str());
}

#[test]
fn write_failure_message_names_the_cause() {
    let err = RepositoryError::WriteFailure("disk full".to_string());
    assert_eq!("Failed to write: disk full", err.message());
    assert_eq!(400, err.status());
    assert_eq!(404, RepositoryError::NotFound("abc".to_string()).status());
}
