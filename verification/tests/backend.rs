use jira_cli::db::test_utils::MockDB;
use jira_cli::db::{Database, DbError, JiraDatabase};
use jira_cli::models::{DBState, Epic, Status, Story};

struct Unreadable;

impl Database for Unreadable {
    fn read_db(&self) -> Result<DBState, DbError> {
        Err(DbError::ReadFailure)
    }

    fn write_db(&mut self, _db_state: &DBState) -> Result<(), DbError> {
        Err(DbError::WriteFailure)
    }
}

struct ReadOnly {
    writes: u32,
}

impl Database for ReadOnly {
    fn read_db(&self) -> Result<DBState, DbError> {
        let state = DBState::new();
        Ok(state.with_epic(Epic::new("kept".to_owned(), "".to_owned())))
    }

    fn write_db(&mut self, _db_state: &DBState) -> Result<(), DbError> {
        self.writes += 1;
        Err(DbError::WriteFailure)
    }
}

#[test]
fn a_failed_read_fails_every_operation() {
    let mut db = JiraDatabase::new(Unreadable);
    assert_eq!(db.read_db().err(), Some(DbError::ReadFailure));
    assert_eq!(
        db.create_epic(Epic::new("a".to_owned(), "b".to_owned())),
        Err(DbError::ReadFailure)
    );
    assert_eq!(
        db.create_story(Story::new("a".to_owned(), "b".to_owned()), 1),
        Err(DbError::ReadFailure)
    );
    assert_eq!(db.delete_epic(1), Err(DbError::ReadFailure));
    assert_eq!(db.delete_story(1, 2), Err(DbError::ReadFailure));
    assert_eq!(
        db.update_epic_status(1, Status::Closed),
        Err(DbError::ReadFailure)
    );
    assert_eq!(
        db.update_story_status(2, Status::Closed),
        Err(DbError::ReadFailure)
    );
}

#[test]
fn a_failed_write_fails_the_operation() {
    let mut db = JiraDatabase::new(ReadOnly { writes: 0 });
    assert_eq!(
        db.create_epic(Epic::new("a".to_owned(), "b".to_owned())),
        Err(DbError::WriteFailure)
    );
    assert_eq!(
        db.create_story(Story::new("a".to_owned(), "b".to_owned()), 1),
        Err(DbError::WriteFailure)
    );
    assert_eq!(
        db.update_epic_status(1, Status::Resolved),
        Err(DbError::WriteFailure)
    );
    assert_eq!(db.delete_epic(1), Err(DbError::WriteFailure));
    assert_eq!(db.database.writes, 4);
}

#[test]
fn a_refused_command_is_not_written() {
    let mut db = JiraDatabase::new(ReadOnly { writes: 0 });
    assert_eq!(
        db.create_story(Story::new("a".to_owned(), "b".to_owned()), 2),
        Err(DbError::EpicNotFound)
    );
    assert_eq!(db.delete_epic(2), Err(DbError::EpicNotFound));
    assert_eq!(db.delete_story(2, 3), Err(DbError::EpicNotFound));
    assert_eq!(db.delete_story(1, 3), Err(DbError::StoryNotInEpic));
    assert_eq!(
        db.update_epic_status(2, Status::Closed),
        Err(DbError::EpicNotFound)
    );
    assert_eq!(
        db.update_story_status(3, Status::Closed),
        Err(DbError::StoryNotFound)
    );
    assert_eq!(db.database.writes, 0);
}

#[test]
fn mock_db_starts_with_the_empty_document() {
    let db = MockDB::new();
    let state = db.read_db().unwrap();
    assert_eq!(state.last_item_id, 0);
    assert!(state.epics.is_empty());
    assert!(state.stories.is_empty());
}

#[test]
fn mock_db_returns_what_was_written() {
    let mut db = MockDB::new();
    let state = DBState::new()
        .with_epic(Epic::new("epic".to_owned(), "first".to_owned()))
        .with_story(Story::new("story".to_owned(), "second".to_owned()), 1)
        .unwrap()
        .with_story_status(2, Status::InProgress)
        .unwrap();

    assert_eq!(db.write_db(&state), Ok(()));
    let read = db.read_db().unwrap();

    assert_eq!(read.last_item_id, state.last_item_id);
    assert_eq!(read.epics, state.epics);
    assert_eq!(read.stories, state.stories);

    let again = db.read_db().unwrap();
    assert_eq!(again.last_item_id, 2);
    assert_eq!(again.epics, state.epics);
    assert_eq!(again.stories, state.stories);
}

#[test]
fn mock_db_holds_the_last_of_two_writes() {
    let mut db = MockDB::new();
    let first = DBState::new().with_epic(Epic::new("one".to_owned(), "".to_owned()));
    let second = first
        .clone()
        .with_epic(Epic::new("two".to_owned(), "".to_owned()));

    db.write_db(&first).unwrap();
    db.write_db(&second).unwrap();
    let read = db.read_db().unwrap();

    assert_eq!(read.last_item_id, 2);
    assert_eq!(read.epics, second.epics);
    assert_eq!(first.epics.len(), 1);
}

#[test]
fn a_boxed_backend_is_a_backend() {
    let backend: Box<dyn Database> = Box::new(MockDB::new());
    let mut db = JiraDatabase::new(backend);
    assert_eq!(
        db.create_epic(Epic::new("a".to_owned(), "b".to_owned())),
        Ok(1)
    );
    assert_eq!(db.read_db().unwrap().last_item_id, 1);
}
