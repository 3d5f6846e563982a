//! The document store: a backend that holds the document, and one operation
//! for each command, which reads the document, changes it and writes it back.

use crate::document::{keeps_invariant, without_id, Command};
use crate::lemmas::{
    lemma_after_well_formed, lemma_with_epic_well_formed, lemma_without_id_push,
};
use crate::models::{DBState, DBStateView, Epic, EpicView, Status, Story, StoryView};
use std::collections::HashMap;
use vstd::prelude::*;

pub mod test_utils;

verus! {

/// Why an operation on the store failed.
#[derive(Debug, Clone, Copy, PartialEq, Eq, Structural)]
pub enum DbError {
    /// The backend could not produce a document.
    ReadFailure,
    /// The backend could not persist a document.
    WriteFailure,
    /// No epic has the given identifier.
    EpicNotFound,
    /// No story has the given identifier.
    StoryNotFound,
    /// The story list of the epic does not name the given story.
    StoryNotInEpic,
}

/// `map` with `value` under `key`, in place of what `key` had.
pub fn add_key_value<T>(map: HashMap<u32, T>, key: u32, value: T) -> (added: HashMap<u32, T>)
    ensures
        added@ == map@.insert(key, value),
{
    let mut map = map;
    map.insert(key, value);
    map
}

/// `map` without `key`.
pub fn remove_key_value<T>(map: HashMap<u32, T>, key: &u32) -> (removed: HashMap<u32, T>)
    ensures
        removed@ == map@.remove(*key),
{
    let mut map = map;
    map.remove(key);
    map
}

/// Whether `id` is one of `ids`.
fn contains_id(ids: &Vec<u32>, id: u32) -> (found: bool)
    ensures
        found == ids@.contains(id),
{
    let mut i: usize = 0;
    while i < ids.len()
        invariant
            i <= ids.len(),
            forall|j: int| 0 <= j < i ==> ids@[j] != id,
        decreases ids.len() - i,
    {
        if ids[i] == id {
            return true;
        }
        i += 1;
    }
    false
}

/// `ids` without any occurrence of `id`, the rest in their order.
fn retain_other_ids(ids: &Vec<u32>, id: u32) -> (kept: Vec<u32>)
    ensures
        kept@ == without_id(ids@, id),
{
    let mut kept: Vec<u32> = Vec::new();
    let mut i: usize = 0;
    while i < ids.len()
        invariant
            i <= ids.len(),
            kept@ == without_id(ids@.take(i as int), id),
        decreases ids.len() - i,
    {
        proof {
            assert(ids@.take(i + 1) =~= ids@.take(i as int).push(ids@[i as int]));
            lemma_without_id_push(ids@.take(i as int), ids@[i as int], id);
        }
        if ids[i] != id {
            kept.push(ids[i]);
        }
        i += 1;
    }
    assert(ids@.take(ids.len() as int) =~= ids@);
    kept
}

impl DBState {
    /// Adds `epic` under the next identifier, which is then `last_item_id`.
    /// An epic that comes without stories keeps the invariant of the
    /// document.
    pub fn with_epic(self, epic: Epic) -> (next: Self)
        requires
            self.last_item_id < u32::MAX,
        ensures
            next@ == self@.with_epic(epic@),
            self@.well_formed() && epic@.stories.len() == 0 ==> next@.well_formed(),
    {
        proof {
            if self@.well_formed() && epic@.stories.len() == 0 {
                lemma_with_epic_well_formed(self@, epic@);
            }
        }
        let id = self.last_item_id + 1;
        let next = DBState {
            last_item_id: id,
            epics: add_key_value(self.epics, id, epic),
            stories: self.stories,
        };
        assert(next@.epics =~= self@.epics.insert(id, epic@));
        next
    }

    /// Adds `story` under the next identifier, which is then `last_item_id`,
    /// and appends that identifier to the story list of the epic `epic_id`.
    /// Fails with `EpicNotFound` where no epic has that identifier.
    pub fn with_story(self, story: Story, epic_id: u32) -> (next: Result<Self, DbError>)
        requires
            self.last_item_id < u32::MAX,
        ensures
            view_of(next) == self@.with_story(story@, epic_id),
            self@.well_formed() && next is Ok ==> next->Ok_0@.well_formed(),
    {
        proof {
            if self@.well_formed() {
                lemma_after_well_formed(self@, Command::CreateStory { story: story@, epic_id });
            }
        }
        let id = self.last_item_id + 1;
        let mut next = DBState {
            last_item_id: id,
            epics: self.epics,
            stories: add_key_value(self.stories, id, story),
        };
        match next.epics.remove(&epic_id) {
            None => Err(DbError::EpicNotFound),
            Some(epic) => {
                let mut epic = epic;
                epic.stories.push(id);
                next.epics.insert(epic_id, epic);
                assert(next@.epics =~= self@.epics.insert(
                    epic_id,
                    EpicView { stories: self@.epics[epic_id].stories.push(id), ..self@.epics[epic_id] },
                ));
                assert(next@.stories =~= self@.stories.insert(id, story@));
                Ok(next)
            },
        }
    }

    /// Removes the epic `epic_id` and the stories that its list names; a name
    /// in the list that is no story is passed over. Fails with `EpicNotFound`
    /// where no epic has that identifier.
    pub fn without_epic(self, epic_id: u32) -> (next: Result<Self, DbError>)
        ensures
            view_of(next) == self@.without_epic(epic_id),
            self@.well_formed() && next is Ok ==> next->Ok_0@.well_formed(),
    {
        proof {
            if self@.well_formed() {
                lemma_after_well_formed(self@, Command::DeleteEpic { epic_id });
            }
        }
        let mut stories = self.stories;
        match self.epics.get(&epic_id) {
            None => {
                return Err(DbError::EpicNotFound);
            },
            Some(epic) => {
                let mut i: usize = 0;
                while i < epic.stories.len()
                    invariant
                        i <= epic.stories.len(),
                        stories@ == self.stories@.remove_keys(
                            epic.stories@.take(i as int).to_set(),
                        ),
                    decreases epic.stories.len() - i,
                {
                    let story_id = epic.stories[i];
                    stories.remove(&story_id);
                    proof {
                        assert(epic.stories@.take(i + 1) =~= epic.stories@.take(i as int).push(
                            story_id,
                        ));
                        epic.stories@.take(i as int).lemma_push_to_set_commute(story_id);
                    }
                    i += 1;
                }
                assert(epic.stories@.take(epic.stories.len() as int) =~= epic.stories@);
            },
        }
        let next = DBState {
            last_item_id: self.last_item_id,
            epics: remove_key_value(self.epics, &epic_id),
            stories,
        };
        assert(next@.epics =~= self@.epics.remove(epic_id));
        assert(next@.stories =~= self@.stories.remove_keys(
            self@.epics[epic_id].stories.to_set(),
        ));
        Ok(next)
    }

    /// Removes the story `story_id` and its name from the story list of the
    /// epic `epic_id`. Fails with `EpicNotFound` where no epic has that
    /// identifier, else with `StoryNotInEpic` where the list does not name
    /// the story, be there such a story or not.
    pub fn without_story(self, epic_id: u32, story_id: u32) -> (next: Result<Self, DbError>)
        ensures
            view_of(next) == self@.without_story(epic_id, story_id),
            self@.well_formed() && next is Ok ==> next->Ok_0@.well_formed(),
    {
        proof {
            if self@.well_formed() {
                lemma_after_well_formed(self@, Command::DeleteStory { epic_id, story_id });
            }
        }
        let mut next = DBState {
            last_item_id: self.last_item_id,
            epics: self.epics,
            stories: remove_key_value(self.stories, &story_id),
        };
        match next.epics.remove(&epic_id) {
            None => Err(DbError::EpicNotFound),
            Some(epic) => {
                if !contains_id(&epic.stories, story_id) {
                    return Err(DbError::StoryNotInEpic);
                }
                let mut epic = epic;
                epic.stories = retain_other_ids(&epic.stories, story_id);
                next.epics.insert(epic_id, epic);
                assert(next@.epics =~= self@.epics.insert(
                    epic_id,
                    EpicView {
                        stories: without_id(self@.epics[epic_id].stories, story_id),
                        ..self@.epics[epic_id]
                    },
                ));
                assert(next@.stories =~= self@.stories.remove(story_id));
                Ok(next)
            },
        }
    }

    /// Sets the status of the epic `epic_id`. Fails with `EpicNotFound` where
    /// no epic has that identifier.
    pub fn with_epic_status(self, epic_id: u32, status: Status) -> (next: Result<Self, DbError>)
        ensures
            view_of(next) == self@.with_epic_status(epic_id, status),
            self@.well_formed() && next is Ok ==> next->Ok_0@.well_formed(),
    {
        proof {
            if self@.well_formed() {
                lemma_after_well_formed(self@, Command::UpdateEpicStatus { epic_id, status });
            }
        }
        let mut next = self;
        match next.epics.remove(&epic_id) {
            None => Err(DbError::EpicNotFound),
            Some(epic) => {
                let mut epic = epic;
                epic.status = status;
                next.epics.insert(epic_id, epic);
                assert(next@.epics =~= self@.epics.insert(
                    epic_id,
                    EpicView { status, ..self@.epics[epic_id] },
                ));
                Ok(next)
            },
        }
    }

    /// Sets the status of the story `story_id`. Fails with `StoryNotFound`
    /// where no story has that identifier.
    pub fn with_story_status(self, story_id: u32, status: Status) -> (next: Result<Self, DbError>)
        ensures
            view_of(next) == self@.with_story_status(story_id, status),
            self@.well_formed() && next is Ok ==> next->Ok_0@.well_formed(),
    {
        proof {
            if self@.well_formed() {
                lemma_after_well_formed(self@, Command::UpdateStoryStatus { story_id, status });
            }
        }
        let mut next = self;
        match next.stories.remove(&story_id) {
            None => Err(DbError::StoryNotFound),
            Some(story) => {
                let mut story = story;
                story.status = status;
                next.stories.insert(story_id, story);
                assert(next@.stories =~= self@.stories.insert(
                    story_id,
                    StoryView { status, ..self@.stories[story_id] },
                ));
                Ok(next)
            },
        }
    }
}

/// The outcome of a change to the document, the new document taken by its
/// view.
pub open spec fn view_of(outcome: Result<DBState, DbError>) -> Result<DBStateView, DbError> {
    match outcome {
        Ok(state) => Ok(state@),
        Err(error) => Err(error),
    }
}

/// What a read may return of a backend that holds `held`: on success the
/// document that it holds.
pub open spec fn reads(held: Option<DBStateView>, outcome: Result<DBState, DbError>) -> bool {
    match outcome {
        Ok(state) => held == Some(state@),
        Err(error) => error == DbError::ReadFailure,
    }
}

/// What a write of `written` may return, and what the backend holds after
/// it: on success `written`. A failed write leaves open what it holds.
pub open spec fn writes(
    written: DBStateView,
    held_after: Option<DBStateView>,
    outcome: Result<(), DbError>,
) -> bool {
    match outcome {
        Ok(()) => held_after == Some(written),
        Err(error) => error == DbError::WriteFailure,
    }
}

/// A place that keeps the whole document: it is loaded in full and replaced
/// in full.
pub trait Database {
    /// The document that the backend holds, where it holds one. A backend
    /// says here what it holds; one that does not say holds none.
    open spec fn stored(&self) -> Option<DBStateView> {
        None
    }

    /// Loads the whole document.
    fn read_db(&self) -> (outcome: Result<DBState, DbError>)
        ensures
            reads(self.stored(), outcome),
    ;

    /// Replaces the whole document by `db_state`.
    fn write_db(&mut self, db_state: &DBState) -> (outcome: Result<(), DbError>)
        ensures
            writes(db_state@, final(self).stored(), outcome),
    ;
}

/// A backend in a box is a backend: it holds what the backend inside holds.
impl<D: Database + ?Sized> Database for Box<D> {
    open spec fn stored(&self) -> Option<DBStateView> {
        (**self).stored()
    }

    fn read_db(&self) -> (outcome: Result<DBState, DbError>) {
        (**self).read_db()
    }

    fn write_db(&mut self, db_state: &DBState) -> (outcome: Result<(), DbError>) {
        (**self).write_db(db_state)
    }
}

/// A document that was written is the document that a read then returns.
pub proof fn lemma_read_after_write(
    written: DBStateView,
    held: Option<DBStateView>,
    write: Result<(), DbError>,
    read: Result<DBState, DbError>,
)
    requires
        writes(written, held, write),
        write is Ok,
        reads(held, read),
        read is Ok,
    ensures
        read->Ok_0@ == written,
{
}

/// How one operation of the store relates the document held before it, the
/// command, the document held after it and the failure, if it failed.
///
/// Without a failure the command has been applied and its result is held. A
/// refused command leaves what is held as it was, and so does a failed read.
/// A failed write came after a command that was accepted, and leaves open
/// what is held.
///
/// So an operation fails with `ReadFailure` where no document is held, and
/// with the refusal of the document where it refuses the command; where it
/// accepts the command, the operation succeeds unless the backend fails.
pub open spec fn performs(
    before: Option<DBStateView>,
    command: Command,
    after: Option<DBStateView>,
    failure: Option<DbError>,
) -> bool {
    match failure {
        None => {
            &&& before matches Some(document)
            &&& document.apply(command) matches Ok(next)
            &&& after == Some(next)
        },
        Some(DbError::ReadFailure) => after == before,
        Some(DbError::WriteFailure) => {
            &&& before matches Some(document)
            &&& document.apply(command) is Ok
        },
        Some(refusal) => {
            &&& before matches Some(document)
            &&& document.apply(command) matches Err(reason)
            &&& reason == refusal
            &&& after == before
        },
    }
}

/// An operation that completes on a document with the invariant leaves a
/// document with the invariant: the one that it found, or the one that the
/// command made of it. A failed write is no completion: it leaves open what
/// is held.
pub proof fn lemma_performs_keeps_well_formed(
    before: DBStateView,
    command: Command,
    after: Option<DBStateView>,
    failure: Option<DbError>,
)
    requires
        performs(Some(before), command, after, failure),
        failure != Some(DbError::WriteFailure),
        before.well_formed(),
        keeps_invariant(command),
        command.creates() ==> before.last_item_id < u32::MAX,
    ensures
        after matches Some(document) && document.well_formed(),
{
    lemma_after_well_formed(before, command);
}

/// An operation that completes moves the counter only where it has created
/// an epic or a story, and then by one: an operation that failed has used up
/// no identifier.
pub proof fn lemma_performs_counter(
    before: DBStateView,
    command: Command,
    after: Option<DBStateView>,
    failure: Option<DbError>,
)
    requires
        performs(Some(before), command, after, failure),
        failure != Some(DbError::WriteFailure),
        before.last_item_id < u32::MAX,
    ensures
        after is Some,
        failure is None && command.creates() ==> after->0.last_item_id == before.last_item_id + 1,
        !(failure is None && command.creates()) ==> after->0.last_item_id == before.last_item_id,
{
}

/// The store: one operation for each command, each of which reads the whole
/// document from the backend, changes it, and writes it back only where the
/// command was accepted.
pub struct JiraDatabase<D: Database> {
    pub database: D,
}

impl<D: Database> JiraDatabase<D> {
    /// A store on `database`.
    pub fn new(database: D) -> (store: Self)
        ensures
            store.database == database,
    {
        Self { database }
    }

    /// The document that the backend of the store holds, where it holds one.
    pub open spec fn stored(&self) -> Option<DBStateView> {
        self.database.stored()
    }

    /// Loads the whole document.
    pub fn read_db(&self) -> (outcome: Result<DBState, DbError>)
        ensures
            reads(self.stored(), outcome),
    {
        self.database.read_db()
    }

    /// Adds `epic` and returns its identifier, the next one.
    pub fn create_epic(&mut self, epic: Epic) -> (outcome: Result<u32, DbError>)
        requires
            old(self).stored() matches Some(document) ==> document.last_item_id < u32::MAX,
        ensures
            performs(
                old(self).stored(),
                Command::CreateEpic { epic: epic@ },
                final(self).stored(),
                outcome.err(),
            ),
            outcome matches Ok(id) ==> id == old(self).stored()->0.next_id(),
    {
        let db_old = match self.read_db() {
            Ok(state) => state,
            Err(error) => {
                return Err(error);
            },
        };
        let db_new = db_old.with_epic(epic);
        match self.database.write_db(&db_new) {
            Ok(()) => Ok(db_new.last_item_id),
            Err(error) => Err(error),
        }
    }

    /// Adds `story` to the epic `epic_id` and returns its identifier, the
    /// next one. Where the document has no such epic, nothing is changed and
    /// no identifier is used up.
    pub fn create_story(&mut self, story: Story, epic_id: u32) -> (outcome: Result<u32, DbError>)
        requires
            old(self).stored() matches Some(document) ==> document.last_item_id < u32::MAX,
        ensures
            performs(
                old(self).stored(),
                Command::CreateStory { story: story@, epic_id },
                final(self).stored(),
                outcome.err(),
            ),
            outcome matches Ok(id) ==> id == old(self).stored()->0.next_id(),
            old(self).stored() matches Some(document) && !document.epics.contains_key(epic_id)
                ==> outcome is Err && final(self).stored() == old(self).stored(),
    {
        let db_old = match self.read_db() {
            Ok(state) => state,
            Err(error) => {
                return Err(error);
            },
        };
        let db_new = match db_old.with_story(story, epic_id) {
            Ok(state) => state,
            Err(error) => {
                return Err(error);
            },
        };
        match self.database.write_db(&db_new) {
            Ok(()) => Ok(db_new.last_item_id),
            Err(error) => Err(error),
        }
    }

    /// Removes the epic `epic_id` and the stories that it owns.
    pub fn delete_epic(&mut self, epic_id: u32) -> (outcome: Result<(), DbError>)
        ensures
            performs(
                old(self).stored(),
                Command::DeleteEpic { epic_id },
                final(self).stored(),
                outcome.err(),
            ),
    {
        let db_old = match self.read_db() {
            Ok(state) => state,
            Err(error) => {
                return Err(error);
            },
        };
        let db_new = match db_old.without_epic(epic_id) {
            Ok(state) => state,
            Err(error) => {
                return Err(error);
            },
        };
        self.database.write_db(&db_new)
    }

    /// Removes the story `story_id` from the document and from the epic
    /// `epic_id`, which must own it.
    pub fn delete_story(&mut self, epic_id: u32, story_id: u32) -> (outcome: Result<(), DbError>)
        ensures
            performs(
                old(self).stored(),
                Command::DeleteStory { epic_id, story_id },
                final(self).stored(),
                outcome.err(),
            ),
    {
        let db_old = match self.read_db() {
            Ok(state) => state,
            Err(error) => {
                return Err(error);
            },
        };
        let db_new = match db_old.without_story(epic_id, story_id) {
            Ok(state) => state,
            Err(error) => {
                return Err(error);
            },
        };
        self.database.write_db(&db_new)
    }

    /// Sets the status of the epic `epic_id`.
    pub fn update_epic_status(&mut self, epic_id: u32, status: Status) -> (outcome: Result<
        (),
        DbError,
    >)
        ensures
            performs(
                old(self).stored(),
                Command::UpdateEpicStatus { epic_id, status },
                final(self).stored(),
                outcome.err(),
            ),
    {
        let db_old = match self.read_db() {
            Ok(state) => state,
            Err(error) => {
                return Err(error);
            },
        };
        let db_new = match db_old.with_epic_status(epic_id, status) {
            Ok(state) => state,
            Err(error) => {
                return Err(error);
            },
        };
        self.database.write_db(&db_new)
    }

    /// Sets the status of the story `story_id`.
    pub fn update_story_status(&mut self, story_id: u32, status: Status) -> (outcome: Result<
        (),
        DbError,
    >)
        ensures
            performs(
                old(self).stored(),
                Command::UpdateStoryStatus { story_id, status },
                final(self).stored(),
                outcome.err(),
            ),
    {
        let db_old = match self.read_db() {
            Ok(state) => state,
            Err(error) => {
                return Err(error);
            },
        };
        let db_new = match db_old.with_story_status(story_id, status) {
            Ok(state) => state,
            Err(error) => {
                return Err(error);
            },
        };
        self.database.write_db(&db_new)
    }
}

} // verus!
