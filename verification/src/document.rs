//! The rules of the document: what each command makes of it, which
//! identifiers it issues and what holds of it at all times, stated on the
//! mathematical view of the document.

use crate::db::DbError;
use crate::models::{DBStateView, EpicView, Status, StoryView};
use vstd::prelude::*;

verus! {

/// One request to change the document.
pub enum Command {
    CreateEpic { epic: EpicView },
    CreateStory { story: StoryView, epic_id: u32 },
    DeleteEpic { epic_id: u32 },
    DeleteStory { epic_id: u32, story_id: u32 },
    UpdateEpicStatus { epic_id: u32, status: Status },
    UpdateStoryStatus { story_id: u32, status: Status },
}

impl Command {
    /// Whether the command asks for a new epic or story, and so for a new
    /// identifier.
    pub open spec fn creates(self) -> bool {
        self is CreateEpic || self is CreateStory
    }
}

/// `ids` without any occurrence of `id`, the rest in their order.
pub open spec fn without_id(ids: Seq<u32>, id: u32) -> Seq<u32> {
    ids.filter(|other: u32| other != id)
}

impl DBStateView {
    /// The document that holds nothing and has issued no identifier.
    pub open spec fn empty() -> Self {
        DBStateView { last_item_id: 0, epics: Map::empty(), stories: Map::empty() }
    }

    /// The identifier that the next creation issues.
    pub open spec fn next_id(self) -> u32
        recommends
            self.last_item_id < u32::MAX,
    {
        (self.last_item_id + 1) as u32
    }

    /// The document with `epic` added under the next identifier.
    pub open spec fn with_epic(self, epic: EpicView) -> Self {
        DBStateView {
            last_item_id: self.next_id(),
            epics: self.epics.insert(self.next_id(), epic),
            stories: self.stories,
        }
    }

    /// The document with `story` added under the next identifier, and that
    /// identifier appended to the story list of the epic `epic_id`.
    pub open spec fn with_story(self, story: StoryView, epic_id: u32) -> Result<Self, DbError> {
        if self.epics.contains_key(epic_id) {
            let epic = self.epics[epic_id];
            Ok(
                DBStateView {
                    last_item_id: self.next_id(),
                    epics: self.epics.insert(
                        epic_id,
                        EpicView { stories: epic.stories.push(self.next_id()), ..epic },
                    ),
                    stories: self.stories.insert(self.next_id(), story),
                },
            )
        } else {
            Err(DbError::EpicNotFound)
        }
    }

    /// The document without the epic `epic_id` and without the stories that
    /// its list names. A name in the list that is no story is passed over.
    pub open spec fn without_epic(self, epic_id: u32) -> Result<Self, DbError> {
        if self.epics.contains_key(epic_id) {
            Ok(
                DBStateView {
                    last_item_id: self.last_item_id,
                    epics: self.epics.remove(epic_id),
                    stories: self.stories.remove_keys(self.epics[epic_id].stories.to_set()),
                },
            )
        } else {
            Err(DbError::EpicNotFound)
        }
    }

    /// The document without the story `story_id`, which the list of the epic
    /// `epic_id` must name: the list decides, not the stories of the document.
    pub open spec fn without_story(self, epic_id: u32, story_id: u32) -> Result<Self, DbError> {
        if !self.epics.contains_key(epic_id) {
            Err(DbError::EpicNotFound)
        } else if !self.epics[epic_id].stories.contains(story_id) {
            Err(DbError::StoryNotInEpic)
        } else {
            let epic = self.epics[epic_id];
            Ok(
                DBStateView {
                    last_item_id: self.last_item_id,
                    epics: self.epics.insert(
                        epic_id,
                        EpicView { stories: without_id(epic.stories, story_id), ..epic },
                    ),
                    stories: self.stories.remove(story_id),
                },
            )
        }
    }

    /// The document with the status of the epic `epic_id` set to `status`.
    pub open spec fn with_epic_status(self, epic_id: u32, status: Status) -> Result<
        Self,
        DbError,
    > {
        if self.epics.contains_key(epic_id) {
            Ok(
                DBStateView {
                    epics: self.epics.insert(
                        epic_id,
                        EpicView { status, ..self.epics[epic_id] },
                    ),
                    ..self
                },
            )
        } else {
            Err(DbError::EpicNotFound)
        }
    }

    /// The document with the status of the story `story_id` set to `status`.
    pub open spec fn with_story_status(self, story_id: u32, status: Status) -> Result<
        Self,
        DbError,
    > {
        if self.stories.contains_key(story_id) {
            Ok(
                DBStateView {
                    stories: self.stories.insert(
                        story_id,
                        StoryView { status, ..self.stories[story_id] },
                    ),
                    ..self
                },
            )
        } else {
            Err(DbError::StoryNotFound)
        }
    }

    /// What `command` makes of the document, or why it is refused.
    pub open spec fn apply(self, command: Command) -> Result<Self, DbError> {
        match command {
            Command::CreateEpic { epic } => Ok(self.with_epic(epic)),
            Command::CreateStory { story, epic_id } => self.with_story(story, epic_id),
            Command::DeleteEpic { epic_id } => self.without_epic(epic_id),
            Command::DeleteStory { epic_id, story_id } => self.without_story(epic_id, story_id),
            Command::UpdateEpicStatus { epic_id, status } => self.with_epic_status(
                epic_id,
                status,
            ),
            Command::UpdateStoryStatus { story_id, status } => self.with_story_status(
                story_id,
                status,
            ),
        }
    }
}

impl DBStateView {
    /// Whether `id` has been issued: identifiers start at 1, and the last one
    /// issued is `last_item_id`.
    pub open spec fn issued(self, id: u32) -> bool {
        1 <= id <= self.last_item_id
    }

    /// Whether the story list of the epic `epic_id` names `story_id`.
    pub open spec fn owns(self, epic_id: u32, story_id: u32) -> bool {
        self.epics.contains_key(epic_id) && self.epics[epic_id].stories.contains(story_id)
    }

    /// The invariant of the document:
    /// - every identifier in use has been issued, and none is used twice:
    ///   epics and stories share one space of identifiers;
    /// - every story that a story list names is a story of the document;
    /// - no story is named twice, be it by two epics or in one list.
    pub open spec fn well_formed(self) -> bool {
        &&& forall|id: u32| #[trigger]
            self.epics.contains_key(id) ==> self.issued(id) && !self.stories.contains_key(id)
        &&& forall|id: u32| #[trigger] self.stories.contains_key(id) ==> self.issued(id)
        &&& forall|epic_id: u32, story_id: u32| #[trigger]
            self.owns(epic_id, story_id) ==> self.stories.contains_key(story_id)
        &&& forall|first: u32, second: u32, story_id: u32|
            #![trigger self.owns(first, story_id), self.owns(second, story_id)]
            self.owns(first, story_id) && self.owns(second, story_id) ==> first == second
        &&& forall|epic_id: u32| #[trigger]
            self.epics.contains_key(epic_id) ==> self.epics[epic_id].stories.no_duplicates()
    }

    /// The document after `command`: a command that is refused leaves it as
    /// it was.
    pub open spec fn after(self, command: Command) -> Self {
        match self.apply(command) {
            Ok(next) => next,
            Err(_) => self,
        }
    }

    /// The document after each of `commands` in turn.
    pub open spec fn after_all(self, commands: Seq<Command>) -> Self
        decreases commands.len(),
    {
        if commands.len() == 0 {
            self
        } else {
            self.after_all(commands.drop_last()).after(commands.last())
        }
    }

    /// The identifiers that `commands` got issued, in the order of issue: one
    /// for each creation that was accepted.
    pub open spec fn issued_by(self, commands: Seq<Command>) -> Seq<u32>
        decreases commands.len(),
    {
        if commands.len() == 0 {
            Seq::empty()
        } else {
            let before = self.after_all(commands.drop_last());
            let earlier = self.issued_by(commands.drop_last());
            if commands.last().creates() && before.apply(commands.last()) is Ok {
                earlier.push(before.next_id())
            } else {
                earlier
            }
        }
    }
}

/// Whether `command` keeps the invariant of a document: a new epic must come
/// without stories; every other command does.
pub open spec fn keeps_invariant(command: Command) -> bool {
    command matches Command::CreateEpic { epic } ==> epic.stories.len() == 0
}

} // verus!
