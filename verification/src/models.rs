//! The data model: statuses, epics, stories and the whole document, each with
//! the mathematical view that the contracts of this crate speak of.

use crate::lemmas::lemma_empty_well_formed;
use std::collections::HashMap;
use vstd::prelude::*;

verus! {

/// The progress of an epic or a story.
#[derive(Debug, Clone, Copy, PartialEq, Eq, Structural)]
pub enum Status {
    Open,
    InProgress,
    Resolved,
    Closed,
}

impl Status {
    /// The name of the status.
    pub open spec fn name(self) -> Seq<char> {
        match self {
            Status::Open => "Open"@,
            Status::InProgress => "InProgress"@,
            Status::Resolved => "Resolved"@,
            Status::Closed => "Closed"@,
        }
    }

    /// The name of the status between double quotes, as it is shown to a user.
    pub open spec fn quoted(self) -> Seq<char> {
        seq!['"'] + self.name() + seq!['"']
    }

    /// The text shown for the status: its name between double quotes.
    pub fn to_string(&self) -> (text: String)
        ensures
            text@ == self.quoted(),
    {
        let name = match self {
            Status::Open => "Open",
            Status::InProgress => "InProgress",
            Status::Resolved => "Resolved",
            Status::Closed => "Closed",
        };
        let quote = "\"";
        proof {
            reveal_strlit("\"");
        }
        let mut text = quote.to_string();
        text.append(name);
        text.append(quote);
        text
    }
}

/// A top-level work item, which owns an ordered list of stories.
#[derive(Debug, PartialEq)]
pub struct Epic {
    pub name: String,
    pub description: String,
    pub status: Status,
    pub stories: Vec<u32>,
}

/// What an [`Epic`] holds, as plain mathematical values.
pub struct EpicView {
    pub name: Seq<char>,
    pub description: Seq<char>,
    pub status: Status,
    pub stories: Seq<u32>,
}

impl View for Epic {
    type V = EpicView;

    open spec fn view(&self) -> EpicView {
        EpicView {
            name: self.name@,
            description: self.description@,
            status: self.status,
            stories: self.stories@,
        }
    }
}

impl Clone for Epic {
    fn clone(&self) -> (copy: Self)
        ensures
            copy@ == self@,
    {
        Epic {
            name: self.name.clone(),
            description: self.description.clone(),
            status: self.status,
            stories: self.stories.clone(),
        }
    }
}

impl Epic {
    /// An open epic that owns no story yet.
    pub fn new(name: String, description: String) -> (epic: Self)
        ensures
            epic@ == (EpicView {
                name: name@,
                description: description@,
                status: Status::Open,
                stories: Seq::empty(),
            }),
    {
        Self { name, description, status: Status::Open, stories: Vec::new() }
    }
}

/// A leaf work item, which belongs to one epic.
#[derive(Debug, PartialEq)]
pub struct Story {
    pub name: String,
    pub description: String,
    pub status: Status,
}

/// What a [`Story`] holds, as plain mathematical values.
pub struct StoryView {
    pub name: Seq<char>,
    pub description: Seq<char>,
    pub status: Status,
}

impl View for Story {
    type V = StoryView;

    open spec fn view(&self) -> StoryView {
        StoryView { name: self.name@, description: self.description@, status: self.status }
    }
}

impl Clone for Story {
    fn clone(&self) -> (copy: Self)
        ensures
            copy@ == self@,
    {
        Story {
            name: self.name.clone(),
            description: self.description.clone(),
            status: self.status,
        }
    }
}

impl Story {
    /// An open story.
    pub fn new(name: String, description: String) -> (story: Self)
        ensures
            story@ == (StoryView { name: name@, description: description@, status: Status::Open }),
    {
        Self { name, description, status: Status::Open }
    }
}

/// The whole persisted state: the identifier counter, the epics and the stories.
#[derive(Debug)]
pub struct DBState {
    pub last_item_id: u32,
    pub epics: HashMap<u32, Epic>,
    pub stories: HashMap<u32, Story>,
}

/// What a [`DBState`] holds, as plain mathematical values.
pub struct DBStateView {
    pub last_item_id: u32,
    pub epics: Map<u32, EpicView>,
    pub stories: Map<u32, StoryView>,
}

impl View for DBState {
    type V = DBStateView;

    open spec fn view(&self) -> DBStateView {
        DBStateView {
            last_item_id: self.last_item_id,
            epics: self.epics@.map_values(|epic: Epic| epic@),
            stories: self.stories@.map_values(|story: Story| story@),
        }
    }
}

impl DBState {
    /// The document that holds nothing and has issued no identifier.
    pub fn new() -> (empty: Self)
        ensures
            empty@ == DBStateView::empty(),
            empty@.well_formed(),
    {
        let empty = DBState { last_item_id: 0, epics: HashMap::new(), stories: HashMap::new() };
        assert(empty@.epics =~= Map::empty());
        assert(empty@.stories =~= Map::empty());
        proof {
            lemma_empty_well_formed();
        }
        empty
    }
}

impl Clone for DBState {
    fn clone(&self) -> (copy: Self)
        ensures
            copy@ == self@,
    {
        DBState {
            last_item_id: self.last_item_id,
            epics: self.epics.clone(),
            stories: self.stories.clone(),
        }
    }
}

/// What a user asks for on a page of the tracker.
#[derive(Debug, PartialEq, Eq)]
pub enum Action {
    NavigateToEpicDetail { epic_id: u32 },
    NavigateToStoryDetail { epic_id: u32, story_id: u32 },
    NavigateToPreviousPage,
    CreateEpic,
    UpdateEpicStatus { epic_id: u32 },
    DeleteEpic { epic_id: u32 },
    CreateStory { epic_id: u32 },
    UpdateStoryStatus { story_id: u32 },
    DeleteStory { epic_id: u32, story_id: u32 },
    Exit,
}

} // verus!
