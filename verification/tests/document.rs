use jira_cli::db::{add_key_value, remove_key_value, DbError};
use jira_cli::models::{Action, DBState, Epic, Status, Story};
use std::collections::HashMap;

fn document(last_item_id: u32, epics: Vec<(u32, Vec<u32>)>, stories: Vec<u32>) -> DBState {
    let mut state = DBState::new();
    state.last_item_id = last_item_id;
    for (id, list) in epics {
        let mut epic = Epic::new(format!("epic {}", id), "".to_owned());
        epic.stories = list;
        state.epics.insert(id, epic);
    }
    for id in stories {
        state
            .stories
            .insert(id, Story::new(format!("story {}", id), "".to_owned()));
    }
    state
}

#[test]
fn the_new_document_is_empty() {
    let state = DBState::new();
    assert_eq!(state.last_item_id, 0);
    assert!(state.epics.is_empty());
    assert!(state.stories.is_empty());
}

#[test]
fn new_epics_and_stories_are_open() {
    let epic = Epic::new("name".to_owned(), "what for".to_owned());
    assert_eq!(epic.name, "name");
    assert_eq!(epic.description, "what for");
    assert_eq!(epic.status, Status::Open);
    assert_eq!(epic.stories, Vec::<u32>::new());

    let story = Story::new("tale".to_owned(), "told".to_owned());
    assert_eq!(story.name, "tale");
    assert_eq!(story.description, "told");
    assert_eq!(story.status, Status::Open);
}

#[test]
fn clones_are_equal() {
    let mut epic = Epic::new("name".to_owned(), "what for".to_owned());
    epic.stories = vec![3, 1, 2];
    epic.status = Status::Resolved;
    assert_eq!(epic.clone(), epic);

    let story = Story::new("tale".to_owned(), "told".to_owned());
    assert_eq!(story.clone(), story);

    let state = document(4, vec![(1, vec![2, 3])], vec![2, 3, 4]);
    let copy = state.clone();
    assert_eq!(copy.last_item_id, 4);
    assert_eq!(copy.epics, state.epics);
    assert_eq!(copy.stories, state.stories);
}

#[test]
fn a_status_is_shown_between_quotes() {
    assert_eq!(Status::Open.to_string(), "\"Open\"");
    assert_eq!(Status::InProgress.to_string(), "\"InProgress\"");
    assert_eq!(Status::Resolved.to_string(), "\"Resolved\"");
    assert_eq!(Status::Closed.to_string(), "\"Closed\"");
}

#[test]
fn actions_compare_by_what_they_hold() {
    assert_eq!(
        Action::DeleteStory { epic_id: 1, story_id: 2 },
        Action::DeleteStory { epic_id: 1, story_id: 2 }
    );
    assert_ne!(
        Action::DeleteStory { epic_id: 1, story_id: 2 },
        Action::DeleteStory { epic_id: 2, story_id: 1 }
    );
    assert_ne!(Action::CreateEpic, Action::Exit);
    assert_eq!(
        format!("{:?}", Action::NavigateToEpicDetail { epic_id: 7 }),
        "NavigateToEpicDetail { epic_id: 7 }"
    );
}

#[test]
fn add_key_value_puts_and_replaces() {
    let map: HashMap<u32, &str> = HashMap::new();
    let map = add_key_value(map, 1, "one");
    let map = add_key_value(map, 2, "two");
    assert_eq!(map.len(), 2);
    assert_eq!(map.get(&1), Some(&"one"));
    let map = add_key_value(map, 1, "uno");
    assert_eq!(map.len(), 2);
    assert_eq!(map.get(&1), Some(&"uno"));
    assert_eq!(map.get(&2), Some(&"two"));
}

#[test]
fn remove_key_value_takes_one_key_or_none() {
    let map: HashMap<u32, &str> = HashMap::new();
    let map = add_key_value(map, 1, "one");
    let map = add_key_value(map, 2, "two");
    let map = remove_key_value(map, &3);
    assert_eq!(map.len(), 2);
    let map = remove_key_value(map, &1);
    assert_eq!(map.len(), 1);
    assert_eq!(map.get(&1), None);
    assert_eq!(map.get(&2), Some(&"two"));
}

#[test]
fn with_epic_issues_the_next_identifier() {
    let state = document(41, vec![], vec![]);
    let epic = Epic::new("e".to_owned(), "".to_owned());

    let next = state.with_epic(epic.clone());

    assert_eq!(next.last_item_id, 42);
    assert_eq!(next.epics.len(), 1);
    assert_eq!(next.epics.get(&42), Some(&epic));
    assert!(next.stories.is_empty());
}

#[test]
fn with_epic_reaches_the_last_identifier() {
    let state = document(u32::MAX - 1, vec![], vec![]);
    let next = state.with_epic(Epic::new("e".to_owned(), "".to_owned()));
    assert_eq!(next.last_item_id, u32::MAX);
    assert!(next.epics.contains_key(&u32::MAX));
}

#[test]
fn with_story_appends_to_the_list_of_the_epic() {
    let state = document(5, vec![(1, vec![2]), (3, vec![])], vec![2]);
    let story = Story::new("s".to_owned(), "".to_owned());

    let next = state.with_story(story.clone(), 1).unwrap();

    assert_eq!(next.last_item_id, 6);
    assert_eq!(next.epics.get(&1).unwrap().stories, vec![2, 6]);
    assert_eq!(next.epics.get(&3).unwrap().stories, Vec::<u32>::new());
    assert_eq!(next.stories.len(), 2);
    assert_eq!(next.stories.get(&6), Some(&story));
}

#[test]
fn with_story_needs_the_epic() {
    let state = document(5, vec![(1, vec![2])], vec![2]);
    let result = state.with_story(Story::new("s".to_owned(), "".to_owned()), 2);
    assert_eq!(result.err(), Some(DbError::EpicNotFound));
}

#[test]
fn without_epic_passes_over_a_story_that_is_not_there() {
    let state = document(9, vec![(1, vec![2, 7, 3]), (4, vec![5])], vec![2, 3, 5, 6]);

    let next = state.without_epic(1).unwrap();

    assert_eq!(next.last_item_id, 9);
    assert_eq!(next.epics.len(), 1);
    assert_eq!(next.epics.get(&4).unwrap().stories, vec![5]);
    let mut left: Vec<u32> = next.stories.keys().copied().collect();
    left.sort();
    assert_eq!(left, vec![5, 6]);
}

#[test]
fn without_epic_needs_the_epic() {
    let state = document(9, vec![(1, vec![2])], vec![2]);
    assert_eq!(state.without_epic(2).err(), Some(DbError::EpicNotFound));
}

#[test]
fn without_story_takes_every_occurrence_out_of_the_list() {
    let state = document(9, vec![(1, vec![2, 3, 2, 4, 2])], vec![2, 3, 4]);

    let next = state.without_story(1, 2).unwrap();

    assert_eq!(next.last_item_id, 9);
    assert_eq!(next.epics.get(&1).unwrap().stories, vec![3, 4]);
    assert_eq!(next.epics.get(&1).unwrap().name, "epic 1");
    let mut left: Vec<u32> = next.stories.keys().copied().collect();
    left.sort();
    assert_eq!(left, vec![3, 4]);
}

#[test]
fn without_story_goes_by_the_list_not_by_the_stories() {
    let state = document(9, vec![(1, vec![2]), (3, vec![4])], vec![2, 4]);
    assert_eq!(state.without_story(1, 4).err(), Some(DbError::StoryNotInEpic));

    let state = document(9, vec![(1, vec![2, 8])], vec![2]);
    let next = state.without_story(1, 8).unwrap();
    assert_eq!(next.epics.get(&1).unwrap().stories, vec![2]);
    assert_eq!(next.stories.len(), 1);

    let state = document(9, vec![(1, vec![2])], vec![2]);
    assert_eq!(state.without_story(5, 2).err(), Some(DbError::EpicNotFound));
}

#[test]
fn with_epic_status_sets_the_status_only() {
    let state = document(9, vec![(1, vec![2]), (3, vec![])], vec![2]);

    let next = state.with_epic_status(1, Status::Closed).unwrap();

    assert_eq!(next.last_item_id, 9);
    assert_eq!(next.epics.get(&1).unwrap().status, Status::Closed);
    assert_eq!(next.epics.get(&1).unwrap().stories, vec![2]);
    assert_eq!(next.epics.get(&1).unwrap().name, "epic 1");
    assert_eq!(next.epics.get(&3).unwrap().status, Status::Open);
    assert_eq!(next.stories.get(&2).unwrap().status, Status::Open);

    let state = document(9, vec![(1, vec![2])], vec![2]);
    assert_eq!(
        state.with_epic_status(2, Status::Closed).err(),
        Some(DbError::EpicNotFound)
    );
}

#[test]
fn with_story_status_sets_the_status_only() {
    let state = document(9, vec![(1, vec![2, 3])], vec![2, 3]);

    let next = state.with_story_status(3, Status::InProgress).unwrap();

    assert_eq!(next.last_item_id, 9);
    assert_eq!(next.stories.get(&3).unwrap().status, Status::InProgress);
    assert_eq!(next.stories.get(&3).unwrap().name, "story 3");
    assert_eq!(next.stories.get(&2).unwrap().status, Status::Open);
    assert_eq!(next.epics.get(&1).unwrap().status, Status::Open);

    let state = document(9, vec![(1, vec![2])], vec![2]);
    assert_eq!(
        state.with_story_status(1, Status::Closed).err(),
        Some(DbError::StoryNotFound)
    );
}
