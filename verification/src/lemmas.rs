//! What is proved of the rules of the document: each command keeps the
//! invariant, identifiers come in order, and a deletion takes away what it
//! should and nothing else.

use crate::db::DbError;
use crate::document::{keeps_invariant, without_id, Command};
use crate::models::{DBStateView, EpicView, Status, StoryView};
use vstd::prelude::*;

verus! {

/// Taking `id` out of a list that ends in `last` keeps `last` unless it is
/// `id`.
pub proof fn lemma_without_id_push(ids: Seq<u32>, last: u32, id: u32)
    ensures
        without_id(ids.push(last), id) == if last != id {
            without_id(ids, id).push(last)
        } else {
            without_id(ids, id)
        },
{
    broadcast use Seq::lemma_filter_push;
}

/// A list without duplicates has none after `id` is taken out, and names
/// what it named before, except `id`.
pub proof fn lemma_without_id(ids: Seq<u32>, id: u32)
    ensures
        forall|other: u32|
            without_id(ids, id).contains(other) <==> ids.contains(other) && other != id,
        ids.no_duplicates() ==> without_id(ids, id).no_duplicates(),
    decreases ids.len(),
{
    broadcast use vstd::seq_lib::group_seq_properties;

    if ids.len() == 0 {
        reveal(Seq::filter);
    } else {
        let front = ids.drop_last();
        let last = ids.last();
        assert(ids =~= front.push(last));
        lemma_without_id(front, id);
        lemma_without_id_push(front, last, id);
        if ids.no_duplicates() && last != id {
            assert(!front.contains(last)) by {
                if front.contains(last) {
                    let i = choose|i: int| 0 <= i < front.len() && front[i] == last;
                    assert(ids[i] == ids[ids.len() - 1]);
                }
            }
            lemma_push_no_duplicates(without_id(front, id), last);
        }
    }
}

/// A list without duplicates has none after an identifier that it does not
/// name is appended.
pub proof fn lemma_push_no_duplicates(ids: Seq<u32>, id: u32)
    requires
        ids.no_duplicates(),
        !ids.contains(id),
    ensures
        ids.push(id).no_duplicates(),
{
    broadcast use vstd::seq_lib::group_seq_properties;
}

/// The empty document has the invariant.
pub proof fn lemma_empty_well_formed()
    ensures
        DBStateView::empty().well_formed(),
{
    let empty = DBStateView::empty();
    assert forall|epic_id: u32, story_id: u32| !#[trigger] empty.owns(epic_id, story_id) by {}
}

/// The next identifier is not 0 and is in use nowhere: no epic and no story
/// has it, and no story list names it.
pub proof fn lemma_next_id_is_fresh(document: DBStateView)
    requires
        document.well_formed(),
        document.last_item_id < u32::MAX,
    ensures
        document.next_id() == document.last_item_id + 1,
        !document.epics.contains_key(document.next_id()),
        !document.stories.contains_key(document.next_id()),
        forall|epic_id: u32| !document.owns(epic_id, document.next_id()),
{
    assert forall|epic_id: u32| !document.owns(epic_id, document.next_id()) by {
        if document.owns(epic_id, document.next_id()) {
            assert(document.stories.contains_key(document.next_id()));
        }
    }
}

/// A new epic without stories keeps the invariant.
pub proof fn lemma_with_epic_well_formed(document: DBStateView, epic: EpicView)
    requires
        document.well_formed(),
        document.last_item_id < u32::MAX,
        epic.stories.len() == 0,
    ensures
        document.with_epic(epic).well_formed(),
{
    let next = document.with_epic(epic);
    let id = document.next_id();
    assert forall|epic_id: u32, story_id: u32| #[trigger] next.owns(epic_id, story_id) implies {
        &&& epic_id != id
        &&& document.owns(epic_id, story_id)
    } by {
        if epic_id == id {
            assert(!epic.stories.contains(story_id));
        }
    }
    assert forall|epic_id: u32| #[trigger] next.epics.contains_key(epic_id) implies {
        &&& next.issued(epic_id)
        &&& !next.stories.contains_key(epic_id)
        &&& next.epics[epic_id].stories.no_duplicates()
    } by {
        if epic_id != id {
            assert(document.epics.contains_key(epic_id));
        }
    }
}

/// A new story in an epic of the document keeps the invariant.
pub proof fn lemma_with_story_well_formed(document: DBStateView, story: StoryView, epic_id: u32)
    requires
        document.well_formed(),
        document.last_item_id < u32::MAX,
        document.epics.contains_key(epic_id),
    ensures
        document.with_story(story, epic_id)->Ok_0.well_formed(),
{
    broadcast use vstd::seq_lib::group_seq_properties;

    let next = document.with_story(story, epic_id)->Ok_0;
    let id = document.next_id();
    let list = document.epics[epic_id].stories;
    assert(!list.contains(id)) by {
        if list.contains(id) {
            assert(document.owns(epic_id, id));
        }
    }
    assert forall|owner: u32, story_id: u32| #[trigger] next.owns(owner, story_id) implies {
        &&& story_id == id ==> owner == epic_id
        &&& story_id != id ==> document.owns(owner, story_id)
    } by {
        if owner != epic_id {
            assert(document.owns(owner, story_id));
        }
    }
    assert forall|owner: u32| #[trigger] next.epics.contains_key(owner) implies {
        &&& next.issued(owner)
        &&& !next.stories.contains_key(owner)
        &&& next.epics[owner].stories.no_duplicates()
    } by {
        assert(document.epics.contains_key(owner));
        if owner == epic_id {
            lemma_push_no_duplicates(list, id);
        }
    }
    assert forall|other: u32| #[trigger] next.stories.contains_key(other) implies next.issued(
        other,
    ) by {
        if other != id {
            assert(document.stories.contains_key(other));
        }
    }
}

/// Removing an epic with the stories that it owns keeps the invariant.
pub proof fn lemma_without_epic_well_formed(document: DBStateView, epic_id: u32)
    requires
        document.well_formed(),
        document.epics.contains_key(epic_id),
    ensures
        document.without_epic(epic_id)->Ok_0.well_formed(),
{
    let next = document.without_epic(epic_id)->Ok_0;
    assert forall|owner: u32, story_id: u32| #[trigger] next.owns(owner, story_id) implies {
        &&& document.owns(owner, story_id)
        &&& next.stories.contains_key(story_id)
    } by {
        assert(document.owns(owner, story_id));
        if document.epics[epic_id].stories.contains(story_id) {
            assert(document.owns(epic_id, story_id));
        }
    }
    assert forall|owner: u32| #[trigger] next.epics.contains_key(owner) implies {
        &&& next.issued(owner)
        &&& !next.stories.contains_key(owner)
        &&& next.epics[owner].stories.no_duplicates()
    } by {
        assert(document.epics.contains_key(owner));
    }
    assert forall|other: u32| #[trigger] next.stories.contains_key(other) implies next.issued(
        other,
    ) by {
        assert(document.stories.contains_key(other));
    }
}

/// Removing a story from the document and from the epic that owns it keeps
/// the invariant.
pub proof fn lemma_without_story_well_formed(
    document: DBStateView,
    epic_id: u32,
    story_id: u32,
)
    requires
        document.well_formed(),
        document.owns(epic_id, story_id),
    ensures
        document.without_story(epic_id, story_id)->Ok_0.well_formed(),
{
    let next = document.without_story(epic_id, story_id)->Ok_0;
    let list = document.epics[epic_id].stories;
    lemma_without_id(list, story_id);
    assert forall|owner: u32, other: u32| #[trigger] next.owns(owner, other) implies {
        &&& document.owns(owner, other)
        &&& other != story_id
    } by {
        if owner != epic_id {
            assert(document.owns(owner, other));
            if other == story_id {
                assert(document.owns(epic_id, story_id));
            }
        }
    }
    assert forall|owner: u32| #[trigger] next.epics.contains_key(owner) implies {
        &&& next.issued(owner)
        &&& !next.stories.contains_key(owner)
        &&& next.epics[owner].stories.no_duplicates()
    } by {
        assert(document.epics.contains_key(owner));
    }
    assert forall|other: u32| #[trigger] next.stories.contains_key(other) implies next.issued(
        other,
    ) by {
        assert(document.stories.contains_key(other));
    }
}

/// A new status for an epic keeps the invariant.
pub proof fn lemma_with_epic_status_well_formed(
    document: DBStateView,
    epic_id: u32,
    status: Status,
)
    requires
        document.well_formed(),
        document.epics.contains_key(epic_id),
    ensures
        document.with_epic_status(epic_id, status)->Ok_0.well_formed(),
{
    let next = document.with_epic_status(epic_id, status)->Ok_0;
    assert forall|owner: u32, other: u32| #[trigger] next.owns(owner, other) implies document.owns(
        owner,
        other,
    ) by {}
    assert forall|owner: u32| #[trigger] next.epics.contains_key(owner) implies {
        &&& next.issued(owner)
        &&& !next.stories.contains_key(owner)
        &&& next.epics[owner].stories.no_duplicates()
    } by {
        assert(document.epics.contains_key(owner));
    }
}

/// A new status for a story keeps the invariant.
pub proof fn lemma_with_story_status_well_formed(
    document: DBStateView,
    story_id: u32,
    status: Status,
)
    requires
        document.well_formed(),
        document.stories.contains_key(story_id),
    ensures
        document.with_story_status(story_id, status)->Ok_0.well_formed(),
{
    let next = document.with_story_status(story_id, status)->Ok_0;
    assert forall|owner: u32, other: u32| #[trigger] next.owns(owner, other) implies document.owns(
        owner,
        other,
    ) by {}
    assert forall|other: u32| #[trigger] next.stories.contains_key(other) implies next.issued(
        other,
    ) by {
        assert(document.stories.contains_key(other));
    }
    assert forall|owner: u32| #[trigger] next.epics.contains_key(owner) implies {
        &&& next.issued(owner)
        &&& !next.stories.contains_key(owner)
        &&& next.epics[owner].stories.no_duplicates()
    } by {
        assert(document.epics.contains_key(owner));
    }
}

/// The invariant holds before and after every command: a command that is
/// accepted keeps it, and one that is refused changes nothing.
pub proof fn lemma_after_well_formed(document: DBStateView, command: Command)
    requires
        document.well_formed(),
        keeps_invariant(command),
        command.creates() && document.apply(command) is Ok ==> document.last_item_id < u32::MAX,
    ensures
        document.after(command).well_formed(),
{
    match command {
        Command::CreateEpic { epic } => {
            lemma_with_epic_well_formed(document, epic);
        },
        Command::CreateStory { story, epic_id } => {
            if document.epics.contains_key(epic_id) {
                lemma_with_story_well_formed(document, story, epic_id);
            }
        },
        Command::DeleteEpic { epic_id } => {
            if document.epics.contains_key(epic_id) {
                lemma_without_epic_well_formed(document, epic_id);
            }
        },
        Command::DeleteStory { epic_id, story_id } => {
            if document.owns(epic_id, story_id) {
                lemma_without_story_well_formed(document, epic_id, story_id);
            }
        },
        Command::UpdateEpicStatus { epic_id, status } => {
            if document.epics.contains_key(epic_id) {
                lemma_with_epic_status_well_formed(document, epic_id, status);
            }
        },
        Command::UpdateStoryStatus { story_id, status } => {
            if document.stories.contains_key(story_id) {
                lemma_with_story_status_well_formed(document, story_id, status);
            }
        },
    }
}

/// Only a creation that is accepted moves the counter, and it moves it by
/// one: the identifier that it issues is the new value of the counter.
pub proof fn lemma_after_counter(document: DBStateView, command: Command)
    requires
        document.last_item_id < u32::MAX,
    ensures
        command.creates() && document.apply(command) is Ok ==> {
            &&& document.after(command).last_item_id == document.last_item_id + 1
            &&& document.after(command).last_item_id == document.next_id()
        },
        !(command.creates() && document.apply(command) is Ok) ==> document.after(
            command,
        ).last_item_id == document.last_item_id,
{
}

/// Identifiers are issued in order, each one more than the one before,
/// whatever was deleted, updated or refused in between: none is 0, none is
/// issued twice, and the counter has moved by as many as were issued.
pub proof fn lemma_issued_ids_are_consecutive(document: DBStateView, commands: Seq<Command>)
    requires
        document.last_item_id + document.issued_by(commands).len() <= u32::MAX,
    ensures
        ({
            let ids = document.issued_by(commands);
            &&& forall|i: int| 0 <= i < ids.len() ==> #[trigger] ids[i] == document.last_item_id + 1 + i
            &&& ids.no_duplicates()
            &&& document.after_all(commands).last_item_id == document.last_item_id + ids.len()
        }),
    decreases commands.len(),
{
    if commands.len() > 0 {
        let front = commands.drop_last();
        let before = document.after_all(front);
        lemma_issued_ids_are_consecutive(document, front);
        if before.last_item_id < u32::MAX {
            lemma_after_counter(before, commands.last());
        }
    }
}

/// The invariant holds after any sequence of commands that began on a
/// document with the invariant.
pub proof fn lemma_after_all_well_formed(document: DBStateView, commands: Seq<Command>)
    requires
        document.well_formed(),
        forall|i: int| 0 <= i < commands.len() ==> keeps_invariant(#[trigger] commands[i]),
        document.last_item_id + document.issued_by(commands).len() <= u32::MAX,
    ensures
        document.after_all(commands).well_formed(),
    decreases commands.len(),
{
    if commands.len() > 0 {
        let front = commands.drop_last();
        lemma_after_all_well_formed(document, front);
        lemma_issued_ids_are_consecutive(document, front);
        lemma_after_well_formed(document.after_all(front), commands.last());
    }
}

/// Deleting an epic takes away the epic and every story that its list
/// names, and nothing else: the other epics, the stories that the list does
/// not name and the counter stay as they were.
pub proof fn lemma_without_epic_effects(document: DBStateView, epic_id: u32)
    requires
        document.epics.contains_key(epic_id),
    ensures
        ({
            let next = document.without_epic(epic_id)->Ok_0;
            let list = document.epics[epic_id].stories;
            &&& document.without_epic(epic_id) is Ok
            &&& next.last_item_id == document.last_item_id
            &&& !next.epics.contains_key(epic_id)
            &&& forall|story_id: u32|
                list.contains(story_id) ==> !next.stories.contains_key(story_id)
            &&& next.epics.submap_of(document.epics)
            &&& next.stories.submap_of(document.stories)
            &&& forall|other: u32|
                other != epic_id && document.epics.contains_key(other)
                    ==> next.epics.contains_key(other)
            &&& forall|story_id: u32|
                !list.contains(story_id) && document.stories.contains_key(story_id)
                    ==> next.stories.contains_key(story_id)
        }),
{
}

/// Deleting a story goes by what the epic owns, not by what the document
/// holds: it is refused where the list of the epic does not name the story,
/// though the story may exist. Where it is accepted, neither the document
/// nor the list holds the story afterwards, and all the rest is as it was.
pub proof fn lemma_without_story_effects(document: DBStateView, epic_id: u32, story_id: u32)
    requires
        document.epics.contains_key(epic_id),
    ensures
        !document.owns(epic_id, story_id) ==> document.without_story(epic_id, story_id) matches Err(
            DbError::StoryNotInEpic,
        ),
        document.owns(epic_id, story_id) ==> ({
            let next = document.without_story(epic_id, story_id)->Ok_0;
            &&& document.without_story(epic_id, story_id) is Ok
            &&& next.last_item_id == document.last_item_id
            &&& !next.stories.contains_key(story_id)
            &&& !next.owns(epic_id, story_id)
            &&& next.stories.submap_of(document.stories)
            &&& forall|other: u32|
                other != story_id && document.stories.contains_key(other)
                    ==> next.stories.contains_key(other)
            &&& forall|other: u32|
                other != story_id ==> next.owns(epic_id, other) == document.owns(epic_id, other)
            &&& next.epics.dom() == document.epics.dom()
            &&& forall|other: u32|
                other != epic_id && document.epics.contains_key(other) ==> next.epics[other]
                    == document.epics[other]
        }),
{
    lemma_without_id(document.epics[epic_id].stories, story_id);
}

} // verus!
