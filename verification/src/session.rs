//! The editing session on one selected trip, as a state machine. The caller
//! asks the user, hands in what the user did as an event, and carries out
//! the action that comes back.

use vstd::prelude::*;
use vstd::string::*;
use crate::decimal::FareError;
use crate::editor::{apply_field_edit, delete, edited, replace_at, NoSuchEntry};
use crate::prompts::{field_name, name_of};
use crate::trip::{Field, Trip, TripView};

verus! {

/// What the user can pick from the editing menu.
#[derive(Clone, Copy, Debug, PartialEq, Eq)]
pub enum Choice {
    Edit(Field),
    Delete,
    Finish,
}

/// Where a session stands.
#[derive(Clone, Copy, Debug, PartialEq, Eq)]
pub enum Phase {
    /// The editing menu is shown.
    Editing,
    /// The user asked for the removal and has not yet confirmed it.
    ConfirmingDelete,
    /// The session is over.
    Done,
}

/// An editing session: the position that was selected, the trip as it has
/// been edited so far, and the phase.
#[derive(Debug, PartialEq, Eq)]
pub struct EditSession {
    pub position: usize,
    pub trip: Trip,
    pub phase: Phase,
}

/// What the user did.
#[derive(Debug, PartialEq, Eq)]
pub enum Event {
    /// Picked an attribute and entered this text for it.
    Edit(Field, String),
    /// Picked the removal.
    Delete,
    /// Answered the question whether to remove.
    Answer(bool),
    /// Picked the end of the session.
    Finish,
}

/// What the caller has to do after an event.
#[derive(Debug, PartialEq, Eq)]
pub enum Action {
    /// Nothing is to be stored.
    Nothing,
    /// Store the collection with this trip at this position.
    Store { position: usize, trip: Trip },
    /// Store the collection without the entry at this position.
    Remove { position: usize },
    /// Give up: what was entered is no fare.
    Fail(FareError),
}

pub struct SessionView {
    pub position: nat,
    pub trip: TripView,
    pub phase: Phase,
}

pub enum EventView {
    Edit(Field, Seq<char>),
    Delete,
    Answer(bool),
    Finish,
}

pub enum ActionView {
    Nothing,
    Store { position: nat, trip: TripView },
    Remove { position: nat },
    Fail(FareError),
}

impl View for EditSession {
    type V = SessionView;

    open spec fn view(&self) -> SessionView {
        SessionView { position: self.position as nat, trip: self.trip@, phase: self.phase }
    }
}

impl View for Event {
    type V = EventView;

    open spec fn view(&self) -> EventView {
        match *self {
            Event::Edit(field, text) => EventView::Edit(field, text@),
            Event::Delete => EventView::Delete,
            Event::Answer(yes) => EventView::Answer(yes),
            Event::Finish => EventView::Finish,
        }
    }
}

impl View for Action {
    type V = ActionView;

    open spec fn view(&self) -> ActionView {
        match *self {
            Action::Nothing => ActionView::Nothing,
            Action::Store { position, trip } => ActionView::Store {
                position: position as nat,
                trip: trip@,
            },
            Action::Remove { position } => ActionView::Remove { position: position as nat },
            Action::Fail(error) => ActionView::Fail(error),
        }
    }
}

/// The entries of the editing menu, from the top: the eight attributes, the
/// removal, the end of the session.
pub open spec fn choice_of(selection: nat) -> Option<Choice> {
    if selection == 0 {
        Some(Choice::Edit(Field::DepartureTime))
    } else if selection == 1 {
        Some(Choice::Edit(Field::DepartureStation))
    } else if selection == 2 {
        Some(Choice::Edit(Field::Line))
    } else if selection == 3 {
        Some(Choice::Edit(Field::TrainType))
    } else if selection == 4 {
        Some(Choice::Edit(Field::Destination))
    } else if selection == 5 {
        Some(Choice::Edit(Field::Fare))
    } else if selection == 6 {
        Some(Choice::Edit(Field::ArrivalTime))
    } else if selection == 7 {
        Some(Choice::Edit(Field::ArrivalStation))
    } else if selection == 8 {
        Some(Choice::Delete)
    } else if selection == 9 {
        Some(Choice::Finish)
    } else {
        None
    }
}

/// How a choice reads in the editing menu.
pub open spec fn choice_label(choice: Choice) -> Seq<char> {
    match choice {
        Choice::Edit(field) => name_of(field) + "を編集"@,
        Choice::Delete => "削除する"@,
        Choice::Finish => "終了"@,
    }
}

/// The session after an event, and what is to be done about it.
///
/// While editing, an accepted edit is kept and stored at once, and the
/// session goes on; a refused one ends the session. The removal is stored
/// only when the user confirms it, which ends the session too; declining
/// leads back to editing. An event that the phase does not expect is
/// ignored, and so is every event once the session is over.
pub open spec fn step(session: SessionView, event: EventView) -> (SessionView, ActionView) {
    match (session.phase, event) {
        (Phase::Editing, EventView::Edit(field, text)) => match edited(session.trip, field, text) {
            Ok(trip) => (
                SessionView { trip, ..session },
                ActionView::Store { position: session.position, trip },
            ),
            Err(error) => (SessionView { phase: Phase::Done, ..session }, ActionView::Fail(error)),
        },
        (Phase::Editing, EventView::Delete) => (
            SessionView { phase: Phase::ConfirmingDelete, ..session },
            ActionView::Nothing,
        ),
        (Phase::Editing, EventView::Finish) => (
            SessionView { phase: Phase::Done, ..session },
            ActionView::Nothing,
        ),
        (Phase::ConfirmingDelete, EventView::Answer(true)) => (
            SessionView { phase: Phase::Done, ..session },
            ActionView::Remove { position: session.position },
        ),
        (Phase::ConfirmingDelete, EventView::Answer(false)) => (
            SessionView { phase: Phase::Editing, ..session },
            ActionView::Nothing,
        ),
        _ => (session, ActionView::Nothing),
    }
}

/// The collection after an action was carried out on it. An action that
/// names a position outside the collection changes nothing.
pub open spec fn carried_out(trips: Seq<TripView>, action: ActionView) -> Seq<TripView> {
    match action {
        ActionView::Store { position, trip } => if position < trips.len() {
            trips.update(position as int, trip)
        } else {
            trips
        },
        ActionView::Remove { position } => if position < trips.len() {
            trips.remove(position as int)
        } else {
            trips
        },
        _ => trips,
    }
}

/// Once a session is over, no event revives it or touches the collection.
pub proof fn lemma_done_is_final(session: SessionView, event: EventView)
    requires
        session.phase is Done,
    ensures
        step(session, event) == (session, ActionView::Nothing),
{
}

/// A session never moves to another position, and what it stores or removes
/// is at that position.
pub proof fn lemma_position_is_kept(session: SessionView, event: EventView)
    ensures
        step(session, event).0.position == session.position,
        step(session, event).1 matches ActionView::Store { position, .. } ==> position
            == session.position,
        step(session, event).1 matches ActionView::Remove { position } ==> position
            == session.position,
{
}

/// An entry is removed only when the user confirms the removal; declining
/// leads back to editing and leaves every collection as it is.
pub proof fn lemma_removal_needs_confirmation(
    session: SessionView,
    event: EventView,
    trips: Seq<TripView>,
)
    ensures
        step(session, event).1 is Remove <==> session.phase is ConfirmingDelete && event
            == EventView::Answer(true),
        session.phase is ConfirmingDelete && event == EventView::Answer(false) ==> {
            &&& step(session, event).0 == SessionView { phase: Phase::Editing, ..session }
            &&& carried_out(trips, step(session, event).1) == trips
        },
{
}

/// The choice that stands at `selection` in the editing menu.
pub fn choice_at(selection: usize) -> (choice: Option<Choice>)
    ensures
        choice == choice_of(selection as nat),
{
    match selection {
        0 => Some(Choice::Edit(Field::DepartureTime)),
        1 => Some(Choice::Edit(Field::DepartureStation)),
        2 => Some(Choice::Edit(Field::Line)),
        3 => Some(Choice::Edit(Field::TrainType)),
        4 => Some(Choice::Edit(Field::Destination)),
        5 => Some(Choice::Edit(Field::Fare)),
        6 => Some(Choice::Edit(Field::ArrivalTime)),
        7 => Some(Choice::Edit(Field::ArrivalStation)),
        8 => Some(Choice::Delete),
        9 => Some(Choice::Finish),
        _ => None,
    }
}

/// How `choice` reads in the editing menu.
pub fn label_of_choice(choice: Choice) -> (label: String)
    ensures
        label@ == choice_label(choice),
{
    match choice {
        Choice::Edit(field) => {
            let mut label = String::from_str(field_name(field));
            label.append("を編集");
            label
        },
        Choice::Delete => String::from_str("削除する"),
        Choice::Finish => String::from_str("終了"),
    }
}

/// The labels of the editing menu, from the top: the one at each place is
/// that of the choice which selecting the place makes.
pub fn edit_options() -> (options: Vec<String>)
    ensures
        options.len() == 10,
        forall|i: int|
            0 <= i < 10 ==> (#[trigger] options@[i])@ == choice_label(choice_of(i as nat)->Some_0),
{
    let mut options: Vec<String> = Vec::new();
    let mut i: usize = 0;
    while i < 10
        invariant
            i <= 10,
            options.len() == i,
            forall|k: int|
                0 <= k < i ==> (#[trigger] options@[k])@ == choice_label(
                    choice_of(k as nat)->Some_0,
                ),
        decreases 10 - i,
    {
        match choice_at(i) {
            Some(choice) => {
                options.push(label_of_choice(choice));
            },
            None => {},
        }
        i = i + 1;
    }
    options
}

impl EditSession {
    /// Opens a session on the entry at `position`. There is none to open on
    /// a position that the collection does not have, so none on an empty
    /// collection.
    pub fn start(trips: &Vec<Trip>, position: usize) -> (session: Option<EditSession>)
        ensures
            position < trips.len() ==> session is Some && session->Some_0@ == (SessionView {
                position: position as nat,
                trip: trips[position as int]@,
                phase: Phase::Editing,
            }),
            position >= trips.len() ==> session is None,
    {
        if position < trips.len() {
            Some(EditSession { position, trip: trips[position].clone(), phase: Phase::Editing })
        } else {
            None
        }
    }

    /// Whether the session is over.
    pub fn is_done(&self) -> (done: bool)
        ensures
            done == (self.phase is Done),
    {
        match self.phase {
            Phase::Done => true,
            _ => false,
        }
    }
}

/// Takes one event into the session. Returns the session as it stands
/// afterwards and what the caller has to do.
pub fn advance(session: EditSession, event: Event) -> (next: (EditSession, Action))
    ensures
        (next.0@, next.1@) == step(session@, event@),
{
    let EditSession { position, trip, phase } = session;
    match phase {
        Phase::Editing => match event {
            Event::Edit(field, text) => match apply_field_edit(&trip, field, text.as_str()) {
                Ok(changed) => {
                    let stored = changed.clone();
                    (
                        EditSession { position, trip: changed, phase: Phase::Editing },
                        Action::Store { position, trip: stored },
                    )
                },
                Err(error) => (
                    EditSession { position, trip, phase: Phase::Done },
                    Action::Fail(error),
                ),
            },
            Event::Delete => (
                EditSession { position, trip, phase: Phase::ConfirmingDelete },
                Action::Nothing,
            ),
            Event::Finish => (EditSession { position, trip, phase: Phase::Done }, Action::Nothing),
            Event::Answer(_) => (
                EditSession { position, trip, phase: Phase::Editing },
                Action::Nothing,
            ),
        },
        Phase::ConfirmingDelete => match event {
            Event::Answer(true) => (
                EditSession { position, trip, phase: Phase::Done },
                Action::Remove { position },
            ),
            Event::Answer(false) => (
                EditSession { position, trip, phase: Phase::Editing },
                Action::Nothing,
            ),
            _ => (EditSession { position, trip, phase: Phase::ConfirmingDelete }, Action::Nothing),
        },
        Phase::Done => (EditSession { position, trip, phase: Phase::Done }, Action::Nothing),
    }
}

/// Carries out an action on a collection that was just loaded. Returns
/// whether the collection is to be stored again. A position that the
/// collection no longer has is an error, and the collection is left as it
/// is.
pub fn perform(trips: &mut Vec<Trip>, action: Action) -> (result: Result<bool, NoSuchEntry>)
    ensures
        final(trips).deep_view() == carried_out(old(trips).deep_view(), action@),
        match action {
            Action::Store { position, .. } | Action::Remove { position } => if position < old(
                trips,
            ).len() {
                result == Ok::<bool, NoSuchEntry>(true)
            } else {
                result == Err::<bool, NoSuchEntry>(NoSuchEntry { position, len: old(trips).len() })
            },
            _ => result == Ok::<bool, NoSuchEntry>(false) && final(trips)@ == old(trips)@,
        },
{
    match action {
        Action::Store { position, trip } => match replace_at(trips, position, trip) {
            Ok(()) => Ok(true),
            Err(error) => Err(error),
        },
        Action::Remove { position } => match delete(trips, position, true) {
            Ok(()) => Ok(true),
            Err(error) => Err(error),
        },
        _ => Ok(false),
    }
}

} // verus!
