//! Changes to a trip and to the collection that holds it. Entries are
//! addressed by position, counted from zero.

use vstd::prelude::*;
use vstd::string::*;
use crate::decimal::{fare_of, parse_fare, FareError};
use crate::trip::{Field, Trip, TripView};

verus! {

/// A position was given at which the collection holds nothing.
#[derive(Clone, Copy, Debug, PartialEq, Eq)]
pub struct NoSuchEntry {
    pub position: usize,
    pub len: usize,
}

/// The trip after `field` was given the value that `text` stands for. Only a
/// fare can be refused: when the text is no fare.
pub open spec fn edited(trip: TripView, field: Field, text: Seq<char>) -> Result<
    TripView,
    FareError,
> {
    match field {
        Field::Fare => match fare_of(text) {
            Ok(fare) => Ok(trip.with_fare(fare as nat)),
            Err(error) => Err(error),
        },
        _ => Ok(trip.with_text(field, text)),
    }
}

/// Whether two trips differ at most in the attribute `field`.
pub open spec fn agree_but_for(a: TripView, b: TripView, field: Field) -> bool {
    &&& field != Field::DepartureTime ==> a.departure_time == b.departure_time
    &&& field != Field::DepartureStation ==> a.departure_station == b.departure_station
    &&& field != Field::Line ==> a.line == b.line
    &&& field != Field::TrainType ==> a.train_type == b.train_type
    &&& field != Field::Destination ==> a.destination == b.destination
    &&& field != Field::Fare ==> a.fare == b.fare
    &&& field != Field::ArrivalTime ==> a.arrival_time == b.arrival_time
    &&& field != Field::ArrivalStation ==> a.arrival_station == b.arrival_station
}

/// Whether the attribute `field` of `trip` is what `text` stands for.
pub open spec fn holds(trip: TripView, field: Field, text: Seq<char>) -> bool {
    match field {
        Field::DepartureTime => trip.departure_time == text,
        Field::DepartureStation => trip.departure_station == text,
        Field::Line => trip.line == text,
        Field::TrainType => trip.train_type == text,
        Field::Destination => trip.destination == text,
        Field::Fare => fare_of(text) == Ok::<u32, FareError>(trip.fare as u32),
        Field::ArrivalTime => trip.arrival_time == text,
        Field::ArrivalStation => trip.arrival_station == text,
    }
}

/// An edit gives the named attribute its new value and leaves the other
/// seven as they were.
pub proof fn lemma_edit_changes_one_field(trip: TripView, field: Field, text: Seq<char>)
    requires
        edited(trip, field, text) is Ok,
    ensures
        holds(edited(trip, field, text)->Ok_0, field, text),
        agree_but_for(edited(trip, field, text)->Ok_0, trip, field),
{
}

/// The collection after each trip of `added` was appended to it in turn.
pub open spec fn after_adding(trips: Seq<TripView>, added: Seq<TripView>) -> Seq<TripView>
    decreases added.len(),
{
    if added.len() == 0 {
        trips
    } else {
        after_adding(trips, added.drop_last()).push(added.last())
    }
}

/// However many trips are added, each one makes the collection longer by
/// exactly one, comes to stand last, and leaves what was there before it.
pub proof fn lemma_each_add_appends_one(trips: Seq<TripView>, added: Seq<TripView>, k: int)
    requires
        0 <= k < added.len(),
    ensures
        after_adding(trips, added.take(k + 1)).len() == after_adding(trips, added.take(k)).len()
            + 1,
        after_adding(trips, added.take(k + 1)).last() == added[k],
        after_adding(trips, added.take(k + 1)).drop_last() == after_adding(trips, added.take(k)),
{
    assert(added.take(k + 1).drop_last() =~= added.take(k));
    assert(after_adding(trips, added.take(k)).push(added[k]).drop_last() =~= after_adding(
        trips,
        added.take(k),
    ));
}

/// Adding trips one by one puts them behind the collection in the order in
/// which they were added.
pub proof fn lemma_adds_append_in_order(trips: Seq<TripView>, added: Seq<TripView>)
    ensures
        after_adding(trips, added) == trips + added,
    decreases added.len(),
{
    if added.len() == 0 {
        assert(trips + added =~= trips);
    } else {
        lemma_adds_append_in_order(trips, added.drop_last());
        assert((trips + added.drop_last()).push(added.last()) =~= trips + added);
    }
}

/// Replacing the entry at one position keeps the length and every other
/// entry.
pub proof fn lemma_replace_keeps_the_rest(trips: Seq<TripView>, position: int, trip: TripView)
    requires
        0 <= position < trips.len(),
    ensures
        trips.update(position, trip).len() == trips.len(),
        trips.update(position, trip)[position] == trip,
        forall|i: int|
            0 <= i < trips.len() && i != position ==> trips.update(position, trip)[i] == trips[i],
{
}

/// Removing the entry at one position shortens the collection by one and
/// keeps the other entries in their order.
pub proof fn lemma_remove_keeps_the_rest(trips: Seq<TripView>, position: int)
    requires
        0 <= position < trips.len(),
    ensures
        trips.remove(position).len() == trips.len() - 1,
        forall|i: int| 0 <= i < position ==> trips.remove(position)[i] == trips[i],
        forall|i: int|
            position <= i < trips.len() - 1 ==> trips.remove(position)[i] == trips[i + 1],
{
}

/// Returns a copy of `trip` in which `field` has the value that `new_value`
/// stands for. A text is taken as it is; a fare is read as a decimal number,
/// and the edit fails when it is none.
pub fn apply_field_edit(trip: &Trip, field: Field, new_value: &str) -> (result: Result<
    Trip,
    FareError,
>)
    ensures
        match result {
            Ok(changed) => edited(trip@, field, new_value@) == Ok::<TripView, FareError>(changed@),
            Err(error) => edited(trip@, field, new_value@) == Err::<TripView, FareError>(error),
        },
{
    let mut changed = trip.clone();
    match field {
        Field::DepartureTime => {
            changed.departure_time = String::from_str(new_value);
        },
        Field::DepartureStation => {
            changed.departure_station = String::from_str(new_value);
        },
        Field::Line => {
            changed.line = String::from_str(new_value);
        },
        Field::TrainType => {
            changed.train_type = String::from_str(new_value);
        },
        Field::Destination => {
            changed.destination = String::from_str(new_value);
        },
        Field::Fare => {
            match parse_fare(new_value) {
                Ok(fare) => {
                    changed.fare = fare;
                },
                Err(error) => {
                    return Err(error);
                },
            }
        },
        Field::ArrivalTime => {
            changed.arrival_time = String::from_str(new_value);
        },
        Field::ArrivalStation => {
            changed.arrival_station = String::from_str(new_value);
        },
    }
    Ok(changed)
}

/// Appends `trip` to the collection.
pub fn add_trip(trips: &mut Vec<Trip>, trip: Trip)
    ensures
        final(trips)@ == old(trips)@.push(trip),
        final(trips).deep_view() == old(trips).deep_view().push(trip@),
        final(trips).len() == old(trips).len() + 1,
        final(trips)@.last() == trip,
{
    trips.push(trip);
    assert(trips.deep_view() =~= old(trips).deep_view().push(trip@));
}

/// Puts `trip` in the place of the entry at `position`. A collection that
/// has no such entry is left as it is.
pub fn replace_at(trips: &mut Vec<Trip>, position: usize, trip: Trip) -> (result: Result<
    (),
    NoSuchEntry,
>)
    ensures
        position < old(trips).len() ==> {
            &&& result is Ok
            &&& final(trips)@ == old(trips)@.update(position as int, trip)
            &&& final(trips).deep_view() == old(trips).deep_view().update(position as int, trip@)
        },
        position >= old(trips).len() ==> {
            &&& result == Err::<(), NoSuchEntry>(
                NoSuchEntry { position, len: old(trips).len() },
            )
            &&& final(trips)@ == old(trips)@
        },
{
    if position < trips.len() {
        trips.set(position, trip);
        assert(trips.deep_view() =~= old(trips).deep_view().update(position as int, trip@));
        Ok(())
    } else {
        Err(NoSuchEntry { position, len: trips.len() })
    }
}

/// Removes the entry at `position` if the user confirmed the removal. When
/// the user declined, or when there is no such entry, the collection is left
/// as it is; only the latter is an error.
pub fn delete(trips: &mut Vec<Trip>, position: usize, confirmed: bool) -> (result: Result<
    (),
    NoSuchEntry,
>)
    ensures
        !confirmed ==> result is Ok && final(trips)@ == old(trips)@,
        confirmed && position < old(trips).len() ==> {
            &&& result is Ok
            &&& final(trips)@ == old(trips)@.remove(position as int)
            &&& final(trips).deep_view() == old(trips).deep_view().remove(position as int)
            &&& final(trips).len() == old(trips).len() - 1
        },
        confirmed && position >= old(trips).len() ==> {
            &&& result == Err::<(), NoSuchEntry>(
                NoSuchEntry { position, len: old(trips).len() },
            )
            &&& final(trips)@ == old(trips)@
        },
{
    if !confirmed {
        Ok(())
    } else if position < trips.len() {
        trips.remove(position);
        assert(trips.deep_view() =~= old(trips).deep_view().remove(position as int));
        Ok(())
    } else {
        Err(NoSuchEntry { position, len: trips.len() })
    }
}

} // verus!
