//! The collection as the user sees it: one line per trip, the fare total,
//! and the short labels from which a trip is picked for editing. On screen
//! positions count from one.

use vstd::prelude::*;
use vstd::string::*;
use crate::decimal::{decimal, format_decimal};
use crate::trip::{Trip, TripView};

verus! {

/// What is reported in place of a listing when there are no trips.
pub const NO_TRIPS: &'static str = "保存された旅行計画はありません。";

/// The line that shows the trip at `position`.
pub open spec fn line_of(position: nat, trip: TripView) -> Seq<char> {
    decimal(position + 1) + ". "@ + trip.departure_time + " "@ + trip.departure_station + " → "@
        + trip.arrival_time + " "@ + trip.arrival_station + " ("@ + trip.line + "線 "@
        + trip.train_type + " "@ + trip.destination + "行 ¥"@ + decimal(trip.fare) + ")"@
}

/// The label under which the trip at `position` is offered for editing.
pub open spec fn label_of(position: nat, trip: TripView) -> Seq<char> {
    decimal(position + 1) + ". "@ + trip.departure_station + " → "@ + trip.arrival_station
}

/// The sum of all fares.
pub open spec fn fare_total(trips: Seq<TripView>) -> nat
    decreases trips.len(),
{
    if trips.len() == 0 {
        0
    } else {
        fare_total(trips.drop_last()) + trips.last().fare
    }
}

/// The line that shows the fare total.
pub open spec fn total_line(total: nat) -> Seq<char> {
    "合計金額: ¥"@ + decimal(total)
}

/// The lines that show every trip, in the order of the collection.
pub open spec fn lines_of(trips: Seq<TripView>) -> Seq<Seq<char>> {
    Seq::new(trips.len(), |i: int| line_of(i as nat, trips[i]))
}

/// The labels of every trip, in the order of the collection.
pub open spec fn labels_of(trips: Seq<TripView>) -> Seq<Seq<char>> {
    Seq::new(trips.len(), |i: int| label_of(i as nat, trips[i]))
}

/// The whole listing, line by line. Of an empty collection it is the one
/// sentence that says so, with no total. Otherwise it is the trips' lines, an
/// empty line and the total.
pub open spec fn listing_of(trips: Seq<TripView>) -> Seq<Seq<char>> {
    if trips.len() == 0 {
        seq![NO_TRIPS@]
    } else {
        lines_of(trips).push(Seq::empty()).push(total_line(fare_total(trips)))
    }
}

/// A listing depends on nothing but the collection: as long as the
/// collection is not changed, every listing of it is the same, and its last
/// line shows the sum of all fares.
pub proof fn lemma_listing_is_repeatable(
    trips: Seq<TripView>,
    first: Seq<Seq<char>>,
    second: Seq<Seq<char>>,
)
    requires
        first == listing_of(trips),
        second == listing_of(trips),
    ensures
        first == second,
        trips.len() > 0 ==> first.last() == total_line(fare_total(trips)),
        trips.len() > 0 ==> first.len() == trips.len() + 2,
        trips.len() == 0 ==> first == seq![NO_TRIPS@],
{
}

/// A trip that is added adds its fare to the total.
pub proof fn lemma_total_after_add(trips: Seq<TripView>, trip: TripView)
    ensures
        fare_total(trips.push(trip)) == fare_total(trips) + trip.fare,
{
    assert(trips.push(trip).drop_last() =~= trips);
}

/// The total of two collections put together is the sum of their totals.
proof fn lemma_total_of_concat(front: Seq<TripView>, back: Seq<TripView>)
    ensures
        fare_total(front + back) == fare_total(front) + fare_total(back),
    decreases back.len(),
{
    if back.len() == 0 {
        assert(front + back =~= front);
    } else {
        assert((front + back).drop_last() =~= front + back.drop_last());
        lemma_total_of_concat(front, back.drop_last());
    }
}

/// A trip that is replaced takes its old fare out of the total and puts its
/// new fare in.
pub proof fn lemma_total_after_replace(trips: Seq<TripView>, position: int, trip: TripView)
    requires
        0 <= position < trips.len(),
    ensures
        fare_total(trips.update(position, trip)) == fare_total(trips) - trips[position].fare
            + trip.fare,
{
    let front = trips.take(position);
    let back = trips.skip(position + 1);
    assert(trips =~= front.push(trips[position]) + back);
    assert(trips.update(position, trip) =~= front.push(trip) + back);
    lemma_total_of_concat(front.push(trips[position]), back);
    lemma_total_of_concat(front.push(trip), back);
    lemma_total_after_add(front, trips[position]);
    lemma_total_after_add(front, trip);
}

/// A trip that is removed takes its fare out of the total.
pub proof fn lemma_total_after_remove(trips: Seq<TripView>, position: int)
    requires
        0 <= position < trips.len(),
    ensures
        fare_total(trips.remove(position)) == fare_total(trips) - trips[position].fare,
{
    let front = trips.take(position);
    let back = trips.skip(position + 1);
    assert(trips =~= front.push(trips[position]) + back);
    assert(trips.remove(position) =~= front + back);
    lemma_total_of_concat(front.push(trips[position]), back);
    lemma_total_of_concat(front, back);
    lemma_total_after_add(front, trips[position]);
}

/// Adds up all fares. The sum is exact: it cannot overflow.
pub fn total_fare(trips: &Vec<Trip>) -> (total: u128)
    ensures
        total == fare_total(trips.deep_view()),
{
    let ghost all = trips.deep_view();
    let mut total: u128 = 0;
    let mut i: usize = 0;
    while i < trips.len()
        invariant
            i <= trips.len(),
            all == trips.deep_view(),
            total == fare_total(all.take(i as int)),
            total <= i * 0xffff_ffff,
        decreases trips.len() - i,
    {
        proof {
            let longer = all.take(i + 1);
            assert(longer.drop_last() =~= all.take(i as int));
            assert(longer.last() == trips[i as int]@);
        }
        total = total + trips[i].fare as u128;
        i = i + 1;
    }
    assert(all.take(i as int) =~= all);
    total
}

/// Writes the line that shows `trip` at `position`.
pub fn trip_line(position: usize, trip: &Trip) -> (line: String)
    ensures
        line@ == line_of(position as nat, trip@),
{
    let mut line = format_decimal(position as u128 + 1);
    line.append(". ");
    line.append(trip.departure_time.as_str());
    line.append(" ");
    line.append(trip.departure_station.as_str());
    line.append(" → ");
    line.append(trip.arrival_time.as_str());
    line.append(" ");
    line.append(trip.arrival_station.as_str());
    line.append(" (");
    line.append(trip.line.as_str());
    line.append("線 ");
    line.append(trip.train_type.as_str());
    line.append(" ");
    line.append(trip.destination.as_str());
    line.append("行 ¥");
    line.append(format_decimal(trip.fare as u128).as_str());
    line.append(")");
    line
}

/// Writes the label under which `trip` at `position` is offered for editing.
pub fn trip_label(position: usize, trip: &Trip) -> (label: String)
    ensures
        label@ == label_of(position as nat, trip@),
{
    let mut label = format_decimal(position as u128 + 1);
    label.append(". ");
    label.append(trip.departure_station.as_str());
    label.append(" → ");
    label.append(trip.arrival_station.as_str());
    label
}

/// The labels of all trips, in the order of the collection.
pub fn trip_labels(trips: &Vec<Trip>) -> (labels: Vec<String>)
    ensures
        labels.deep_view() == labels_of(trips.deep_view()),
{
    let ghost all = trips.deep_view();
    let mut labels: Vec<String> = Vec::new();
    let mut i: usize = 0;
    while i < trips.len()
        invariant
            i <= trips.len(),
            all == trips.deep_view(),
            labels.len() == i,
            forall|k: int| 0 <= k < i ==> (#[trigger] labels@[k])@ == label_of(k as nat, all[k]),
        decreases trips.len() - i,
    {
        labels.push(trip_label(i, &trips[i]));
        i = i + 1;
    }
    assert(labels.deep_view() =~= labels_of(all));
    labels
}

/// Lists the collection: what `listing_of` says, line by line.
pub fn list_trips(trips: &Vec<Trip>) -> (lines: Vec<String>)
    ensures
        lines.deep_view() == listing_of(trips.deep_view()),
{
    let ghost all = trips.deep_view();
    let mut lines: Vec<String> = Vec::new();
    if trips.len() == 0 {
        lines.push(String::from_str(NO_TRIPS));
        assert(lines.deep_view() =~= listing_of(all));
        return lines;
    }
    let mut i: usize = 0;
    while i < trips.len()
        invariant
            i <= trips.len(),
            all == trips.deep_view(),
            lines.len() == i,
            forall|k: int| 0 <= k < i ==> (#[trigger] lines@[k])@ == line_of(k as nat, all[k]),
        decreases trips.len() - i,
    {
        lines.push(trip_line(i, &trips[i]));
        i = i + 1;
    }
    lines.push(String::new());
    let mut last = String::from_str("合計金額: ¥");
    last.append(format_decimal(total_fare(trips)).as_str());
    lines.push(last);
    assert(lines.deep_view() =~= listing_of(all));
    lines
}

} // verus!
