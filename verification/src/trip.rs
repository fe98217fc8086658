//! The trip record and its mathematical view.

use vstd::prelude::*;

verus! {

/// The eight attributes of a trip, in the order in which they are asked for.
#[derive(Clone, Copy, Debug, PartialEq, Eq)]
pub enum Field {
    DepartureTime,
    DepartureStation,
    Line,
    TrainType,
    Destination,
    Fare,
    ArrivalTime,
    ArrivalStation,
}

/// One leg of a journey. All texts are free-form; nothing relates one
/// attribute to another.
#[derive(Debug, PartialEq, Eq)]
pub struct Trip {
    pub departure_time: String,
    pub departure_station: String,
    pub line: String,
    pub train_type: String,
    pub destination: String,
    pub fare: u32,
    pub arrival_time: String,
    pub arrival_station: String,
}

/// What a trip is to the contracts: seven texts and a fare.
pub struct TripView {
    pub departure_time: Seq<char>,
    pub departure_station: Seq<char>,
    pub line: Seq<char>,
    pub train_type: Seq<char>,
    pub destination: Seq<char>,
    pub fare: nat,
    pub arrival_time: Seq<char>,
    pub arrival_station: Seq<char>,
}

impl TripView {
    /// The trip whose texts are all empty and whose fare is zero.
    pub open spec fn blank() -> TripView {
        TripView {
            departure_time: Seq::empty(),
            departure_station: Seq::empty(),
            line: Seq::empty(),
            train_type: Seq::empty(),
            destination: Seq::empty(),
            fare: 0,
            arrival_time: Seq::empty(),
            arrival_station: Seq::empty(),
        }
    }

    /// This trip with one textual attribute replaced. The fare is no text:
    /// for `Field::Fare` the trip is returned as it is.
    pub open spec fn with_text(self, field: Field, text: Seq<char>) -> TripView {
        match field {
            Field::DepartureTime => TripView { departure_time: text, ..self },
            Field::DepartureStation => TripView { departure_station: text, ..self },
            Field::Line => TripView { line: text, ..self },
            Field::TrainType => TripView { train_type: text, ..self },
            Field::Destination => TripView { destination: text, ..self },
            Field::Fare => self,
            Field::ArrivalTime => TripView { arrival_time: text, ..self },
            Field::ArrivalStation => TripView { arrival_station: text, ..self },
        }
    }

    /// This trip with another fare.
    pub open spec fn with_fare(self, fare: nat) -> TripView {
        TripView { fare, ..self }
    }
}

impl View for Trip {
    type V = TripView;

    open spec fn view(&self) -> TripView {
        TripView {
            departure_time: self.departure_time@,
            departure_station: self.departure_station@,
            line: self.line@,
            train_type: self.train_type@,
            destination: self.destination@,
            fare: self.fare as nat,
            arrival_time: self.arrival_time@,
            arrival_station: self.arrival_station@,
        }
    }
}

impl DeepView for Trip {
    type V = TripView;

    open spec fn deep_view(&self) -> TripView {
        self@
    }
}

impl Trip {
    /// A trip with nothing filled in yet.
    pub fn blank() -> (trip: Trip)
        ensures
            trip@ == TripView::blank(),
    {
        Trip {
            departure_time: String::new(),
            departure_station: String::new(),
            line: String::new(),
            train_type: String::new(),
            destination: String::new(),
            fare: 0,
            arrival_time: String::new(),
            arrival_station: String::new(),
        }
    }
}

impl Clone for Trip {
    fn clone(&self) -> (copy: Trip)
        ensures
            copy == *self,
    {
        Trip {
            departure_time: self.departure_time.clone(),
            departure_station: self.departure_station.clone(),
            line: self.line.clone(),
            train_type: self.train_type.clone(),
            destination: self.destination.clone(),
            fare: self.fare,
            arrival_time: self.arrival_time.clone(),
            arrival_station: self.arrival_station.clone(),
        }
    }
}

} // verus!
