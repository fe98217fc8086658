//! What the user is asked: the names of the attributes, and the prompts
//! under which a value is entered for a new trip and for a change.

use vstd::prelude::*;
use vstd::string::*;
use crate::trip::Field;

verus! {

/// The eight attributes in the order in which a new trip asks for them.
pub open spec fn fields() -> Seq<Field> {
    seq![
        Field::DepartureTime,
        Field::DepartureStation,
        Field::Line,
        Field::TrainType,
        Field::Destination,
        Field::Fare,
        Field::ArrivalTime,
        Field::ArrivalStation,
    ]
}

/// What an attribute is called.
pub open spec fn name_of(field: Field) -> Seq<char> {
    match field {
        Field::DepartureTime => "出発時刻"@,
        Field::DepartureStation => "出発駅"@,
        Field::Line => "路線"@,
        Field::TrainType => "列車種別"@,
        Field::Destination => "行先"@,
        Field::Fare => "料金"@,
        Field::ArrivalTime => "到着時刻"@,
        Field::ArrivalStation => "到着駅"@,
    }
}

/// Whether an attribute is a time of day, which is asked for with a hint at
/// its form.
pub open spec fn is_time(field: Field) -> bool {
    field == Field::DepartureTime || field == Field::ArrivalTime
}

/// The prompt under which an attribute of a new trip is entered.
pub open spec fn prompt_of(field: Field) -> Seq<char> {
    if is_time(field) {
        name_of(field) + " (HH:MM)"@
    } else {
        name_of(field)
    }
}

/// The prompt under which the new value of an attribute is entered.
pub open spec fn edit_prompt_of(field: Field) -> Seq<char> {
    "新しい"@ + prompt_of(field)
}

/// The eight attributes in the order in which a new trip asks for them.
pub fn all_fields() -> (all: Vec<Field>)
    ensures
        all@ == fields(),
{
    let mut all: Vec<Field> = Vec::new();
    all.push(Field::DepartureTime);
    all.push(Field::DepartureStation);
    all.push(Field::Line);
    all.push(Field::TrainType);
    all.push(Field::Destination);
    all.push(Field::Fare);
    all.push(Field::ArrivalTime);
    all.push(Field::ArrivalStation);
    assert(all@ =~= fields());
    all
}

/// What `field` is called.
pub fn field_name(field: Field) -> (name: &'static str)
    ensures
        name@ == name_of(field),
{
    match field {
        Field::DepartureTime => "出発時刻",
        Field::DepartureStation => "出発駅",
        Field::Line => "路線",
        Field::TrainType => "列車種別",
        Field::Destination => "行先",
        Field::Fare => "料金",
        Field::ArrivalTime => "到着時刻",
        Field::ArrivalStation => "到着駅",
    }
}

/// The prompt under which `field` of a new trip is entered.
pub fn add_prompt(field: Field) -> (prompt: String)
    ensures
        prompt@ == prompt_of(field),
{
    let mut prompt = String::from_str(field_name(field));
    match field {
        Field::DepartureTime | Field::ArrivalTime => {
            prompt.append(" (HH:MM)");
        },
        _ => {},
    }
    prompt
}

/// The prompt under which the new value of `field` is entered.
pub fn edit_prompt(field: Field) -> (prompt: String)
    ensures
        prompt@ == edit_prompt_of(field),
{
    let mut prompt = String::from_str("新しい");
    prompt.append(add_prompt(field).as_str());
    prompt
}

} // verus!
