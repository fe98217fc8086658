use travel_plan::menu::{command_at, label_of_command, menu_options, menu_step, Command, MenuState};
use travel_plan::prompts::{add_prompt, all_fields, edit_prompt, field_name};
use travel_plan::store::{collection_or_empty, document_text, EMPTY_DOCUMENT};
use travel_plan::trip::{Field, Trip};

#[test]
fn menu_maps_places_to_commands() {
    assert_eq!(command_at(0), Some(Command::Add));
    assert_eq!(command_at(1), Some(Command::Edit));
    assert_eq!(command_at(2), Some(Command::List));
    assert_eq!(command_at(3), Some(Command::Quit));
    assert_eq!(command_at(4), None);
    assert_eq!(command_at(usize::MAX), None);
}

#[test]
fn menu_labels_read_as_expected() {
    assert_eq!(
        menu_options(),
        vec!["移動計画を追加", "移動計画を編集", "保存された計画を表示", "終了"]
    );
}

#[test]
fn menu_labels_stand_where_their_commands_do() {
    for (place, label) in menu_options().iter().enumerate() {
        assert_eq!(label, label_of_command(command_at(place).unwrap()));
    }
}

#[test]
fn menu_keeps_running_after_a_task() {
    assert_eq!(menu_step(MenuState::Running, 0), (MenuState::Running, Some(Command::Add)));
    assert_eq!(menu_step(MenuState::Running, 1), (MenuState::Running, Some(Command::Edit)));
    assert_eq!(menu_step(MenuState::Running, 2), (MenuState::Running, Some(Command::List)));
}

#[test]
fn menu_is_left_on_quit() {
    assert_eq!(menu_step(MenuState::Running, 3), (MenuState::Quit, Some(Command::Quit)));
}

#[test]
fn menu_ignores_a_selection_outside_it() {
    assert_eq!(menu_step(MenuState::Running, 4), (MenuState::Running, None));
    assert_eq!(menu_step(MenuState::Running, 99), (MenuState::Running, None));
}

#[test]
fn menu_runs_nothing_once_left() {
    for selection in 0..6 {
        assert_eq!(menu_step(MenuState::Quit, selection), (MenuState::Quit, None));
    }
}

#[test]
fn fields_are_asked_in_their_order() {
    assert_eq!(
        all_fields(),
        vec![
            Field::DepartureTime,
            Field::DepartureStation,
            Field::Line,
            Field::TrainType,
            Field::Destination,
            Field::Fare,
            Field::ArrivalTime,
            Field::ArrivalStation,
        ]
    );
}

#[test]
fn fields_have_their_names() {
    let names: Vec<&str> = all_fields().into_iter().map(field_name).collect();
    assert_eq!(
        names,
        vec!["出発時刻", "出発駅", "路線", "列車種別", "行先", "料金", "到着時刻", "到着駅"]
    );
}

#[test]
fn prompts_for_a_new_trip_hint_at_the_form_of_a_time() {
    let prompts: Vec<String> = all_fields().into_iter().map(add_prompt).collect();
    assert_eq!(
        prompts,
        vec![
            "出発時刻 (HH:MM)",
            "出発駅",
            "路線",
            "列車種別",
            "行先",
            "料金",
            "到着時刻 (HH:MM)",
            "到着駅",
        ]
    );
}

#[test]
fn prompts_for_a_change_ask_for_the_new_value() {
    let prompts: Vec<String> = all_fields().into_iter().map(edit_prompt).collect();
    assert_eq!(
        prompts,
        vec![
            "新しい出発時刻 (HH:MM)",
            "新しい出発駅",
            "新しい路線",
            "新しい列車種別",
            "新しい行先",
            "新しい料金",
            "新しい到着時刻 (HH:MM)",
            "新しい到着駅",
        ]
    );
}

#[test]
fn a_document_that_was_read_is_taken_as_it_is() {
    assert_eq!(document_text(Some("[ ]".to_string())), "[ ]");
    assert_eq!(document_text(Some(String::new())), "");
    assert_eq!(document_text(Some("not a document".to_string())), "not a document");
}

#[test]
fn a_missing_document_counts_as_the_empty_one() {
    assert_eq!(document_text(None), "[]");
    assert_eq!(EMPTY_DOCUMENT, "[]");
}

#[test]
fn a_decoded_collection_is_taken_as_it_is() {
    let trips = vec![Trip::blank(), Trip { fare: 5, ..Trip::blank() }];
    assert_eq!(collection_or_empty(Some(trips.clone())), trips);
    assert_eq!(collection_or_empty(Some(Vec::new())), Vec::<Trip>::new());
}

#[test]
fn a_document_that_does_not_decode_gives_no_trips() {
    assert_eq!(collection_or_empty(None), Vec::<Trip>::new());
}
