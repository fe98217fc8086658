//! The top-level menu: what it offers, and what each selection leads to.

use vstd::prelude::*;
use vstd::string::*;

verus! {

/// What the top-level menu offers.
#[derive(Clone, Copy, Debug, PartialEq, Eq)]
pub enum Command {
    Add,
    Edit,
    List,
    Quit,
}

/// Whether the menu is still shown.
#[derive(Clone, Copy, Debug, PartialEq, Eq)]
pub enum MenuState {
    Running,
    Quit,
}

/// The entries of the menu, from the top.
pub open spec fn command_of(selection: nat) -> Option<Command> {
    if selection == 0 {
        Some(Command::Add)
    } else if selection == 1 {
        Some(Command::Edit)
    } else if selection == 2 {
        Some(Command::List)
    } else if selection == 3 {
        Some(Command::Quit)
    } else {
        None
    }
}

/// How a command reads in the menu.
pub open spec fn command_label(command: Command) -> Seq<char> {
    match command {
        Command::Add => "移動計画を追加"@,
        Command::Edit => "移動計画を編集"@,
        Command::List => "保存された計画を表示"@,
        Command::Quit => "終了"@,
    }
}

/// The menu after a selection, and the command to run. A selection outside
/// the menu runs nothing. Once the menu was left, nothing is run any more.
pub open spec fn menu_next(state: MenuState, selection: nat) -> (MenuState, Option<Command>) {
    match state {
        MenuState::Running => match command_of(selection) {
            Some(Command::Quit) => (MenuState::Quit, Some(Command::Quit)),
            command => (MenuState::Running, command),
        },
        MenuState::Quit => (MenuState::Quit, None),
    }
}

/// The menu is left by selecting its last entry, and in no other way.
pub proof fn lemma_quit_is_selected(state: MenuState, selection: nat)
    ensures
        menu_next(state, selection).0 is Quit <==> state is Quit || selection == 3,
        state is Quit ==> menu_next(state, selection) == (MenuState::Quit, None::<Command>),
{
}

/// The command that stands at `selection` in the menu.
pub fn command_at(selection: usize) -> (command: Option<Command>)
    ensures
        command == command_of(selection as nat),
{
    match selection {
        0 => Some(Command::Add),
        1 => Some(Command::Edit),
        2 => Some(Command::List),
        3 => Some(Command::Quit),
        _ => None,
    }
}

/// How `command` reads in the menu.
pub fn label_of_command(command: Command) -> (label: &'static str)
    ensures
        label@ == command_label(command),
{
    match command {
        Command::Add => "移動計画を追加",
        Command::Edit => "移動計画を編集",
        Command::List => "保存された計画を表示",
        Command::Quit => "終了",
    }
}

/// The labels of the menu, from the top: the one at each place is that of
/// the command which selecting the place runs.
pub fn menu_options() -> (options: Vec<String>)
    ensures
        options.len() == 4,
        forall|i: int|
            0 <= i < 4 ==> (#[trigger] options@[i])@ == command_label(command_of(i as nat)->Some_0),
{
    let mut options: Vec<String> = Vec::new();
    let mut i: usize = 0;
    while i < 4
        invariant
            i <= 4,
            options.len() == i,
            forall|k: int|
                0 <= k < i ==> (#[trigger] options@[k])@ == command_label(
                    command_of(k as nat)->Some_0,
                ),
        decreases 4 - i,
    {
        match command_at(i) {
            Some(command) => {
                options.push(String::from_str(label_of_command(command)));
            },
            None => {},
        }
        i = i + 1;
    }
    options
}

/// Takes one selection into the menu. Returns the menu as it stands
/// afterwards and the command to run, if any.
pub fn menu_step(state: MenuState, selection: usize) -> (next: (MenuState, Option<Command>))
    ensures
        next == menu_next(state, selection as nat),
{
    match state {
        MenuState::Running => match command_at(selection) {
            Some(Command::Quit) => (MenuState::Quit, Some(Command::Quit)),
            command => (MenuState::Running, command),
        },
        MenuState::Quit => (MenuState::Quit, None),
    }
}

} // verus!
