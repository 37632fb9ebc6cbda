//! What the menus and the escape key do to the phase of the game and to the
//! pointer, and what they ask the engine to do.

use vstd::prelude::*;
use crate::camera::{captured, released, Cursor, CursorGrabMode};
use crate::State;

verus! {

/// Something for the engine to carry out, in the order given.
#[derive(Clone, Copy, Debug, PartialEq, Eq, Structural)]
pub enum Command {
    /// Remove everything that belongs to the loaded map.
    Unload,
    /// Make the map with this place in the list of maps the current one.
    SelectMap(usize),
    /// Build the current map, its player and its camera.
    LoadMap,
    /// Start the stored ghost of the current map, if it has one.
    LoadGhost,
    /// Build the scene behind the main menu.
    LoadMainscreen,
    /// Leave the program.
    Exit,
    /// Keep the log of the run as the ghost of the map, if it is the
    /// fastest.
    StoreGhost,
    /// Add this time of a completed run to the leaderboard.
    SaveLeaderboardData(u64),
}

/// What was clicked in the main menu.
#[derive(Clone, Copy, Debug, PartialEq, Eq, Structural)]
pub enum MainscreenClick {
    /// The map with this place in the list of maps.
    Play(usize),
    Leaderboard,
    Quit,
}

/// What was clicked once a run was finished.
#[derive(Clone, Copy, Debug, PartialEq, Eq, Structural)]
pub enum FinishClick {
    Reset,
    BackToMenu,
}

/// Follows a click in the main menu. A click on a map starts the game on
/// it, with the pointer captured; `Quit` asks to leave; `Leaderboard` does
/// nothing. Outside the main menu nothing happens.
pub fn ui_mainscreen(click: MainscreenClick, state: &mut State, cursor: &mut Cursor) -> (commands: Vec<Command>)
    ensures
        match (*old(state), click) {
            (State::Mainscreen, MainscreenClick::Play(i)) => {
                &&& *final(state) == State::Playing
                &&& *final(cursor) == captured()
                &&& commands@ == seq![
                    Command::Unload,
                    Command::SelectMap(i),
                    Command::LoadMap,
                    Command::LoadGhost,
                ]
            },
            (State::Mainscreen, MainscreenClick::Quit) => {
                &&& *final(state) == *old(state)
                &&& *final(cursor) == *old(cursor)
                &&& commands@ == seq![Command::Exit]
            },
            _ => {
                &&& *final(state) == *old(state)
                &&& *final(cursor) == *old(cursor)
                &&& commands@ == Seq::<Command>::empty()
            },
        },
{
    let mut commands: Vec<Command> = Vec::new();
    match *state {
        State::Mainscreen => {
            match click {
                MainscreenClick::Play(i) => {
                    commands.push(Command::Unload);
                    cursor.grab_mode = CursorGrabMode::Locked;
                    cursor.visible = false;
                    commands.push(Command::SelectMap(i));
                    commands.push(Command::LoadMap);
                    commands.push(Command::LoadGhost);
                    *state = State::Playing;
                    proof {
                        assert(commands@ =~= seq![
                            Command::Unload,
                            Command::SelectMap(i),
                            Command::LoadMap,
                            Command::LoadGhost,
                        ]);
                    }
                },
                MainscreenClick::Quit => {
                    commands.push(Command::Exit);
                    proof {
                        assert(commands@ =~= seq![Command::Exit]);
                    }
                },
                MainscreenClick::Leaderboard => {},
            }
        },
        _ => {},
    }
    commands
}

/// Follows a click after a finished run. `Reset` starts the map anew, with
/// the pointer captured; `BackToMenu` goes to the main menu. In any other
/// phase nothing happens.
pub fn ui_finish(click: FinishClick, state: &mut State, cursor: &mut Cursor) -> (commands: Vec<Command>)
    ensures
        match (*old(state), click) {
            (State::Finished, FinishClick::Reset) => {
                &&& *final(state) == State::Playing
                &&& *final(cursor) == captured()
                &&& commands@ == seq![Command::Unload, Command::LoadMap, Command::LoadGhost]
            },
            (State::Finished, FinishClick::BackToMenu) => {
                &&& *final(state) == State::Mainscreen
                &&& *final(cursor) == *old(cursor)
                &&& commands@ == seq![Command::Unload]
            },
            _ => {
                &&& *final(state) == *old(state)
                &&& *final(cursor) == *old(cursor)
                &&& commands@ == Seq::<Command>::empty()
            },
        },
{
    let mut commands: Vec<Command> = Vec::new();
    match *state {
        State::Finished => {
            match click {
                FinishClick::Reset => {
                    commands.push(Command::Unload);
                    cursor.grab_mode = CursorGrabMode::Locked;
                    cursor.visible = false;
                    commands.push(Command::LoadMap);
                    commands.push(Command::LoadGhost);
                    *state = State::Playing;
                    proof {
                        assert(commands@ =~= seq![Command::Unload, Command::LoadMap, Command::LoadGhost]);
                    }
                },
                FinishClick::BackToMenu => {
                    *state = State::Mainscreen;
                    commands.push(Command::Unload);
                    proof {
                        assert(commands@ =~= seq![Command::Unload]);
                    }
                },
            }
        },
        _ => {},
    }
    commands
}

/// What the escape key asks for in a game that is being played.
pub open spec fn leaving(pressed: bool, state: State) -> Seq<Command> {
    if pressed && state == State::Playing {
        seq![Command::Unload, Command::LoadMainscreen]
    } else {
        Seq::<Command>::empty()
    }
}

/// Leaves a game that is being played when the escape key was pressed: the
/// game goes to the main menu and the pointer is set free. In any other
/// phase, or without the key, nothing happens.
pub fn to_main_menu(pressed: bool, state: &mut State, cursor: &mut Cursor) -> (commands: Vec<Command>)
    ensures
        commands@ == leaving(pressed, *old(state)),
        pressed && *old(state) == State::Playing ==> {
            &&& *final(state) == State::Mainscreen
            &&& *final(cursor) == released()
            &&& commands@ == seq![Command::Unload, Command::LoadMainscreen]
        },
        !(pressed && *old(state) == State::Playing) ==> {
            &&& *final(state) == *old(state)
            &&& *final(cursor) == *old(cursor)
            &&& commands@ == Seq::<Command>::empty()
        },
{
    let mut commands: Vec<Command> = Vec::new();
    match *state {
        State::Playing => {
            if pressed {
                *state = State::Mainscreen;
                commands.push(Command::Unload);
                commands.push(Command::LoadMainscreen);
                cursor.grab_mode = CursorGrabMode::Released;
                cursor.visible = true;
                proof {
                    assert(commands@ =~= seq![Command::Unload, Command::LoadMainscreen]);
                }
            }
        },
        _ => {},
    }
    commands
}

} // verus!
