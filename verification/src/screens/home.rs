//! The home screen.

use crate::app::{App, AppValue};
use crate::display::inputopt::InputOpt;
use crate::request::cmdtype::CmdType;
use crate::request::command::{Command, CommandValue};
use crate::screens::render::{handle_screen_defaults, list_ready};
use crate::screens::screen::{ItemSource, Screen, ScreenValue};
use vstd::prelude::*;

verus! {

/// The session at the start of a new command of the given family: no
/// option is chosen, the command is empty, and the menu of the family is
/// shown.
pub open spec fn command_started(app: AppValue, family: CmdType) -> AppValue {
    (AppValue {
        opts: Seq::empty(),
        command: Some(CommandValue::empty(family)),
        ..app
    }).goto(
        match family {
            CmdType::Curl => ScreenValue::RequestMenu(Seq::empty()),
            CmdType::Wget => ScreenValue::Downloads,
        },
    )
}

/// What the choice that is confirmed on the home screen does: the first two
/// entries start a new transfer and a new download; the third and the
/// fourth lead to what the store holds; the fifth leads to the prompt for a
/// key to store. With nothing confirmed, or another entry, the session
/// stays as it is.
pub open spec fn home_chosen(app: AppValue) -> AppValue {
    if app.selected == Some(0usize) {
        command_started(app, CmdType::Curl)
    } else if app.selected == Some(1usize) {
        command_started(app, CmdType::Wget)
    } else if app.selected == Some(2usize) {
        app.goto(ScreenValue::SavedKeys)
    } else if app.selected == Some(3usize) {
        app.goto(ScreenValue::SavedCommands)
    } else if app.selected == Some(4usize) {
        app.goto(ScreenValue::InputMenu(InputOpt::ApiKey))
    } else {
        app
    }
}

/// Makes the home screen ready to be drawn, takes up the choice that is
/// confirmed on it, and says where the entries of the screen that is shown
/// then come from.
pub fn handle_home_screen(app: &mut App) -> (source: ItemSource)
    ensures
        final(app)@ == home_chosen(list_ready(old(app)@)),
        source == final(app)@.current_screen.item_source(),
        old(app)@.well_formed() ==> final(app)@.well_formed(),
{
    handle_screen_defaults(app);
    match app.selected {
        Some(num) => {
            if num == 0 {
                app.remove_all_display_options();
                app.set_command(Command::new(CmdType::Curl));
                app.goto_screen(Screen::RequestMenu(String::new()))
            } else if num == 1 {
                app.remove_all_display_options();
                app.set_command(Command::new(CmdType::Wget));
                app.goto_screen(Screen::Downloads)
            } else if num == 2 {
                app.goto_screen(Screen::SavedKeys)
            } else if num == 3 {
                app.goto_screen(Screen::SavedCommands)
            } else if num == 4 {
                app.goto_screen(Screen::InputMenu(InputOpt::ApiKey))
            } else {
                app.current_screen.item_source()
            }
        },
        None => app.current_screen.item_source(),
    }
}

} // verus!
