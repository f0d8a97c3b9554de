//! The menu of a download.

use crate::app::{App, AppValue};
use crate::display::inputopt::InputOpt;
use crate::request::cmdtype::CmdType;
use crate::screens::render::{handle_screen_defaults, list_ready};
use crate::screens::request::MenuEffect;
use crate::screens::screen::{Screen, ScreenValue};
use vstd::prelude::*;

verus! {

/// What the choice that is confirmed on the download menu does. The entries
/// lead, in their order, to the prompts for the recursion level, for the
/// address and for the output file, and ask for the command to be run.
pub open spec fn download_chosen(app: AppValue) -> (AppValue, MenuEffect) {
    if app.selected == Some(0usize) {
        (app.goto(ScreenValue::InputMenu(InputOpt::RecursiveDownload)), MenuEffect::Nothing)
    } else if app.selected == Some(1usize) {
        (app.goto(ScreenValue::InputMenu(InputOpt::URL(CmdType::Wget))), MenuEffect::Nothing)
    } else if app.selected == Some(2usize) {
        (app.goto(ScreenValue::InputMenu(InputOpt::Output)), MenuEffect::Nothing)
    } else if app.selected == Some(3usize) {
        (AppValue { selected: None, ..app }, MenuEffect::Execute)
    } else {
        (app, MenuEffect::Nothing)
    }
}

/// Makes the download menu ready to be drawn, and takes up the choice that
/// is confirmed on it.
pub fn handle_downloads_screen(app: &mut App) -> (r: MenuEffect)
    ensures
        final(app)@ == download_chosen(list_ready(old(app)@)).0,
        r == download_chosen(list_ready(old(app)@)).1,
        old(app)@.well_formed() ==> final(app)@.well_formed(),
{
    handle_screen_defaults(app);
    match app.selected {
        Some(num) => {
            if num == 0 {
                app.goto_screen(Screen::InputMenu(InputOpt::RecursiveDownload));
            } else if num == 1 {
                app.goto_screen(Screen::InputMenu(InputOpt::URL(CmdType::Wget)));
            } else if num == 2 {
                app.goto_screen(Screen::InputMenu(InputOpt::Output));
            } else if num == 3 {
                app.selected = None;
                return MenuEffect::Execute;
            }
            MenuEffect::Nothing
        },
        None => MenuEffect::Nothing,
    }
}

} // verus!
