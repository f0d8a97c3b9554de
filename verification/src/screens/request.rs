//! The menu of a transfer, and the end of a run.

use crate::app::{App, AppValue};
use crate::display::inputopt::InputOpt;
use crate::display::{AppOptions, OptionValue};
use crate::request::cmdtype::CmdType;
use crate::screens::render::{handle_screen_defaults, list_ready};
use crate::screens::screen::{Screen, ScreenValue};
use vstd::prelude::*;

verus! {

/// What has to be done outside the session for a choice on a menu.
#[derive(Debug, Clone, Copy, PartialEq, Eq, Structural)]
pub enum MenuEffect {
    Nothing,
    /// The command is to be run, and the session is told how the run ended.
    Execute,
}

/// The session after a switch is operated from a menu: the switch is
/// operated, and nothing is confirmed any more.
pub open spec fn switched(app: AppValue, o: OptionValue) -> AppValue {
    AppValue { selected: None, ..app.with_option(o) }
}

/// What the choice that is confirmed on the transfer menu does. The entries
/// lead, in their order, to the prompt for the address, to the
/// authentication menu and to the prompt for a header; operate the switch
/// of verbosity; lead to the prompts for a cookie, a referrer, a user
/// agent, a path of certificates, a maximum of redirects and a socket;
/// operate the switches that keep the command and the credentials; and ask
/// for the command to be run.
pub open spec fn request_chosen(app: AppValue) -> (AppValue, MenuEffect) {
    if app.selected == Some(0usize) {
        (app.goto(ScreenValue::InputMenu(InputOpt::URL(CmdType::Curl))), MenuEffect::Nothing)
    } else if app.selected == Some(1usize) {
        (app.goto(ScreenValue::Authentication), MenuEffect::Nothing)
    } else if app.selected == Some(2usize) {
        (app.goto(ScreenValue::InputMenu(InputOpt::Headers)), MenuEffect::Nothing)
    } else if app.selected == Some(3usize) {
        (switched(app, OptionValue::Verbose), MenuEffect::Nothing)
    } else if app.selected == Some(4usize) {
        (app.goto(ScreenValue::InputMenu(InputOpt::Cookie)), MenuEffect::Nothing)
    } else if app.selected == Some(5usize) {
        (app.goto(ScreenValue::InputMenu(InputOpt::Referrer)), MenuEffect::Nothing)
    } else if app.selected == Some(6usize) {
        (app.goto(ScreenValue::InputMenu(InputOpt::UserAgent)), MenuEffect::Nothing)
    } else if app.selected == Some(7usize) {
        (app.goto(ScreenValue::InputMenu(InputOpt::CaPath)), MenuEffect::Nothing)
    } else if app.selected == Some(8usize) {
        (app.goto(ScreenValue::InputMenu(InputOpt::MaxRedirects)), MenuEffect::Nothing)
    } else if app.selected == Some(9usize) {
        (app.goto(ScreenValue::InputMenu(InputOpt::UnixSocket)), MenuEffect::Nothing)
    } else if app.selected == Some(10usize) {
        (switched(app, OptionValue::SaveCommand), MenuEffect::Nothing)
    } else if app.selected == Some(11usize) {
        (switched(app, OptionValue::SaveToken), MenuEffect::Nothing)
    } else if app.selected == Some(12usize) {
        (AppValue { selected: None, ..app }, MenuEffect::Execute)
    } else {
        (app, MenuEffect::Nothing)
    }
}

/// Whether the entry of the transfer menu that is confirmed operates a
/// switch, so that there has to be a command.
pub open spec fn request_choice_needs_command(selected: Option<usize>) -> bool {
    selected == Some(3usize) || selected == Some(10usize) || selected == Some(11usize)
}

/// Makes the transfer menu ready to be drawn, and takes up the choice that
/// is confirmed on it.
pub fn handle_request_menu_screen(app: &mut App) -> (r: MenuEffect)
    requires
        request_choice_needs_command(old(app)@.selected) ==> old(app)@.command is Some,
    ensures
        final(app)@ == request_chosen(list_ready(old(app)@)).0,
        r == request_chosen(list_ready(old(app)@)).1,
        old(app)@.well_formed() ==> final(app)@.well_formed(),
{
    handle_screen_defaults(app);
    match app.selected {
        Some(num) => {
            if num == 0 {
                app.goto_screen(Screen::InputMenu(InputOpt::URL(CmdType::Curl)));
            } else if num == 1 {
                app.goto_screen(Screen::Authentication);
            } else if num == 2 {
                app.goto_screen(Screen::InputMenu(InputOpt::Headers));
            } else if num == 3 {
                app.add_display_option(AppOptions::Verbose);
                app.selected = None;
            } else if num == 4 {
                app.goto_screen(Screen::InputMenu(InputOpt::Cookie));
            } else if num == 5 {
                app.goto_screen(Screen::InputMenu(InputOpt::Referrer));
            } else if num == 6 {
                app.goto_screen(Screen::InputMenu(InputOpt::UserAgent));
            } else if num == 7 {
                app.goto_screen(Screen::InputMenu(InputOpt::CaPath));
            } else if num == 8 {
                app.goto_screen(Screen::InputMenu(InputOpt::MaxRedirects));
            } else if num == 9 {
                app.goto_screen(Screen::InputMenu(InputOpt::UnixSocket));
            } else if num == 10 {
                app.add_display_option(AppOptions::SaveCommand);
                app.selected = None;
            } else if num == 11 {
                app.add_display_option(AppOptions::SaveToken);
                app.selected = None;
            } else if num == 12 {
                app.selected = None;
                return MenuEffect::Execute;
            }
            MenuEffect::Nothing
        },
        None => MenuEffect::Nothing,
    }
}

/// The session after the run of its command ended: a run that succeeded
/// has its response recorded, shown among the options in the place of an
/// earlier one, and shown on the response screen; a run that failed has its
/// error shown on the error screen, and nothing recorded.
pub open spec fn run_finished(app: AppValue, outcome: Result<Seq<char>, Seq<char>>) -> AppValue {
    match outcome {
        Ok(response) => app.with_run(response).with_option(OptionValue::Response(response)).goto(
            ScreenValue::Response(response),
        ),
        Err(reason) => app.goto(ScreenValue::Error(reason)),
    }
}

/// Takes up how the run of the command ended.
pub fn execution_finished(app: &mut App, outcome: Result<String, String>)
    requires
        old(app)@.command is Some,
    ensures
        final(app)@ == run_finished(
            old(app)@,
            match outcome {
                Ok(response) => Ok(response@),
                Err(reason) => Err(reason@),
            },
        ),
        old(app)@.well_formed() ==> final(app)@.well_formed(),
{
    match app.execute_command(outcome) {
        Ok(response) => {
            app.add_display_option(AppOptions::Response(response.clone()));
            app.goto_screen(Screen::Response(response));
        },
        Err(reason) => {
            app.goto_screen(Screen::Error(reason));
        },
    }
}

} // verus!
