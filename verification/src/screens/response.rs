//! The screen that shows what came back from a run.

use crate::app::{App, AppValue};
use crate::display::inputopt::InputOpt;
use crate::display::menuopts;
use crate::screens::render::{handle_screen_defaults, list_ready};
use crate::screens::screen::{Screen, ScreenValue};
use vstd::prelude::*;
use vstd::string::StringExecFns;

verus! {

/// What has to be done outside the session for a choice on the response
/// screen.
#[derive(Debug, PartialEq, Eq)]
pub enum ResponseEffect {
    Nothing,
    /// The response is to be read for its headers, which are then shown; if
    /// it cannot be read, the session is told so.
    ParseHeaders(String),
    /// The text is to be copied to the clipboard, and the session is told
    /// how that went.
    CopyToClipboard(String),
}

/// What has to be done outside the session, as a value.
pub enum ResponseEffectValue {
    Nothing,
    ParseHeaders(Seq<char>),
    CopyToClipboard(Seq<char>),
}

impl View for ResponseEffect {
    type V = ResponseEffectValue;

    open spec fn view(&self) -> ResponseEffectValue {
        match self {
            ResponseEffect::Nothing => ResponseEffectValue::Nothing,
            ResponseEffect::ParseHeaders(s) => ResponseEffectValue::ParseHeaders(s@),
            ResponseEffect::CopyToClipboard(s) => ResponseEffectValue::CopyToClipboard(s@),
        }
    }
}

/// The text that goes to the clipboard: the command as it is run, as one
/// line; without a command the captured response; without either a fixed
/// text.
pub open spec fn clipboard_text(app: AppValue) -> Seq<char> {
    match app.command {
        Some(_) => app.run_line(),
        None => match app.response {
            Some(r) => r,
            None => menuopts::COMMAND_NOT_SAVED_MSG@,
        },
    }
}

/// What the choice that is confirmed on the response screen does: the
/// first entry leads to the prompt for the file to write the response to;
/// the second asks for the headers of the response `resp`; the third leads
/// to the body; the fourth asks for the command to be copied; the fifth
/// empties the set of options and leads home. With nothing confirmed, or
/// another entry, nothing happens.
pub open spec fn response_chosen(app: AppValue, resp: Seq<char>) -> (
    AppValue,
    ResponseEffectValue,
) {
    if app.selected == Some(0usize) {
        (app.goto(ScreenValue::InputMenu(InputOpt::Execute)), ResponseEffectValue::Nothing)
    } else if app.selected == Some(1usize) {
        (app, ResponseEffectValue::ParseHeaders(resp))
    } else if app.selected == Some(2usize) {
        (app.goto(ScreenValue::ViewBody), ResponseEffectValue::Nothing)
    } else if app.selected == Some(3usize) {
        (app, ResponseEffectValue::CopyToClipboard(clipboard_text(app)))
    } else if app.selected == Some(4usize) {
        (
            (AppValue { opts: Seq::empty(), ..app }).goto(ScreenValue::Home),
            ResponseEffectValue::Nothing,
        )
    } else {
        (app, ResponseEffectValue::Nothing)
    }
}

/// Makes the response screen ready to be drawn, and takes up the choice
/// that is confirmed on it, where `resp` is the response that the screen
/// shows.
pub fn handle_response_screen(app: &mut App, resp: String) -> (r: ResponseEffect)
    ensures
        r@ == response_chosen(list_ready(old(app)@), resp@).1,
        final(app)@ == response_chosen(list_ready(old(app)@), resp@).0,
        old(app)@.well_formed() ==> final(app)@.well_formed(),
{
    handle_screen_defaults(app);
    match app.selected {
        Some(num) => {
            if num == 0 {
                app.goto_screen(Screen::InputMenu(InputOpt::Execute));
                ResponseEffect::Nothing
            } else if num == 1 {
                ResponseEffect::ParseHeaders(resp)
            } else if num == 2 {
                app.goto_screen(Screen::ViewBody);
                ResponseEffect::Nothing
            } else if num == 3 {
                let text = match &app.command {
                    Some(_) => app.get_command_string(),
                    None => match &app.response {
                        Some(r) => r.clone(),
                        None => String::from_str(menuopts::COMMAND_NOT_SAVED_MSG),
                    },
                };
                ResponseEffect::CopyToClipboard(text)
            } else if num == 4 {
                app.remove_all_display_options();
                app.goto_screen(Screen::Home);
                ResponseEffect::Nothing
            } else {
                ResponseEffect::Nothing
            }
        },
        None => ResponseEffect::Nothing,
    }
}

/// Takes up that the response could not be read for its headers: the error
/// screen shows the reason.
pub fn response_unreadable(app: &mut App, reason: String)
    ensures
        final(app)@ == old(app)@.goto(ScreenValue::Error(reason@)),
        old(app)@.well_formed() ==> final(app)@.well_formed(),
{
    app.goto_screen(Screen::Error(reason));
}

/// The session after the copy to the clipboard ended: the success screen if
/// it went well; else the error screen, with the reason where the command
/// was copied and with a fixed text where the response was.
pub open spec fn clipboard_done(app: AppValue, result: Result<(), Seq<char>>) -> AppValue {
    match result {
        Ok(_) => app.goto(ScreenValue::Success),
        Err(reason) => if app.command is Some {
            app.goto(ScreenValue::Error(reason))
        } else {
            app.goto(ScreenValue::Error(menuopts::CLIPBOARD_ERROR_MSG@))
        },
    }
}

/// Takes up how the copy to the clipboard ended.
pub fn clipboard_written(app: &mut App, result: Result<(), String>)
    ensures
        final(app)@ == clipboard_done(
            old(app)@,
            match result {
                Ok(_) => Ok(()),
                Err(reason) => Err(reason@),
            },
        ),
        old(app)@.well_formed() ==> final(app)@.well_formed(),
{
    match result {
        Ok(_) => {
            app.goto_screen(Screen::Success);
        },
        Err(reason) => {
            if app.command.is_some() {
                app.goto_screen(Screen::Error(reason));
            } else {
                app.goto_screen(Screen::Error(String::from_str(menuopts::CLIPBOARD_ERROR_MSG)));
            }
        },
    }
}

} // verus!
