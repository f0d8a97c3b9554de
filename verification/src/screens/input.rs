//! The input screen: its prompt, and what a typed text does.

use crate::app::{App, AppValue, InputMode, WriteJob};
use crate::display::inputopt::InputOpt;
use crate::display::menuopts;
use crate::display::optionset::lemma_without_absent;
use crate::display::{AppOptions, OptionKind, OptionValue};
use crate::request::cmdtype::CmdType;
use crate::request::command::Command;
use crate::request::curl::{AuthKind, AuthValue};
use crate::screens::auth::AuthType;
use crate::screens::screen::{Screen, ScreenValue};
use crate::text::{
    header_parts, join_text, parse_usize, parse_usize_spec, split_header, NumberError,
};
use vstd::prelude::*;
use vstd::string::StringExecFns;

verus! {

/// What has to be done outside the session once a typed text is taken up.
#[derive(Debug, PartialEq, Eq)]
pub enum InputEffect {
    Nothing,
    /// The key is to be put in the store; the entries of the screen of the
    /// stored keys are to be read from the store after that.
    SaveKey(String),
    /// The file is to be written.
    WriteFile(WriteJob),
}

/// What has to be done outside the session, as a value.
pub enum InputEffectValue {
    Nothing,
    SaveKey(Seq<char>),
    WriteFile(Seq<char>, Seq<char>),
}

impl View for InputEffect {
    type V = InputEffectValue;

    open spec fn view(&self) -> InputEffectValue {
        match self {
            InputEffect::Nothing => InputEffectValue::Nothing,
            InputEffect::SaveKey(key) => InputEffectValue::SaveKey(key@),
            InputEffect::WriteFile(job) => InputEffectValue::WriteFile(job.path@, job.contents@),
        }
    }
}

/// The text that asks for the input.
pub open spec fn input_prompt(opt: InputOpt) -> Seq<char> {
    match opt {
        InputOpt::URL(family) => menuopts::INPUT_OPT_URL_PREFIX@ + family.name()
            + menuopts::INPUT_OPT_URL_SUFFIX@,
        InputOpt::Headers => menuopts::INPUT_OPT_HEADERS@,
        InputOpt::RecursiveDownload => menuopts::INPUT_OPT_REC_DOWNLOAD@,
        InputOpt::Auth(AuthType::Basic) => menuopts::INPUT_OPT_AUTH_BASIC@,
        InputOpt::Auth(AuthType::Bearer) => menuopts::INPUT_OPT_AUTH_BEARER@,
        InputOpt::Auth(_) => menuopts::INPUT_OPT_AUTH_ANY@,
        _ => menuopts::INPUT_OPT_BASIC@,
    }
}

/// The text that asks for the input.
pub fn get_input_prompt(opt: InputOpt) -> (r: String)
    ensures
        r@ == input_prompt(opt),
{
    match opt {
        InputOpt::URL(family) => {
            let name = family.to_string();
            let mut text = join_text(menuopts::INPUT_OPT_URL_PREFIX, name.as_str());
            text.append(menuopts::INPUT_OPT_URL_SUFFIX);
            text
        },
        InputOpt::Headers => String::from_str(menuopts::INPUT_OPT_HEADERS),
        InputOpt::RecursiveDownload => String::from_str(menuopts::INPUT_OPT_REC_DOWNLOAD),
        InputOpt::Auth(auth) => match auth {
            AuthType::Basic => String::from_str(menuopts::INPUT_OPT_AUTH_BASIC),
            AuthType::Bearer => String::from_str(menuopts::INPUT_OPT_AUTH_BEARER),
            _ => String::from_str(menuopts::INPUT_OPT_AUTH_ANY),
        },
        _ => String::from_str(menuopts::INPUT_OPT_BASIC),
    }
}

/// The way in which a transfer authenticates, for a way that the menus name
/// and the credentials that were typed. The ways that take no credentials
/// leave the typed text aside.
pub open spec fn auth_value(auth: AuthType, credentials: Seq<char>) -> AuthValue {
    match auth {
        AuthType::Basic => AuthValue::Basic(credentials),
        AuthType::Bearer => AuthValue::Bearer(credentials),
        AuthType::Digest => AuthValue::Digest(credentials),
        AuthType::AWSSignatureV4 => AuthValue::AwsSigv4,
        AuthType::SPNEGO => AuthValue::Spnego,
        AuthType::NTLM => AuthValue::Ntlm,
    }
}

/// The session after credentials are typed: the command authenticates in
/// the chosen way, the set shows the typed text as its one authentication
/// option, at its end, and the transfer menu is shown.
pub open spec fn auth_parsed(app: AppValue, auth: AuthType, message: Seq<char>) -> AppValue {
    app.without_option(OptionKind::Auth).with_auth(auth_value(auth, message)).with_option(
        OptionValue::Auth(message),
    ).goto(ScreenValue::RequestMenu(Seq::empty()))
}

/// Whether taking up a text for `opt` changes the command, so that there has
/// to be one.
pub open spec fn spec_input_needs_command(opt: InputOpt) -> bool {
    match opt {
        InputOpt::URL(_) | InputOpt::Headers | InputOpt::Output | InputOpt::Execute | InputOpt::Auth(
            _,
        ) => true,
        _ => false,
    }
}

/// Whether taking up a text for `opt` changes the command, so that there has
/// to be one.
#[verifier::when_used_as_spec(spec_input_needs_command)]
pub fn input_needs_command(opt: InputOpt) -> (r: bool)
    ensures
        r == spec_input_needs_command(opt),
{
    match opt {
        InputOpt::URL(_) | InputOpt::Headers | InputOpt::Output | InputOpt::Execute | InputOpt::Auth(
            _,
        ) => true,
        _ => false,
    }
}

/// The session after a text is chosen as an option on a screen of the
/// transfer menu's family, and the transfer menu is shown again.
pub open spec fn chosen_for_transfer(app: AppValue, o: OptionValue) -> AppValue {
    app.with_option(o).goto(ScreenValue::RequestMenu(Seq::empty()))
}

/// The session after a text is chosen as an option of a download, and the
/// download menu is shown again.
pub open spec fn chosen_for_download(app: AppValue, o: OptionValue) -> AppValue {
    app.with_option(o).goto(ScreenValue::Downloads)
}

/// The session after the file for the captured response is typed: for a
/// transfer the file is set, and either the file is to be written, or,
/// where no response was captured, the error screen says so. Any other
/// session stays as it is.
pub open spec fn output_file_typed(app: AppValue, message: Seq<char>) -> (
    AppValue,
    InputEffectValue,
) {
    if app.command is Some && app.command->0 is Curl {
        let named = app.with_outfile(message);
        match named.write_job() {
            Ok(job) => (named, InputEffectValue::WriteFile(job.0, job.1)),
            Err(reason) => (named.goto(ScreenValue::Error(reason)), InputEffectValue::Nothing),
        }
    } else {
        (app, InputEffectValue::Nothing)
    }
}

/// What a typed text does, by what it was asked for: the session after it,
/// and what has to be done outside. An address, a header, a file, a cookie
/// and the like become the option of their kind, and the menu of the
/// command is shown again. A recursion level or a maximum of redirects is
/// read as a decimal number first, and a text that is none is refused with
/// the reason. A key is to be stored, and the stored keys are shown.
pub open spec fn input_parsed(app: AppValue, opt: InputOpt, message: Seq<char>) -> Result<
    (AppValue, InputEffectValue),
    NumberError,
> {
    match opt {
        InputOpt::URL(CmdType::Wget) => Ok(
            (chosen_for_download(app, OptionValue::URL(message)), InputEffectValue::Nothing),
        ),
        InputOpt::URL(CmdType::Curl) => Ok(
            (chosen_for_transfer(app, OptionValue::URL(message)), InputEffectValue::Nothing),
        ),
        InputOpt::ApiKey => Ok(
            (app.goto(ScreenValue::SavedKeys), InputEffectValue::SaveKey(message)),
        ),
        InputOpt::UnixSocket => Ok(
            (chosen_for_transfer(app, OptionValue::UnixSocket(message)), InputEffectValue::Nothing),
        ),
        InputOpt::Headers => Ok(
            (
                chosen_for_transfer(
                    app,
                    OptionValue::Headers(header_parts(message).0, header_parts(message).1),
                ),
                InputEffectValue::Nothing,
            ),
        ),
        InputOpt::Output => Ok(
            (chosen_for_download(app, OptionValue::Outfile(message)), InputEffectValue::Nothing),
        ),
        InputOpt::Cookie => Ok(
            (chosen_for_transfer(app, OptionValue::Cookie(message)), InputEffectValue::Nothing),
        ),
        InputOpt::Referrer => Ok(
            (chosen_for_transfer(app, OptionValue::Referrer(message)), InputEffectValue::Nothing),
        ),
        InputOpt::CaPath => Ok(
            (chosen_for_transfer(app, OptionValue::CaPath(message)), InputEffectValue::Nothing),
        ),
        InputOpt::UserAgent => Ok(
            (chosen_for_transfer(app, OptionValue::UserAgent(message)), InputEffectValue::Nothing),
        ),
        InputOpt::MaxRedirects => match parse_usize_spec(message) {
            Ok(n) => Ok(
                (
                    chosen_for_transfer(app, OptionValue::MaxRedirects(n)),
                    InputEffectValue::Nothing,
                ),
            ),
            Err(e) => Err(e),
        },
        InputOpt::Execute => Ok(output_file_typed(app, message)),
        InputOpt::RecursiveDownload => match parse_usize_spec(message) {
            Ok(n) => Ok(
                (chosen_for_download(app, OptionValue::RecDownload(n)), InputEffectValue::Nothing),
            ),
            Err(e) => Err(e),
        },
        InputOpt::Auth(auth) => Ok((auth_parsed(app, auth, message), InputEffectValue::Nothing)),
    }
}

/// Takes up typed credentials for the given way to authenticate.
pub fn parse_auth(auth: AuthType, app: &mut App, message: &str)
    requires
        old(app)@.command is Some,
    ensures
        final(app)@ == auth_parsed(old(app)@, auth, message@),
        old(app)@.well_formed() ==> final(app)@.well_formed(),
{
    let marker = AppOptions::Auth(String::new());
    if app.has_display_option(&marker) {
        app.remove_display_option(&marker);
    } else {
        proof {
            lemma_without_absent(app@.opts, OptionKind::Auth);
        }
    }
    let kind = match auth {
        AuthType::Basic => AuthKind::Basic(String::from_str(message)),
        AuthType::Bearer => AuthKind::Bearer(String::from_str(message)),
        AuthType::Digest => AuthKind::Digest(String::from_str(message)),
        AuthType::AWSSignatureV4 => AuthKind::AwsSigv4,
        AuthType::SPNEGO => AuthKind::Spnego,
        AuthType::NTLM => AuthKind::Ntlm,
    };
    app.set_auth(kind);
    app.add_display_option(AppOptions::Auth(String::from_str(message)));
    app.goto_screen(Screen::RequestMenu(String::new()));
}

/// Takes up a typed text, by what it was asked for. A text that was to be a
/// number and is none is refused with the reason, and the session stays as
/// it was.
pub fn parse_input(message: String, opt: InputOpt, app: &mut App) -> (r: Result<
    InputEffect,
    NumberError,
>)
    requires
        input_needs_command(opt) ==> old(app)@.command is Some,
    ensures
        match input_parsed(old(app)@, opt, message@) {
            Ok(done) => r is Ok && r->Ok_0@ == done.1 && final(app)@ == done.0,
            Err(e) => r == Err::<InputEffect, NumberError>(e) && final(app)@ == old(app)@,
        },
        old(app)@.well_formed() ==> final(app)@.well_formed(),
{
    match opt {
        InputOpt::URL(family) => {
            app.add_display_option(AppOptions::URL(message));
            match family {
                CmdType::Wget => {
                    app.goto_screen(Screen::Downloads);
                },
                CmdType::Curl => {
                    app.goto_screen(Screen::RequestMenu(String::new()));
                },
            }
            Ok(InputEffect::Nothing)
        },
        InputOpt::ApiKey => {
            app.goto_screen(Screen::SavedKeys);
            Ok(InputEffect::SaveKey(message))
        },
        InputOpt::UnixSocket => {
            app.add_display_option(AppOptions::UnixSocket(message));
            app.goto_screen(Screen::RequestMenu(String::new()));
            Ok(InputEffect::Nothing)
        },
        InputOpt::Headers => {
            app.add_display_option(AppOptions::Headers(split_header(message.as_str())));
            app.goto_screen(Screen::RequestMenu(String::new()));
            Ok(InputEffect::Nothing)
        },
        InputOpt::Output => {
            app.add_display_option(AppOptions::Outfile(message));
            app.goto_screen(Screen::Downloads);
            Ok(InputEffect::Nothing)
        },
        InputOpt::Cookie => {
            app.add_display_option(AppOptions::Cookie(message));
            app.goto_screen(Screen::RequestMenu(String::new()));
            Ok(InputEffect::Nothing)
        },
        InputOpt::Referrer => {
            app.add_display_option(AppOptions::Referrer(message));
            app.goto_screen(Screen::RequestMenu(String::new()));
            Ok(InputEffect::Nothing)
        },
        InputOpt::CaPath => {
            app.add_display_option(AppOptions::CaPath(message));
            app.goto_screen(Screen::RequestMenu(String::new()));
            Ok(InputEffect::Nothing)
        },
        InputOpt::UserAgent => {
            app.add_display_option(AppOptions::UserAgent(message));
            app.goto_screen(Screen::RequestMenu(String::new()));
            Ok(InputEffect::Nothing)
        },
        InputOpt::MaxRedirects => match parse_usize(message.as_str()) {
            Ok(num) => {
                app.add_display_option(AppOptions::MaxRedirects(num));
                app.goto_screen(Screen::RequestMenu(String::new()));
                Ok(InputEffect::Nothing)
            },
            Err(e) => Err(e),
        },
        InputOpt::Execute => {
            let transfer = match &app.command {
                Some(Command::Curl(_)) => true,
                _ => false,
            };
            if !transfer {
                return Ok(InputEffect::Nothing);
            }
            app.set_outfile(message.as_str());
            match app.write_response() {
                Ok(job) => Ok(InputEffect::WriteFile(job)),
                Err(reason) => {
                    app.goto_screen(Screen::Error(reason));
                    Ok(InputEffect::Nothing)
                },
            }
        },
        InputOpt::RecursiveDownload => match parse_usize(message.as_str()) {
            Ok(recursion_level) => {
                app.add_display_option(AppOptions::RecDownload(recursion_level));
                app.goto_screen(Screen::Downloads);
                Ok(InputEffect::Nothing)
            },
            Err(e) => Err(e),
        },
        InputOpt::Auth(auth) => {
            parse_auth(auth, app, message.as_str());
            Ok(InputEffect::Nothing)
        },
    }
}

/// The session after the typed text that waits first, if one waits, is
/// taken off the queue and the editing ends.
pub open spec fn message_taken(app: AppValue) -> AppValue {
    AppValue { input_mode: InputMode::Normal, messages: app.messages.remove(0), ..app }
}

/// Takes up the typed text that waits first, if one waits: the editing
/// ends, the text leaves the queue, and it does what it was asked for. A
/// text that is refused leaves the queue too, and the session stays on the
/// screen where it is. With no text waiting nothing happens.
pub fn handle_default_input_screen(app: &mut App, opt: InputOpt) -> (r: Result<
    InputEffect,
    NumberError,
>)
    requires
        old(app)@.messages.len() > 0 && input_needs_command(opt) ==> old(app)@.command is Some,
    ensures
        old(app)@.messages.len() == 0 ==> r is Ok && r->Ok_0@ == InputEffectValue::Nothing
            && final(app)@ == old(app)@,
        old(app)@.messages.len() > 0 ==> match input_parsed(
            old(app)@,
            opt,
            old(app)@.messages[0],
        ) {
            Ok(done) => r is Ok && r->Ok_0@ == done.1 && final(app)@ == message_taken(done.0),
            Err(e) => r == Err::<InputEffect, NumberError>(e) && final(app)@ == message_taken(
                old(app)@,
            ),
        },
        old(app)@.well_formed() ==> final(app)@.well_formed(),
{
    if app.messages.len() == 0 {
        return Ok(InputEffect::Nothing);
    }
    app.input_mode = InputMode::Normal;
    let message = app.messages.remove(0);
    assert(app.messages.deep_view() =~= old(app).messages.deep_view().remove(0));
    assert(message@ == old(app).messages.deep_view()[0]);
    parse_input(message, opt, app)
}

} // verus!
