//! The authentication menu.

use crate::app::{App, AppValue};
use crate::display::inputopt::InputOpt;
use crate::display::menuopts;
use crate::display::{AppOptions, OptionValue};
use crate::request::curl::{AuthKind, AuthValue};
use crate::screens::render::{handle_screen_defaults, list_ready};
use crate::screens::screen::{Screen, ScreenValue};
use vstd::prelude::*;
use vstd::string::StringExecFns;

verus! {

pub const AUTH_NAME_BASIC: &'static str = "Basic";

pub const AUTH_NAME_BEARER: &'static str = "Bearer";

pub const AUTH_NAME_DIGEST: &'static str = "Digest";

pub const AUTH_NAME_AWS: &'static str = "AWS Signature V4";

pub const AUTH_NAME_NTLM: &'static str = "NTLM";

pub const AUTH_NAME_SPNEGO: &'static str = "SPNEGO";

/// A way to authenticate, as the menus name it.
#[derive(Debug, Clone, Copy, PartialEq, Eq, Structural)]
pub enum AuthType {
    Basic,
    Bearer,
    Digest,
    AWSSignatureV4,
    NTLM,
    SPNEGO,
}

impl AuthType {
    /// The name under which the option list shows this way to authenticate.
    pub open spec fn name(self) -> Seq<char> {
        match self {
            AuthType::Basic => AUTH_NAME_BASIC@,
            AuthType::Bearer => AUTH_NAME_BEARER@,
            AuthType::Digest => AUTH_NAME_DIGEST@,
            AuthType::AWSSignatureV4 => AUTH_NAME_AWS@,
            AuthType::NTLM => AUTH_NAME_NTLM@,
            AuthType::SPNEGO => AUTH_NAME_SPNEGO@,
        }
    }

    /// The name under which the option list shows this way to authenticate.
    pub fn to_string(&self) -> (r: String)
        ensures
            r@ == self.name(),
    {
        match self {
            AuthType::Basic => String::from_str(AUTH_NAME_BASIC),
            AuthType::Bearer => String::from_str(AUTH_NAME_BEARER),
            AuthType::Digest => String::from_str(AUTH_NAME_DIGEST),
            AuthType::AWSSignatureV4 => String::from_str(AUTH_NAME_AWS),
            AuthType::NTLM => String::from_str(AUTH_NAME_NTLM),
            AuthType::SPNEGO => String::from_str(AUTH_NAME_SPNEGO),
        }
    }
}

/// The session after the choice that is confirmed on the authentication
/// menu is taken up. The first three entries lead to the prompt for the
/// credentials of their kind. The fourth, for the signature that reads its
/// keys from the environment, leads to the transfer menu: with an alert and
/// the option shown where the keys are there (`aws_ready`), with an error
/// text where they are not. The fifth and the sixth set the way to
/// authenticate on the command and lead to the transfer menu. With nothing
/// confirmed, or another entry, the session stays as it is.
pub open spec fn authentication_chosen(app: AppValue, aws_ready: bool) -> AppValue {
    if app.selected == Some(0usize) {
        app.goto(ScreenValue::InputMenu(InputOpt::Auth(AuthType::Basic)))
    } else if app.selected == Some(1usize) {
        app.goto(ScreenValue::InputMenu(InputOpt::Auth(AuthType::Bearer)))
    } else if app.selected == Some(2usize) {
        app.goto(ScreenValue::InputMenu(InputOpt::Auth(AuthType::Digest)))
    } else if app.selected == Some(3usize) {
        if aws_ready {
            app.goto(ScreenValue::RequestMenu(menuopts::AWS_AUTH_MSG@)).with_option(
                OptionValue::Auth(AuthType::AWSSignatureV4.name()),
            )
        } else {
            app.goto(ScreenValue::RequestMenu(menuopts::AWS_AUTH_ERROR_MSG@))
        }
    } else if app.selected == Some(4usize) {
        app.with_auth(AuthValue::Spnego).with_option(
            OptionValue::Auth(AuthType::SPNEGO.name()),
        ).goto(ScreenValue::RequestMenu(Seq::empty()))
    } else if app.selected == Some(5usize) {
        app.with_auth(AuthValue::Ntlm).goto(ScreenValue::RequestMenu(menuopts::NTLM_AUTH_MSG@))
    } else {
        app
    }
}

/// Makes the authentication menu ready to be drawn, and takes up the choice
/// that is confirmed on it. `aws_ready` says whether the environment holds
/// the keys for the signature that reads them from there.
pub fn handle_authentication_screen(app: &mut App, aws_ready: bool)
    requires
        old(app)@.selected == Some(4usize) || old(app)@.selected == Some(5usize) ==> old(
            app,
        )@.command is Some,
    ensures
        final(app)@ == authentication_chosen(list_ready(old(app)@), aws_ready),
        old(app)@.well_formed() ==> final(app)@.well_formed(),
{
    handle_screen_defaults(app);
    match app.selected {
        Some(num) => {
            if num == 0 {
                app.goto_screen(Screen::InputMenu(InputOpt::Auth(AuthType::Basic)));
            } else if num == 1 {
                app.goto_screen(Screen::InputMenu(InputOpt::Auth(AuthType::Bearer)));
            } else if num == 2 {
                app.goto_screen(Screen::InputMenu(InputOpt::Auth(AuthType::Digest)));
            } else if num == 3 {
                if aws_ready {
                    app.goto_screen(
                        Screen::RequestMenu(String::from_str(menuopts::AWS_AUTH_MSG)),
                    );
                    app.add_display_option(AppOptions::Auth(AuthType::AWSSignatureV4.to_string()));
                } else {
                    app.goto_screen(
                        Screen::RequestMenu(String::from_str(menuopts::AWS_AUTH_ERROR_MSG)),
                    );
                }
            } else if num == 4 {
                app.set_auth(AuthKind::Spnego);
                app.add_display_option(AppOptions::Auth(AuthType::SPNEGO.to_string()));
                app.goto_screen(Screen::RequestMenu(String::new()));
            } else if num == 5 {
                app.set_auth(AuthKind::Ntlm);
                app.goto_screen(Screen::RequestMenu(String::from_str(menuopts::NTLM_AUTH_MSG)));
            }
        },
        None => {},
    }
}

/// Whether the environment holds all that the signature needs that reads its
/// keys from there: the key, its secret and the region.
pub fn varify_aws_auth(has_key_id: bool, has_secret: bool, has_region: bool) -> (r: bool)
    ensures
        r == (has_key_id && has_secret && has_region),
{
    if has_key_id && has_secret && has_region {
        return true;
    }
    false
}

} // verus!
