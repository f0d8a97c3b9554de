//! The screens of the interface.

use crate::display::inputopt::InputOpt;
use crate::display::menuopts;
use crate::request::cmdtype::CmdType;
use crate::vectors::lemma_deep_view_push;
use vstd::prelude::*;
use vstd::string::StringExecFns;

verus! {

/// One screen of the interface.
#[derive(Debug, PartialEq, Eq)]
pub enum Screen {
    Home,
    /// The menu of a download.
    Downloads,
    /// The menu of a transfer, with the alert that it shows, if any.
    RequestMenu(String),
    /// The prompt that asks for one text.
    InputMenu(InputOpt),
    Authentication,
    /// What came back from a run.
    Response(String),
    ViewBody,
    SavedKeys,
    SavedCommands,
    Success,
    /// An error, with its text.
    Error(String),
}

/// A screen as a value.
pub enum ScreenValue {
    Home,
    Downloads,
    RequestMenu(Seq<char>),
    InputMenu(InputOpt),
    Authentication,
    Response(Seq<char>),
    ViewBody,
    SavedKeys,
    SavedCommands,
    Success,
    Error(Seq<char>),
}

/// Where the entries of a screen come from.
#[derive(Debug, Clone, Copy, PartialEq, Eq, Structural)]
pub enum ItemSource {
    /// The screen has its own fixed entries.
    Fixed,
    /// The entries are the keys in the store.
    SavedKeys,
    /// The entries are the commands in the store.
    SavedCommands,
}

impl View for Screen {
    type V = ScreenValue;

    open spec fn view(&self) -> ScreenValue {
        match self {
            Screen::Home => ScreenValue::Home,
            Screen::Downloads => ScreenValue::Downloads,
            Screen::RequestMenu(s) => ScreenValue::RequestMenu(s@),
            Screen::InputMenu(o) => ScreenValue::InputMenu(*o),
            Screen::Authentication => ScreenValue::Authentication,
            Screen::Response(s) => ScreenValue::Response(s@),
            Screen::ViewBody => ScreenValue::ViewBody,
            Screen::SavedKeys => ScreenValue::SavedKeys,
            Screen::SavedCommands => ScreenValue::SavedCommands,
            Screen::Success => ScreenValue::Success,
            Screen::Error(s) => ScreenValue::Error(s@),
        }
    }
}

impl DeepView for Screen {
    type V = ScreenValue;

    open spec fn deep_view(&self) -> ScreenValue {
        self@
    }
}

impl ScreenValue {
    /// Whether the screen is a prompt for one text: going back never lands
    /// on such a screen from the screen above it without leaving it again.
    pub open spec fn is_prompt(self) -> bool {
        self is InputMenu
    }

    /// The family of command that the screen builds, if it builds one.
    pub open spec fn family(self) -> Option<CmdType> {
        match self {
            ScreenValue::RequestMenu(_) => Some(CmdType::Curl),
            ScreenValue::Downloads => Some(CmdType::Wget),
            _ => None,
        }
    }

    /// Where the entries of the screen come from.
    pub open spec fn item_source(self) -> ItemSource {
        match self {
            ScreenValue::SavedKeys => ItemSource::SavedKeys,
            ScreenValue::SavedCommands => ItemSource::SavedCommands,
            _ => ItemSource::Fixed,
        }
    }

    /// The fixed entries of the screen, in the order in which they are
    /// listed. A screen that lists what the store holds has none of its own.
    pub open spec fn menu(self) -> Seq<Seq<char>> {
        match self {
            ScreenValue::Home => seq![
                menuopts::HOME_MENU_REQUEST@,
                menuopts::HOME_MENU_DOWNLOAD@,
                menuopts::HOME_MENU_KEYS@,
                menuopts::HOME_MENU_COMMANDS@,
                menuopts::HOME_MENU_ADD_KEY@,
            ],
            ScreenValue::Downloads => seq![
                menuopts::DOWNLOAD_MENU_DEPTH@,
                menuopts::DOWNLOAD_MENU_URL@,
                menuopts::DOWNLOAD_MENU_OUTFILE@,
                menuopts::DOWNLOAD_MENU_EXECUTE@,
            ],
            ScreenValue::RequestMenu(_) => seq![
                menuopts::REQUEST_MENU_URL@,
                menuopts::REQUEST_MENU_AUTH@,
                menuopts::REQUEST_MENU_HEADERS@,
                menuopts::REQUEST_MENU_VERBOSE@,
                menuopts::REQUEST_MENU_COOKIE@,
                menuopts::REQUEST_MENU_REFERRER@,
                menuopts::REQUEST_MENU_USERAGENT@,
                menuopts::REQUEST_MENU_CA_PATH@,
                menuopts::REQUEST_MENU_MAX_REDIRECTS@,
                menuopts::REQUEST_MENU_UNIX_SOCKET@,
                menuopts::REQUEST_MENU_SAVE_COMMAND@,
                menuopts::REQUEST_MENU_SAVE_TOKEN@,
                menuopts::REQUEST_MENU_EXECUTE@,
            ],
            ScreenValue::Authentication => seq![
                menuopts::AUTH_MENU_BASIC@,
                menuopts::AUTH_MENU_BEARER@,
                menuopts::AUTH_MENU_DIGEST@,
                menuopts::AUTH_MENU_AWS@,
                menuopts::AUTH_MENU_SPNEGO@,
                menuopts::AUTH_MENU_NTLM@,
            ],
            ScreenValue::Response(_) => seq![
                menuopts::RESPONSE_MENU_WRITE@,
                menuopts::RESPONSE_MENU_HEADERS@,
                menuopts::RESPONSE_MENU_BODY@,
                menuopts::RESPONSE_MENU_COPY@,
                menuopts::RESPONSE_MENU_HOME@,
            ],
            _ => Seq::empty(),
        }
    }
}

impl Clone for Screen {
    fn clone(&self) -> (r: Self)
        ensures
            r == *self,
    {
        match self {
            Screen::Home => Screen::Home,
            Screen::Downloads => Screen::Downloads,
            Screen::RequestMenu(s) => Screen::RequestMenu(s.clone()),
            Screen::InputMenu(o) => Screen::InputMenu(*o),
            Screen::Authentication => Screen::Authentication,
            Screen::Response(s) => Screen::Response(s.clone()),
            Screen::ViewBody => Screen::ViewBody,
            Screen::SavedKeys => Screen::SavedKeys,
            Screen::SavedCommands => Screen::SavedCommands,
            Screen::Success => Screen::Success,
            Screen::Error(s) => Screen::Error(s.clone()),
        }
    }
}

/// Adds one entry to a list of entries.
pub fn push_label(items: &mut Vec<String>, label: &str)
    ensures
        final(items).deep_view() == old(items).deep_view().push(label@),
{
    let entry = String::from_str(label);
    let ghost before = items@;
    items.push(entry);
    proof {
        lemma_deep_view_push(before, *items, entry);
    }
}

impl Screen {
    /// Whether the screen is a prompt for one text.
    pub fn is_prompt(&self) -> (r: bool)
        ensures
            r == self@.is_prompt(),
    {
        match self {
            Screen::InputMenu(_) => true,
            _ => false,
        }
    }

    /// The family of command that the screen builds, if it builds one.
    pub fn family(&self) -> (r: Option<CmdType>)
        ensures
            r == self@.family(),
    {
        match self {
            Screen::RequestMenu(_) => Some(CmdType::Curl),
            Screen::Downloads => Some(CmdType::Wget),
            _ => None,
        }
    }

    /// Where the entries of the screen come from.
    pub fn item_source(&self) -> (r: ItemSource)
        ensures
            r == self@.item_source(),
    {
        match self {
            Screen::SavedKeys => ItemSource::SavedKeys,
            Screen::SavedCommands => ItemSource::SavedCommands,
            _ => ItemSource::Fixed,
        }
    }

    /// The fixed entries of the screen.
    pub fn get_opts(&self) -> (r: Vec<String>)
        ensures
            r.deep_view() == self@.menu(),
    {
        let mut items: Vec<String> = Vec::new();
        assert(items.deep_view() =~= Seq::empty());
        match self {
            Screen::Home => {
                push_label(&mut items, menuopts::HOME_MENU_REQUEST);
                push_label(&mut items, menuopts::HOME_MENU_DOWNLOAD);
                push_label(&mut items, menuopts::HOME_MENU_KEYS);
                push_label(&mut items, menuopts::HOME_MENU_COMMANDS);
                push_label(&mut items, menuopts::HOME_MENU_ADD_KEY);
            },
            Screen::Downloads => {
                push_label(&mut items, menuopts::DOWNLOAD_MENU_DEPTH);
                push_label(&mut items, menuopts::DOWNLOAD_MENU_URL);
                push_label(&mut items, menuopts::DOWNLOAD_MENU_OUTFILE);
                push_label(&mut items, menuopts::DOWNLOAD_MENU_EXECUTE);
            },
            Screen::RequestMenu(_) => {
                push_label(&mut items, menuopts::REQUEST_MENU_URL);
                push_label(&mut items, menuopts::REQUEST_MENU_AUTH);
                push_label(&mut items, menuopts::REQUEST_MENU_HEADERS);
                push_label(&mut items, menuopts::REQUEST_MENU_VERBOSE);
                push_label(&mut items, menuopts::REQUEST_MENU_COOKIE);
                push_label(&mut items, menuopts::REQUEST_MENU_REFERRER);
                push_label(&mut items, menuopts::REQUEST_MENU_USERAGENT);
                push_label(&mut items, menuopts::REQUEST_MENU_CA_PATH);
                push_label(&mut items, menuopts::REQUEST_MENU_MAX_REDIRECTS);
                push_label(&mut items, menuopts::REQUEST_MENU_UNIX_SOCKET);
                push_label(&mut items, menuopts::REQUEST_MENU_SAVE_COMMAND);
                push_label(&mut items, menuopts::REQUEST_MENU_SAVE_TOKEN);
                push_label(&mut items, menuopts::REQUEST_MENU_EXECUTE);
            },
            Screen::Authentication => {
                push_label(&mut items, menuopts::AUTH_MENU_BASIC);
                push_label(&mut items, menuopts::AUTH_MENU_BEARER);
                push_label(&mut items, menuopts::AUTH_MENU_DIGEST);
                push_label(&mut items, menuopts::AUTH_MENU_AWS);
                push_label(&mut items, menuopts::AUTH_MENU_SPNEGO);
                push_label(&mut items, menuopts::AUTH_MENU_NTLM);
            },
            Screen::Response(_) => {
                push_label(&mut items, menuopts::RESPONSE_MENU_WRITE);
                push_label(&mut items, menuopts::RESPONSE_MENU_HEADERS);
                push_label(&mut items, menuopts::RESPONSE_MENU_BODY);
                push_label(&mut items, menuopts::RESPONSE_MENU_COPY);
                push_label(&mut items, menuopts::RESPONSE_MENU_HOME);
            },
            _ => {},
        }
        items
    }
}

} // verus!
