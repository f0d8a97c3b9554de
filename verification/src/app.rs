//! The session: the screen that is shown and the screens behind it, the
//! options that are chosen, the command that they are mirrored into, the
//! cursor over the entries of the screen and the entry that was confirmed.

use crate::display::inputopt::InputOpt;
use crate::display::menuopts;
use crate::display::optionset::{
    at_most_once, contains_kind, count_kind, first_of_kind, has_kind, is_first_of_kind,
    lemma_accumulated_in_order, lemma_first_of_kind_unique,
    lemma_merged_keeps_at_most_once, lemma_replaced_when_chosen_again, lemma_toggled_twice,
    lemma_without_keeps_at_most_once,
    merged, position_of_kind, remove_kind, without_kind,
};
use crate::display::{AppOptions, MergePolicy, OptionKind, OptionValue};
use crate::request::cmdtype::CmdType;
use crate::request::command::{Command, CommandValue};
use crate::request::curl::{
    command_line, join_command_line, AuthKind, AuthValue, CURL_PROGRAM,
};
use crate::request::synthesis::{args_of_options, chosen_args};
use crate::request::wget::WGET_PROGRAM;
use crate::screens::screen::{ItemSource, Screen, ScreenValue};
use crate::text::{format_header, header_line};
use crate::vectors::{lemma_deep_view_append, lemma_deep_view_push};
use crate::widgets::{highlighted, typed};
use ratatui::widgets::ListState;
use tui_input::Input;
use vstd::prelude::*;
use vstd::string::StringExecFns;

verus! {

/// Whether the text field of the session is being edited.
#[derive(Debug, Clone, Copy, PartialEq, Eq, Structural)]
pub enum InputMode {
    Normal,
    Editing,
}

/// The session of one user.
#[derive(Debug)]
pub struct App {
    /// Whether the session goes on.
    pub running: bool,
    /// The entry of the current screen that is highlighted.
    pub cursor: usize,
    pub current_screen: Screen,
    /// The screens that were gone to and not yet left, the latest last.
    pub screen_stack: Vec<Screen>,
    /// The command that is being built, once its family is chosen.
    pub command: Option<Command>,
    /// The entry that was confirmed on the current screen, if one was.
    pub selected: Option<usize>,
    /// The options that are chosen, in the order in which they are shown.
    pub opts: Vec<AppOptions>,
    /// The text field in which the user types.
    pub input: Input,
    /// The texts that were typed and not yet taken up.
    pub messages: Vec<String>,
    pub input_mode: InputMode,
    /// The entries of the current screen.
    pub items: Vec<String>,
    /// The state of the list that shows the entries, once one was drawn.
    pub state: Option<ListState>,
    /// What came back from the last run, if anything.
    pub response: Option<String>,
    /// Whether the store has been opened in this session.
    pub storage_open: bool,
}

/// What has to be done outside the session to run its command.
#[derive(Debug, PartialEq, Eq)]
pub struct ExecutionPlan {
    /// The family of the command.
    pub family: CmdType,
    /// The name of the program that runs the command.
    pub program: String,
    /// The arguments that the program is run with.
    pub args: Vec<String>,
    /// Whether the store has to be opened before the run.
    pub open_storage: bool,
    /// Whether the command is to be kept in the store.
    pub store_command: bool,
    /// Whether the credentials are to be kept in the store.
    pub store_token: bool,
}

/// A file to write: where, and what.
#[derive(Debug, PartialEq, Eq)]
pub struct WriteJob {
    pub path: String,
    pub contents: String,
}

/// A session as a value.
pub struct AppValue {
    pub running: bool,
    pub cursor: usize,
    pub current_screen: ScreenValue,
    pub screen_stack: Seq<ScreenValue>,
    pub command: Option<CommandValue>,
    pub selected: Option<usize>,
    pub opts: Seq<OptionValue>,
    /// The text that the text field holds.
    pub input: Seq<char>,
    pub messages: Seq<Seq<char>>,
    pub input_mode: InputMode,
    pub items: Seq<Seq<char>>,
    /// Whether there is a list state, and the entry that it highlights.
    pub state: Option<Option<usize>>,
    pub response: Option<Seq<char>>,
    pub storage_open: bool,
}

impl View for App {
    type V = AppValue;

    open spec fn view(&self) -> AppValue {
        AppValue {
            running: self.running,
            cursor: self.cursor,
            current_screen: self.current_screen@,
            screen_stack: self.screen_stack.deep_view(),
            command: self.command.deep_view(),
            selected: self.selected,
            opts: self.opts.deep_view(),
            input: typed(self.input),
            messages: self.messages.deep_view(),
            input_mode: self.input_mode,
            items: self.items.deep_view(),
            state: match self.state {
                Some(state) => Some(highlighted(state)),
                None => None,
            },
            response: self.response.deep_view(),
            storage_open: self.storage_open,
        }
    }
}

/// The command after an option is chosen, given the options chosen before:
/// a switch of verbosity or of keeping the command is set to the opposite of
/// whether the option was shown as chosen; the keeping of the credentials is
/// switched; a header is added as one line; an address or an output file is
/// set. No other kind changes the command.
pub open spec fn command_with_option(
    c: CommandValue,
    opts: Seq<OptionValue>,
    o: OptionValue,
) -> CommandValue {
    match o {
        OptionValue::Verbose => c.with_verbose(!has_kind(opts, OptionKind::Verbose)),
        OptionValue::SaveCommand => c.with_save_command(!has_kind(opts, OptionKind::SaveCommand)),
        OptionValue::SaveToken => c.with_save_token(!c.will_store_token()),
        OptionValue::Headers(name, value) => c.with_headers(seq![header_line(name, value)]),
        OptionValue::URL(url) => c.with_url(url),
        OptionValue::Outfile(path) => c.with_outfile(path),
        _ => c,
    }
}

impl AppValue {
    /// The session after an option is chosen: the option is merged into the
    /// set by the policy of its kind, and the command follows.
    pub open spec fn with_option(self, o: OptionValue) -> AppValue {
        AppValue {
            opts: merged(self.opts, o),
            command: match self.command {
                Some(c) => Some(command_with_option(c, self.opts, o)),
                None => None,
            },
            ..self
        }
    }

    /// The session after a way to authenticate is chosen for its command; a
    /// download takes none.
    pub open spec fn with_auth(self, auth: AuthValue) -> AppValue {
        AppValue {
            command: match self.command {
                Some(c) => Some(c.with_auth(auth)),
                None => None,
            },
            ..self
        }
    }

    /// The session after the output file of its command is set.
    pub open spec fn with_outfile(self, path: Seq<char>) -> AppValue {
        AppValue {
            command: match self.command {
                Some(c) => Some(c.with_outfile(path)),
                None => None,
            },
            ..self
        }
    }

    /// The session without its options of the given kind.
    pub open spec fn without_option(self, kind: OptionKind) -> AppValue {
        AppValue { opts: without_kind(self.opts, kind), ..self }
    }

    /// The session after a switch is operated; an option that is no switch
    /// leaves the session as it is.
    pub open spec fn toggled(self, o: OptionValue) -> AppValue {
        if o.kind().policy() == MergePolicy::Toggle {
            self.with_option(o)
        } else {
            self
        }
    }

    /// The arguments with which the command is run: what the chosen options
    /// add to a command of its family, then the arguments of the command
    /// itself.
    pub open spec fn run_args(self) -> Seq<Seq<char>> {
        match self.command {
            Some(c) => chosen_args(c.family(), self.opts) + c.args(),
            None => Seq::empty(),
        }
    }

    /// The command as it is run, as one line of text; without a command,
    /// the empty text.
    pub open spec fn run_line(self) -> Seq<char> {
        match self.command {
            Some(c) => command_line(c.program(), self.run_args()),
            None => Seq::empty(),
        }
    }

    /// What is answered to a request to write the captured response to its
    /// file: the file and what goes into it, for a transfer that has an
    /// output file and a response; otherwise the reason why nothing is
    /// written.
    pub open spec fn write_job(self) -> Result<(Seq<char>, Seq<char>), Seq<char>> {
        match self.command {
            None => Err(menuopts::NO_COMMAND_MSG@),
            Some(CommandValue::Wget(_)) => Err(menuopts::DOWNLOAD_OUTPUT_MSG@),
            Some(CommandValue::Curl(c)) => match c.outfile {
                None => Err(menuopts::NO_OUTFILE_MSG@),
                Some(path) => match c.response {
                    None => Err(menuopts::NO_RESPONSE_MSG@),
                    Some(contents) => Ok((path, contents)),
                },
            },
        }
    }

    /// The session after its command has run and given `response`: the
    /// response is recorded in the session and in the command.
    pub open spec fn with_run(self, response: Seq<char>) -> AppValue {
        AppValue {
            response: Some(response),
            command: match self.command {
                Some(c) => Some(c.with_response(response)),
                None => None,
            },
            ..self
        }
    }

    /// The session as it starts: on the home screen, with nothing chosen, no
    /// command, and the store not opened.
    pub open spec fn initial() -> AppValue {
        AppValue {
            running: true,
            cursor: 0,
            current_screen: ScreenValue::Home,
            screen_stack: seq![ScreenValue::Home],
            command: None,
            selected: None,
            opts: Seq::empty(),
            input: Seq::empty(),
            messages: Seq::empty(),
            input_mode: InputMode::Normal,
            items: ScreenValue::Home.menu(),
            state: None,
            response: None,
            storage_open: false,
        }
    }

    /// The screen on top of the stack is the one that is shown.
    pub open spec fn navigation_ok(self) -> bool {
        self.screen_stack.len() > 0 ==> self.screen_stack.last() == self.current_screen
    }

    /// The cursor stands on an entry, or at 0 where there is none.
    pub open spec fn cursor_ok(self) -> bool {
        if self.items.len() == 0 {
            self.cursor == 0
        } else {
            self.cursor < self.items.len()
        }
    }

    /// A screen with fixed entries has them as its entries, or none yet.
    pub open spec fn items_ok(self) -> bool {
        self.current_screen.item_source() == ItemSource::Fixed ==> self.items
            == self.current_screen.menu() || self.items.len() == 0
    }

    /// The invariant of the session: the screen on top of the stack is the
    /// one that is shown, the cursor stands on an entry, the entries are
    /// those of the screen, and no kind of option that does not accumulate
    /// is chosen twice.
    pub open spec fn well_formed(self) -> bool {
        &&& self.navigation_ok()
        &&& self.cursor_ok()
        &&& self.items_ok()
        &&& at_most_once(self.opts)
    }

    /// The session after the text in the text field is handed in: it waits
    /// last among the typed texts, and the field is empty.
    pub open spec fn input_submitted(self) -> AppValue {
        AppValue { messages: self.messages.push(self.input), input: Seq::empty(), ..self }
    }

    /// The session after the list reports its highlighted entry: that entry
    /// is confirmed; where the list reports none, what was confirmed stays.
    pub open spec fn confirmed(self) -> AppValue {
        AppValue {
            selected: match self.state {
                Some(Some(entry)) => Some(entry),
                _ => self.selected,
            },
            ..self
        }
    }

    /// The session after the store gave the entries of the current screen,
    /// or failed: a screen that lists what the store holds has what the
    /// store gave as its entries, none if it failed, and the cursor on the
    /// first; a screen with fixed entries stays as it is.
    pub open spec fn with_saved_items(self, fetched: Option<Seq<Seq<char>>>) -> AppValue {
        if self.current_screen.item_source() == ItemSource::Fixed {
            self
        } else {
            AppValue {
                items: match fetched {
                    Some(rows) => rows,
                    None => Seq::empty(),
                },
                cursor: 0,
                ..self
            }
        }
    }

    /// The session after going to a screen: the screen is on top of the stack
    /// and shown, with its own entries, the cursor on the first and nothing
    /// confirmed. A screen that builds a command brings an empty command of
    /// its family where the session has none.
    pub open spec fn goto(self, screen: ScreenValue) -> AppValue {
        AppValue {
            screen_stack: self.screen_stack.push(screen),
            current_screen: screen,
            cursor: 0,
            selected: None,
            items: screen.menu(),
            command: match self.command {
                Some(c) => Some(c),
                None => match screen.family() {
                    Some(family) => Some(CommandValue::empty(family)),
                    None => None,
                },
            },
            ..self
        }
    }

    /// The session after going back: the top of the stack is taken off. If a
    /// screen is left below, it is shown; and unless the screen taken off
    /// was a prompt, the cursor returns to the first of its entries and
    /// nothing is confirmed. With nothing below, or nothing to take off,
    /// the rest of the session stays.
    pub open spec fn back(self) -> AppValue {
        if self.screen_stack.len() == 0 {
            self
        } else if self.screen_stack.len() == 1 {
            AppValue { screen_stack: self.screen_stack.drop_last(), ..self }
        } else if self.screen_stack.last().is_prompt() {
            AppValue {
                screen_stack: self.screen_stack.drop_last(),
                current_screen: self.screen_stack.drop_last().last(),
                ..self
            }
        } else {
            AppValue {
                screen_stack: self.screen_stack.drop_last(),
                current_screen: self.screen_stack.drop_last().last(),
                cursor: 0,
                selected: None,
                items: self.screen_stack.drop_last().last().menu(),
                ..self
            }
        }
    }

    /// The session after the cursor moves down one entry, which it does
    /// unless it stands on the last or there is none.
    pub open spec fn cursor_down(self) -> AppValue {
        if self.items.len() == 0 || self.cursor >= self.items.len() - 1 {
            self
        } else {
            AppValue { cursor: (self.cursor + 1) as usize, ..self }
        }
    }

    /// The session after the cursor moves up one entry, which it does unless
    /// it stands on the first or there is none.
    pub open spec fn cursor_up(self) -> AppValue {
        if self.items.len() == 0 || self.cursor == 0 {
            self
        } else {
            AppValue { cursor: (self.cursor - 1) as usize, ..self }
        }
    }
}

/// Whatever is done with a session keeps its invariant: going to a screen
/// and going back, moving the cursor, confirming an entry, handing in a
/// text, choosing an option or operating a switch, taking options out, and
/// taking up what the store gave.
pub proof fn lemma_invariant_kept(
    app: AppValue,
    screen: ScreenValue,
    o: OptionValue,
    kind: OptionKind,
    fetched: Option<Seq<Seq<char>>>,
)
    requires
        app.well_formed(),
    ensures
        AppValue::initial().well_formed(),
        app.goto(screen).well_formed(),
        app.back().well_formed(),
        app.cursor_down().well_formed(),
        app.cursor_up().well_formed(),
        app.confirmed().well_formed(),
        app.input_submitted().well_formed(),
        app.with_option(o).well_formed(),
        app.toggled(o).well_formed(),
        app.without_option(kind).well_formed(),
        app.with_saved_items(fetched).well_formed(),
        app.with_run(Seq::empty()).well_formed(),
{
    lemma_merged_keeps_at_most_once(app.opts, o);
    lemma_without_keeps_at_most_once(app.opts, kind);
}

/// An address chosen after another: the set then shows exactly one address,
/// the later one, at the place where the earlier one stood, and the command
/// has the later address.
pub proof fn lemma_address_chosen_again(app: AppValue, earlier: Seq<char>, later: Seq<char>)
    requires
        app.well_formed(),
        app.command is Some,
    ensures
        ({
            let first = app.with_option(OptionValue::URL(earlier));
            let second = first.with_option(OptionValue::URL(later));
            let place = first_of_kind(first.opts, OptionKind::URL);
            &&& is_first_of_kind(first.opts, OptionKind::URL, place)
            &&& first.opts[place] == OptionValue::URL(earlier)
            &&& second.opts == first.opts.update(place, OptionValue::URL(later))
            &&& count_kind(second.opts, OptionKind::URL) == 1
            &&& second.command->0.url() == later
            &&& second.well_formed()
        }),
{
    lemma_replaced_when_chosen_again(app.opts, OptionValue::URL(earlier), OptionValue::URL(later));
    lemma_merged_keeps_at_most_once(app.opts, OptionValue::URL(earlier));
    lemma_merged_keeps_at_most_once(
        merged(app.opts, OptionValue::URL(earlier)),
        OptionValue::URL(later),
    );
}

/// Two headers chosen one after the other: the set shows both at its end,
/// in the order in which they were chosen, and a transfer has their two
/// lines after the lines that it had, in the same order.
pub proof fn lemma_headers_chosen_in_order(
    app: AppValue,
    first: (Seq<char>, Seq<char>),
    second: (Seq<char>, Seq<char>),
)
    requires
        app.command is Some,
    ensures
        ({
            let h1 = OptionValue::Headers(first.0, first.1);
            let h2 = OptionValue::Headers(second.0, second.1);
            let after = app.with_option(h1).with_option(h2);
            &&& after.opts == app.opts.push(h1).push(h2)
            &&& count_kind(after.opts, OptionKind::Headers) == count_kind(
                app.opts,
                OptionKind::Headers,
            ) + 2
            &&& app.command->0 is Curl ==> after.command->0.headers()
                == app.command->0.headers().push(header_line(first.0, first.1)).push(
                header_line(second.0, second.1),
            )
        }),
{
    let h1 = OptionValue::Headers(first.0, first.1);
    let h2 = OptionValue::Headers(second.0, second.1);
    lemma_accumulated_in_order(app.opts, h1, h2);
    if app.command->0 is Curl {
        let after = app.with_option(h1).with_option(h2);
        assert(after.command->0.headers() =~= app.command->0.headers().push(
            header_line(first.0, first.1),
        ).push(header_line(second.0, second.1)));
    }
}

/// The switch that keeps the command, operated twice: the command is kept
/// or not as it was before, and the set shows the switch once at most after
/// either time. This holds of a session in which the switch is shown as
/// chosen exactly if the command is to be kept.
pub proof fn lemma_save_command_toggled_twice(app: AppValue)
    requires
        app.well_formed(),
        app.command is Some,
        app.command->0.family() == CmdType::Curl ==> app.command->0.will_store_command()
            == has_kind(app.opts, OptionKind::SaveCommand),
    ensures
        ({
            let once = app.toggled(OptionValue::SaveCommand);
            let twice = once.toggled(OptionValue::SaveCommand);
            &&& twice.command == app.command
            &&& twice.command->0.will_store_command() == app.command->0.will_store_command()
            &&& once.command->0.family() == CmdType::Curl ==> once.command->0.will_store_command()
                == !app.command->0.will_store_command()
            &&& has_kind(twice.opts, OptionKind::SaveCommand) == has_kind(
                app.opts,
                OptionKind::SaveCommand,
            )
            &&& count_kind(once.opts, OptionKind::SaveCommand) <= 1
            &&& count_kind(twice.opts, OptionKind::SaveCommand) <= 1
        }),
{
    lemma_toggled_twice(app.opts, OptionValue::SaveCommand);
}

/// The switch that keeps the credentials, operated twice, leaves the
/// command as it was.
pub proof fn lemma_save_token_toggled_twice(app: AppValue)
    requires
        app.command is Some,
    ensures
        app.toggled(OptionValue::SaveToken).toggled(OptionValue::SaveToken).command == app.command,
{
}

/// Going back from a prompt shows the screen from which the prompt was gone
/// to, with the stack as it was before, the prompt itself left out.
pub proof fn lemma_back_from_prompt(app: AppValue, prompt: InputOpt)
    requires
        app.navigation_ok(),
        app.screen_stack.len() >= 1,
    ensures
        app.goto(ScreenValue::InputMenu(prompt)).back().current_screen == app.current_screen,
        app.goto(ScreenValue::InputMenu(prompt)).back().screen_stack == app.screen_stack,
{
    let there = app.goto(ScreenValue::InputMenu(prompt));
    assert(there.screen_stack.drop_last() =~= app.screen_stack);
}

/// Going back while a prompt is shown, with a screen below it on the stack,
/// shows that screen, and changes neither the cursor nor what is confirmed
/// nor the entries.
pub proof fn lemma_back_while_prompt_shown(app: AppValue)
    requires
        app.navigation_ok(),
        app.screen_stack.len() >= 2,
        app.current_screen.is_prompt(),
    ensures
        app.back() == (AppValue {
            current_screen: app.screen_stack[app.screen_stack.len() - 2],
            screen_stack: app.screen_stack.drop_last(),
            ..app
        }),
{
}

/// The cursor never leaves the entries: moved down or up from an entry it
/// stands on an entry, and with no entries it stays at 0.
pub proof fn lemma_cursor_stays_on_entries(app: AppValue)
    requires
        app.cursor_ok(),
    ensures
        app.cursor_down().cursor_ok(),
        app.cursor_up().cursor_ok(),
        app.items.len() > 0 ==> app.cursor_down().cursor < app.items.len()
            && app.cursor_up().cursor < app.items.len(),
        app.items.len() == 0 ==> app.cursor_down().cursor == 0 && app.cursor_up().cursor == 0,
{
}

impl Default for App {
    /// A session as it starts.
    fn default() -> (r: Self)
        ensures
            r@ == AppValue::initial(),
            r@.well_formed(),
    {
        App::new()
    }
}

impl App {
    /// A session as it starts.
    pub fn new() -> (r: Self)
        ensures
            r@ == AppValue::initial(),
            r@.well_formed(),
    {
        let home = Screen::Home;
        let mut screen_stack: Vec<Screen> = Vec::new();
        screen_stack.push(Screen::Home);
        let r = App {
            running: true,
            cursor: 0,
            items: home.get_opts(),
            current_screen: home,
            screen_stack,
            command: None,
            selected: None,
            opts: Vec::new(),
            input: Input::default(),
            messages: Vec::new(),
            input_mode: InputMode::Normal,
            state: None,
            response: None,
            storage_open: false,
        };
        assert(r@.screen_stack =~= seq![ScreenValue::Home]);
        assert(r@.opts =~= Seq::empty());
        assert(r@.messages =~= Seq::empty());
        r
    }

    /// Puts a command in the place of the one that the session has, if any.
    pub fn set_command(&mut self, command: Command)
        ensures
            final(self)@ == (AppValue { command: Some(command@), ..old(self)@ }),
            old(self)@.well_formed() ==> final(self)@.well_formed(),
    {
        self.command = Some(command);
    }

    /// Sets the address of the command, where there is a command.
    pub fn set_url(&mut self, url: String)
        ensures
            final(self)@ == (AppValue {
                command: match old(self)@.command {
                    Some(c) => Some(c.with_url(url@)),
                    None => None,
                },
                ..old(self)@
            }),
            old(self)@.well_formed() ==> final(self)@.well_formed(),
    {
        match &mut self.command {
            Some(cmd) => {
                cmd.set_url(url);
            },
            None => {},
        }
    }

    /// Whether the command has a way to authenticate.
    pub fn has_auth(&self) -> (r: bool)
        requires
            self@.command is Some,
        ensures
            r == self@.command->0.has_auth(),
    {
        match &self.command {
            Some(cmd) => cmd.has_auth(),
            None => false,
        }
    }

    /// One beat of the clock, which changes nothing.
    pub fn tick(&self) {
    }

    /// Goes to a screen, and says where the entries of that screen come
    /// from: those that the store holds are handed in afterwards.
    pub fn goto_screen(&mut self, screen: Screen) -> (source: ItemSource)
        ensures
            final(self)@ == old(self)@.goto(screen@),
            source == screen@.item_source(),
            final(self)@.navigation_ok(),
            final(self)@.cursor_ok(),
            old(self)@.well_formed() ==> final(self)@.well_formed(),
    {
        if self.command.is_none() {
            match screen.family() {
                Some(family) => {
                    self.command = Some(Command::new(family));
                },
                None => {},
            }
        }
        let source = screen.item_source();
        let ghost before = self.screen_stack@;
        self.screen_stack.push(screen.clone());
        proof {
            lemma_deep_view_push(before, self.screen_stack, screen);
        }
        self.items = screen.get_opts();
        self.current_screen = screen;
        self.cursor = 0;
        self.selected = None;
        source
    }

    /// Goes back one screen.
    pub fn go_back_screen(&mut self)
        ensures
            final(self)@ == old(self)@.back(),
            old(self)@.well_formed() ==> final(self)@.well_formed(),
    {
        match self.screen_stack.pop() {
            Some(left) => {
                assert(self.screen_stack.deep_view() =~= old(self).screen_stack.deep_view().drop_last());
                assert(left@ == old(self).screen_stack.deep_view().last());
                let n = self.screen_stack.len();
                if n > 0 {
                    let shown = self.screen_stack[n - 1].clone();
                    assert(shown@ == self.screen_stack.deep_view().last());
                    if !left.is_prompt() {
                        self.cursor = 0;
                        self.selected = None;
                        self.items = shown.get_opts();
                    }
                    self.current_screen = shown;
                }
            },
            None => {},
        }
    }

    /// Ends the session.
    pub fn quit(&mut self)
        ensures
            final(self)@ == (AppValue { running: false, ..old(self)@ }),
            old(self)@.well_formed() ==> final(self)@.well_formed(),
    {
        self.running = false;
    }

    /// Moves the cursor down one entry; it never leaves the entries.
    pub fn move_cursor_down(&mut self)
        ensures
            final(self)@ == old(self)@.cursor_down(),
            old(self)@.cursor_ok() ==> final(self)@.cursor_ok(),
            old(self)@.well_formed() ==> final(self)@.well_formed(),
    {
        if self.items.len() == 0 || self.cursor >= self.items.len() - 1 {
            return ;
        }
        self.cursor = self.cursor + 1;
    }

    /// Moves the cursor up one entry; it never leaves the entries.
    pub fn move_cursor_up(&mut self)
        ensures
            final(self)@ == old(self)@.cursor_up(),
            old(self)@.cursor_ok() ==> final(self)@.cursor_ok(),
            old(self)@.well_formed() ==> final(self)@.well_formed(),
    {
        if self.items.len() == 0 {
            return ;
        }
        if self.cursor > 0 {
            self.cursor = self.cursor - 1;
        }
    }

    /// Confirms the entry that the list state has as highlighted; where it
    /// has none, what was confirmed stays.
    pub fn select_item(&mut self)
        requires
            old(self)@.state is Some,
        ensures
            final(self)@ == old(self)@.confirmed(),
            old(self)@.well_formed() ==> final(self)@.well_formed(),
    {
        match &self.state {
            Some(state) => {
                match state.selected() {
                    Some(selected) => {
                        self.selected = Some(selected);
                    },
                    None => {},
                }
            },
            None => {},
        }
    }

    /// Hands in the text that the text field holds: it joins the typed texts
    /// that wait to be taken up, and the field is emptied.
    pub fn submit_input(&mut self)
        ensures
            final(self)@ == old(self)@.input_submitted(),
            old(self)@.well_formed() ==> final(self)@.well_formed(),
    {
        let text = String::from_str(self.input.value());
        let ghost before = self.messages@;
        self.messages.push(text);
        proof {
            lemma_deep_view_push(before, self.messages, text);
        }
        self.input.reset();
    }

    /// Whether an option of the kind of `opt` is shown as chosen, whatever
    /// it holds.
    pub fn has_display_option(&self, opt: &AppOptions) -> (r: bool)
        ensures
            r == has_kind(self@.opts, opt@.kind()),
    {
        contains_kind(&self.opts, opt.kind())
    }

    /// Whether a newly chosen option is added at the end of the set rather
    /// than put in the place of one that is there: a kind that accumulates
    /// always is, any other kind only where the set holds none of it.
    pub fn should_add_option(&self, opt: &AppOptions) -> (r: bool)
        ensures
            r == (opt@.kind().policy() == MergePolicy::Accumulate || !has_kind(
                self@.opts,
                opt@.kind(),
            )),
    {
        match opt.kind().policy() {
            MergePolicy::Accumulate => true,
            _ => !self.has_display_option(opt),
        }
    }

    /// Whether the option is a switch.
    pub fn should_toggle(&self, opt: &AppOptions) -> (r: bool)
        ensures
            r == (opt@.kind().policy() == MergePolicy::Toggle),
    {
        match opt.kind().policy() {
            MergePolicy::Toggle => true,
            _ => false,
        }
    }

    /// Chooses how the command authenticates.
    pub fn set_auth(&mut self, auth: AuthKind)
        requires
            old(self)@.command is Some,
        ensures
            final(self)@ == old(self)@.with_auth(auth@),
            old(self)@.well_formed() ==> final(self)@.well_formed(),
    {
        match &mut self.command {
            Some(cmd) => {
                cmd.set_auth(auth);
            },
            None => {},
        }
    }

    /// Sets the output file of the command.
    pub fn set_outfile(&mut self, path: &str)
        requires
            old(self)@.command is Some,
        ensures
            final(self)@ == old(self)@.with_outfile(path@),
            old(self)@.well_formed() ==> final(self)@.well_formed(),
    {
        match &mut self.command {
            Some(cmd) => {
                cmd.set_outfile(path);
            },
            None => {},
        }
    }

    /// Takes every option of the kind of `opt` out of the set.
    pub fn remove_display_option(&mut self, opt: &AppOptions)
        ensures
            final(self)@ == old(self)@.without_option(opt@.kind()),
            old(self)@.well_formed() ==> final(self)@.well_formed(),
    {
        remove_kind(&mut self.opts, opt.kind());
        proof {
            if old(self)@.well_formed() {
                lemma_without_keeps_at_most_once(old(self)@.opts, opt@.kind());
            }
        }
    }

    /// Empties the set of options.
    pub fn remove_all_display_options(&mut self)
        ensures
            final(self)@ == (AppValue { opts: Seq::empty(), ..old(self)@ }),
            old(self)@.well_formed() ==> final(self)@.well_formed(),
    {
        self.opts.clear();
        assert(self.opts.deep_view() =~= Seq::empty());
    }

    /// Records what came back from a run, in the session and in the command
    /// where there is one.
    pub fn set_response(&mut self, response: String)
        ensures
            final(self)@ == (AppValue {
                response: Some(response@),
                command: match old(self)@.command {
                    Some(c) => Some(c.with_response(response@)),
                    None => None,
                },
                ..old(self)@
            }),
            old(self)@.well_formed() ==> final(self)@.well_formed(),
    {
        match &mut self.command {
            Some(cmd) => {
                cmd.set_response(response.as_str());
            },
            None => {},
        }
        self.response = Some(response);
    }

    /// Operates a switch: the command is switched, and the option enters the
    /// set if it was not shown as chosen and leaves it if it was. An option
    /// that is no switch changes nothing.
    pub fn toggle_display_option(&mut self, opt: AppOptions)
        requires
            opt@.kind().policy() == MergePolicy::Toggle ==> old(self)@.command is Some,
        ensures
            final(self)@ == old(self)@.toggled(opt@),
            old(self)@.well_formed() ==> final(self)@.well_formed(),
    {
        let kind = opt.kind();
        match kind.policy() {
            MergePolicy::Toggle => {},
            _ => {
                return ;
            },
        }
        let shown = contains_kind(&self.opts, kind);
        match &mut self.command {
            Some(cmd) => {
                match kind {
                    OptionKind::Verbose => cmd.set_verbose(!shown),
                    OptionKind::SaveCommand => cmd.save_command(!shown),
                    _ => cmd.save_token(),
                }
            },
            None => {},
        }
        if shown {
            remove_kind(&mut self.opts, kind);
        } else {
            let ghost before = self.opts@;
            self.opts.push(opt);
            proof {
                lemma_deep_view_push(before, self.opts, opt);
            }
        }
        proof {
            if old(self)@.well_formed() {
                lemma_merged_keeps_at_most_once(old(self)@.opts, opt@);
            }
        }
    }

    /// Chooses an option: it is merged into the set by the policy of its
    /// kind, and the command follows.
    pub fn add_display_option(&mut self, opt: AppOptions)
        requires
            opt@.kind().touches_command() ==> old(self)@.command is Some,
        ensures
            final(self)@ == old(self)@.with_option(opt@),
            old(self)@.well_formed() ==> final(self)@.well_formed(),
    {
        if self.should_toggle(&opt) {
            self.toggle_display_option(opt);
            return ;
        }
        match &mut self.command {
            Some(cmd) => {
                match &opt {
                    AppOptions::Headers(h) => {
                        let line = format_header(h.0.as_str(), h.1.as_str());
                        let mut lines: Vec<String> = Vec::new();
                        lines.push(line);
                        assert(lines.deep_view() =~= seq![header_line(h.0@, h.1@)]);
                        cmd.add_headers(lines);
                    },
                    AppOptions::URL(url) => {
                        cmd.set_url(url.clone());
                    },
                    AppOptions::Outfile(path) => {
                        cmd.set_outfile(path.as_str());
                    },
                    _ => {},
                }
            },
            None => {},
        }
        if self.should_add_option(&opt) {
            let ghost before = self.opts@;
            self.opts.push(opt);
            proof {
                lemma_deep_view_push(before, self.opts, opt);
            }
        } else {
            match position_of_kind(&self.opts, opt.kind()) {
                Some(i) => {
                    proof {
                        lemma_first_of_kind_unique(self.opts.deep_view(), opt@.kind(), i as int);
                    }
                    self.opts[i] = opt;
                    assert(self.opts.deep_view() =~= old(self).opts.deep_view().update(
                        i as int,
                        opt@,
                    ));
                },
                None => {},
            }
        }
        proof {
            if old(self)@.well_formed() {
                lemma_merged_keeps_at_most_once(old(self)@.opts, opt@);
            }
        }
    }

    /// Whether the store has to be opened before it is read or written.
    pub fn needs_storage(&self) -> (r: bool)
        ensures
            r == !self@.storage_open,
    {
        !self.storage_open
    }

    /// Records that the store was opened. A failed attempt is not recorded,
    /// so that the next use of the store opens it again.
    pub fn storage_opened(&mut self)
        ensures
            final(self)@ == (AppValue { storage_open: true, ..old(self)@ }),
            old(self)@.well_formed() ==> final(self)@.well_formed(),
    {
        self.storage_open = true;
    }

    /// Takes up the entries that the store gave for the current screen, or
    /// that it failed.
    pub fn set_saved_items(&mut self, fetched: Result<Vec<String>, String>)
        ensures
            final(self)@ == old(self)@.with_saved_items(
                match fetched {
                    Ok(rows) => Some(rows.deep_view()),
                    Err(_) => None,
                },
            ),
            old(self)@.well_formed() ==> final(self)@.well_formed(),
    {
        match self.current_screen.item_source() {
            ItemSource::Fixed => {
                return ;
            },
            _ => {},
        }
        match fetched {
            Ok(rows) => {
                self.items = rows;
            },
            Err(_) => {
                self.items = Vec::new();
                assert(self.items.deep_view() =~= Seq::empty());
            },
        }
        self.cursor = 0;
    }

    /// The arguments with which the command is run; none without a command.
    pub fn run_args(&self) -> (r: Vec<String>)
        ensures
            r.deep_view() == self@.run_args(),
    {
        match &self.command {
            Some(cmd) => {
                let mut args = args_of_options(cmd.family(), &self.opts);
                let mut own = cmd.args();
                let ghost first = args@;
                let ghost second = own@;
                args.append(&mut own);
                proof {
                    lemma_deep_view_append(first, second, args);
                }
                args
            },
            None => {
                let args: Vec<String> = Vec::new();
                assert(args.deep_view() =~= Seq::empty());
                args
            },
        }
    }

    /// The command as it is run, as one line of text: the program, then its
    /// arguments.
    pub fn get_command_string(&self) -> (r: String)
        ensures
            r@ == self@.run_line(),
    {
        match &self.command {
            Some(cmd) => {
                let args = self.run_args();
                match cmd {
                    Command::Curl(_) => join_command_line(CURL_PROGRAM, &args),
                    Command::Wget(_) => join_command_line(WGET_PROGRAM, &args),
                }
            },
            None => String::new(),
        }
    }

    /// What has to be done to run the command, where there is one: the
    /// program, and the arguments with which the command is run. The store
    /// is opened first only if the command is to be kept and the store is
    /// not open yet.
    pub fn execution_plan(&self) -> (r: Option<ExecutionPlan>)
        ensures
            match self@.command {
                None => r is None,
                Some(c) => {
                    &&& r is Some
                    &&& r->0.family == c.family()
                    &&& r->0.program@ == c.program()
                    &&& r->0.args.deep_view() == self@.run_args()
                    &&& r->0.store_command == c.will_store_command()
                    &&& r->0.store_token == c.will_store_token()
                    &&& r->0.open_storage == (c.will_store_command() && !self@.storage_open)
                },
            },
    {
        match &self.command {
            Some(cmd) => {
                let store_command = cmd.will_store_command();
                let store_token = match cmd {
                    Command::Curl(c) => c.save_token,
                    Command::Wget(_) => false,
                };
                let program = match cmd {
                    Command::Curl(_) => String::from_str(CURL_PROGRAM),
                    Command::Wget(_) => String::from_str(WGET_PROGRAM),
                };
                Some(
                    ExecutionPlan {
                        family: cmd.family(),
                        program,
                        args: self.run_args(),
                        open_storage: store_command && !self.storage_open,
                        store_command,
                        store_token,
                    },
                )
            },
            None => None,
        }
    }

    /// Takes up how the run of the command ended. A run that succeeded hands
    /// in what came back: it is recorded in the session and in the command,
    /// and returned. A run that failed hands in the text of its error, which
    /// is returned as the error, and the session stays as it was.
    pub fn execute_command(&mut self, outcome: Result<String, String>) -> (r: Result<
        String,
        String,
    >)
        requires
            old(self)@.command is Some,
        ensures
            match outcome {
                Ok(response) => r is Ok && r->Ok_0@ == response@ && final(self)@ == old(
                    self,
                )@.with_run(response@),
                Err(e) => r is Err && r->Err_0@ == e@ && final(self)@ == old(self)@,
            },
            old(self)@.well_formed() ==> final(self)@.well_formed(),
    {
        match outcome {
            Ok(response) => {
                self.set_response(response.clone());
                Ok(response)
            },
            Err(e) => Err(e),
        }
    }

    /// Answers a request to write the captured response to its file: with
    /// the file and what goes into it, or with the reason why nothing is
    /// written.
    pub fn write_response(&self) -> (r: Result<WriteJob, String>)
        ensures
            match self@.write_job() {
                Ok(job) => r is Ok && r->Ok_0.path@ == job.0 && r->Ok_0.contents@ == job.1,
                Err(reason) => r is Err && r->Err_0@ == reason,
            },
    {
        match &self.command {
            None => Err(String::from_str(menuopts::NO_COMMAND_MSG)),
            Some(Command::Wget(_)) => Err(String::from_str(menuopts::DOWNLOAD_OUTPUT_MSG)),
            Some(Command::Curl(c)) => match &c.outfile {
                None => Err(String::from_str(menuopts::NO_OUTFILE_MSG)),
                Some(path) => match &c.response {
                    None => Err(String::from_str(menuopts::NO_RESPONSE_MSG)),
                    Some(contents) => Ok(
                        WriteJob { path: path.clone(), contents: contents.clone() },
                    ),
                },
            },
        }
    }

    /// The headers of the captured response, as they are shown. `parsed` is
    /// what the reading of the response gave, if it could be read. Where
    /// there is no response, or it could not be read, a fixed text says that
    /// no headers were found.
    pub fn get_response_headers(&self, parsed: Option<String>) -> (r: String)
        ensures
            r@ == if self@.response is Some && parsed is Some {
                parsed->0@
            } else {
                menuopts::NO_HEADERS_MSG@
            },
    {
        if self.response.is_none() {
            return String::from_str(menuopts::NO_HEADERS_MSG);
        }
        match parsed {
            Some(headers) => headers,
            None => String::from_str(menuopts::NO_HEADERS_MSG),
        }
    }
}

} // verus!
