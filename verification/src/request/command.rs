//! The command of a session: a transfer or a download.

use crate::request::cmdtype::CmdType;
use crate::request::curl::{
    command_line, join_command_line, AuthKind, Curl, CurlValue, CURL_PROGRAM,
};
use crate::request::wget::{Wget, WgetValue, WGET_PROGRAM};
use vstd::prelude::*;

verus! {

/// The command that a session builds and runs.
#[derive(Debug, PartialEq, Eq)]
pub enum Command {
    Curl(Curl),
    Wget(Wget),
}

/// A command as a value.
pub enum CommandValue {
    Curl(CurlValue),
    Wget(WgetValue),
}

impl View for Command {
    type V = CommandValue;

    open spec fn view(&self) -> CommandValue {
        match self {
            Command::Curl(c) => CommandValue::Curl(c@),
            Command::Wget(w) => CommandValue::Wget(w@),
        }
    }
}

impl DeepView for Command {
    type V = CommandValue;

    open spec fn deep_view(&self) -> CommandValue {
        self@
    }
}

impl CommandValue {
    /// A command of the given family for which nothing is chosen yet.
    pub open spec fn empty(family: CmdType) -> CommandValue {
        match family {
            CmdType::Curl => CommandValue::Curl(CurlValue::empty()),
            CmdType::Wget => CommandValue::Wget(WgetValue::empty()),
        }
    }

    pub open spec fn family(self) -> CmdType {
        match self {
            CommandValue::Curl(_) => CmdType::Curl,
            CommandValue::Wget(_) => CmdType::Wget,
        }
    }

    pub open spec fn url(self) -> Seq<char> {
        match self {
            CommandValue::Curl(c) => c.url,
            CommandValue::Wget(w) => w.url,
        }
    }

    pub open spec fn outfile(self) -> Option<Seq<char>> {
        match self {
            CommandValue::Curl(c) => c.outfile,
            CommandValue::Wget(w) => w.outfile,
        }
    }

    pub open spec fn response(self) -> Option<Seq<char>> {
        match self {
            CommandValue::Curl(c) => c.response,
            CommandValue::Wget(w) => w.response,
        }
    }

    /// The header lines of a transfer; a download has none.
    pub open spec fn headers(self) -> Seq<Seq<char>> {
        match self {
            CommandValue::Curl(c) => c.headers,
            CommandValue::Wget(_) => Seq::empty(),
        }
    }

    /// Whether the command is to be kept in the store when it runs; a
    /// download never is.
    pub open spec fn will_store_command(self) -> bool {
        match self {
            CommandValue::Curl(c) => c.save_command,
            CommandValue::Wget(_) => false,
        }
    }

    /// Whether the credentials are to be kept in the store; a download has
    /// none.
    pub open spec fn will_store_token(self) -> bool {
        match self {
            CommandValue::Curl(c) => c.save_token,
            CommandValue::Wget(_) => false,
        }
    }

    /// Whether the transfer reports in detail; a download does not.
    pub open spec fn verbose(self) -> bool {
        match self {
            CommandValue::Curl(c) => c.verbose,
            CommandValue::Wget(_) => false,
        }
    }

    /// Whether a way to authenticate is chosen; for a download none can be.
    pub open spec fn has_auth(self) -> bool {
        match self {
            CommandValue::Curl(c) => !(c.auth is NoAuth),
            CommandValue::Wget(_) => false,
        }
    }

    pub open spec fn with_url(self, url: Seq<char>) -> CommandValue {
        match self {
            CommandValue::Curl(c) => CommandValue::Curl(CurlValue { url, ..c }),
            CommandValue::Wget(w) => CommandValue::Wget(WgetValue { url, ..w }),
        }
    }

    pub open spec fn with_outfile(self, path: Seq<char>) -> CommandValue {
        match self {
            CommandValue::Curl(c) => CommandValue::Curl(CurlValue { outfile: Some(path), ..c }),
            CommandValue::Wget(w) => CommandValue::Wget(WgetValue { outfile: Some(path), ..w }),
        }
    }

    pub open spec fn with_response(self, response: Seq<char>) -> CommandValue {
        match self {
            CommandValue::Curl(c) => CommandValue::Curl(
                CurlValue { response: Some(response), ..c },
            ),
            CommandValue::Wget(w) => CommandValue::Wget(
                WgetValue { response: Some(response), ..w },
            ),
        }
    }

    /// The command with more header lines; a download takes none.
    pub open spec fn with_headers(self, added: Seq<Seq<char>>) -> CommandValue {
        match self {
            CommandValue::Curl(c) => CommandValue::Curl(
                CurlValue { headers: c.headers + added, ..c },
            ),
            CommandValue::Wget(_) => self,
        }
    }

    /// The command with a way to authenticate; a download takes none.
    pub open spec fn with_auth(self, auth: crate::request::curl::AuthValue) -> CommandValue {
        match self {
            CommandValue::Curl(c) => CommandValue::Curl(CurlValue { auth, ..c }),
            CommandValue::Wget(_) => self,
        }
    }

    pub open spec fn with_verbose(self, on: bool) -> CommandValue {
        match self {
            CommandValue::Curl(c) => CommandValue::Curl(CurlValue { verbose: on, ..c }),
            CommandValue::Wget(_) => self,
        }
    }

    pub open spec fn with_save_command(self, on: bool) -> CommandValue {
        match self {
            CommandValue::Curl(c) => CommandValue::Curl(CurlValue { save_command: on, ..c }),
            CommandValue::Wget(_) => self,
        }
    }

    pub open spec fn with_save_token(self, on: bool) -> CommandValue {
        match self {
            CommandValue::Curl(c) => CommandValue::Curl(CurlValue { save_token: on, ..c }),
            CommandValue::Wget(_) => self,
        }
    }

    /// The name of the program that runs the command.
    pub open spec fn program(self) -> Seq<char> {
        match self {
            CommandValue::Curl(_) => CURL_PROGRAM@,
            CommandValue::Wget(_) => WGET_PROGRAM@,
        }
    }

    /// The arguments of the command.
    pub open spec fn args(self) -> Seq<Seq<char>> {
        match self {
            CommandValue::Curl(c) => c.args(),
            CommandValue::Wget(w) => w.args(),
        }
    }
}

impl Clone for Command {
    fn clone(&self) -> (r: Self)
        ensures
            r@ == self@,
    {
        match self {
            Command::Curl(c) => Command::Curl(c.clone()),
            Command::Wget(w) => Command::Wget(w.clone()),
        }
    }
}

impl Command {
    /// A command of the given family for which nothing is chosen yet.
    pub fn new(family: CmdType) -> (r: Self)
        ensures
            r@ == CommandValue::empty(family),
    {
        match family {
            CmdType::Curl => Command::Curl(Curl::new()),
            CmdType::Wget => Command::Wget(Wget::new()),
        }
    }

    pub fn family(&self) -> (r: CmdType)
        ensures
            r == self@.family(),
    {
        match self {
            Command::Curl(_) => CmdType::Curl,
            Command::Wget(_) => CmdType::Wget,
        }
    }

    pub fn set_url(&mut self, url: String)
        ensures
            final(self)@ == old(self)@.with_url(url@),
    {
        match self {
            Command::Curl(c) => c.set_url(url),
            Command::Wget(w) => w.set_url(url),
        }
    }

    pub fn set_outfile(&mut self, path: &str)
        ensures
            final(self)@ == old(self)@.with_outfile(path@),
    {
        match self {
            Command::Curl(c) => c.set_outfile(path),
            Command::Wget(w) => w.set_outfile(path),
        }
    }

    /// Adds header lines to a transfer; a download takes none.
    pub fn add_headers(&mut self, headers: Vec<String>)
        ensures
            final(self)@ == old(self)@.with_headers(headers.deep_view()),
    {
        match self {
            Command::Curl(c) => c.add_headers(headers),
            Command::Wget(_) => {},
        }
    }

    /// Chooses how a transfer authenticates; a download takes no choice.
    pub fn set_auth(&mut self, auth: AuthKind)
        ensures
            final(self)@ == old(self)@.with_auth(auth@),
    {
        match self {
            Command::Curl(c) => c.set_auth(auth),
            Command::Wget(_) => {},
        }
    }

    pub fn set_verbose(&mut self, on: bool)
        ensures
            final(self)@ == old(self)@.with_verbose(on),
    {
        match self {
            Command::Curl(c) => c.set_verbose(on),
            Command::Wget(_) => {},
        }
    }

    /// Says whether a transfer is to be kept in the store when it runs.
    pub fn save_command(&mut self, on: bool)
        ensures
            final(self)@ == old(self)@.with_save_command(on),
    {
        match self {
            Command::Curl(c) => c.save_command(on),
            Command::Wget(_) => {},
        }
    }

    /// Switches the keeping of a transfer's credentials.
    pub fn save_token(&mut self)
        ensures
            final(self)@ == old(self)@.with_save_token(!old(self)@.will_store_token()),
    {
        match self {
            Command::Curl(c) => c.save_token(),
            Command::Wget(_) => {},
        }
    }

    pub fn will_store_command(&self) -> (r: bool)
        ensures
            r == self@.will_store_command(),
    {
        match self {
            Command::Curl(c) => c.will_store_command(),
            Command::Wget(_) => false,
        }
    }

    pub fn has_auth(&self) -> (r: bool)
        ensures
            r == self@.has_auth(),
    {
        match self {
            Command::Curl(c) => c.has_auth(),
            Command::Wget(_) => false,
        }
    }

    /// Records what came back from a run.
    pub fn set_response(&mut self, response: &str)
        ensures
            final(self)@ == old(self)@.with_response(response@),
    {
        match self {
            Command::Curl(c) => c.set_response(response),
            Command::Wget(w) => w.set_response(response),
        }
    }

    /// What came back from the last run, if anything.
    pub fn get_response(&self) -> (r: Option<String>)
        ensures
            r.deep_view() == self@.response(),
    {
        match self {
            Command::Curl(c) => c.get_response(),
            Command::Wget(w) => w.get_response(),
        }
    }

    /// The arguments that the program is run with.
    pub fn args(&self) -> (r: Vec<String>)
        ensures
            r.deep_view() == self@.args(),
    {
        match self {
            Command::Curl(c) => c.args(),
            Command::Wget(w) => w.args(),
        }
    }

    /// The command as one line of text: the program, then its arguments.
    pub fn get_command_string(&self) -> (r: String)
        ensures
            r@ == command_line(self@.program(), self@.args()),
    {
        match self {
            Command::Curl(c) => c.get_command_string(),
            Command::Wget(w) => {
                let args = w.args();
                join_command_line(WGET_PROGRAM, &args)
            },
        }
    }
}

} // verus!
