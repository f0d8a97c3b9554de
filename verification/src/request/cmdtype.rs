//! The two families of commands.

use vstd::prelude::*;
use vstd::string::StringExecFns;

verus! {

pub const CMD_NAME_CURL: &'static str = "HTTP Request";

pub const CMD_NAME_WGET: &'static str = "Download";

/// The family of a command: a transfer or a download.
#[derive(Debug, Clone, Copy, PartialEq, Eq, Structural)]
pub enum CmdType {
    Curl,
    Wget,
}

impl CmdType {
    /// The name of the family in prompts.
    pub open spec fn name(self) -> Seq<char> {
        match self {
            CmdType::Curl => CMD_NAME_CURL@,
            CmdType::Wget => CMD_NAME_WGET@,
        }
    }

    /// The name of the family in prompts.
    pub fn to_string(&self) -> (r: String)
        ensures
            r@ == self.name(),
    {
        match self {
            CmdType::Curl => String::from_str(CMD_NAME_CURL),
            CmdType::Wget => String::from_str(CMD_NAME_WGET),
        }
    }
}

} // verus!
