//! What an input screen asks for.

use crate::request::cmdtype::CmdType;
use crate::screens::auth::AuthType;
use vstd::prelude::*;

verus! {

/// What the text typed on an input screen is meant to be.
#[derive(Debug, Clone, Copy, PartialEq, Eq, Structural)]
pub enum InputOpt {
    /// The address of the command, for a command of the given family.
    URL(CmdType),
    Headers,
    Output,
    RecursiveDownload,
    /// The credentials for the given way to authenticate.
    Auth(AuthType),
    /// The file that the captured response is written to.
    Execute,
    /// A key to keep in the store.
    ApiKey,
    UnixSocket,
    UserAgent,
    MaxRedirects,
    Cookie,
    Referrer,
    CaPath,
}

} // verus!
