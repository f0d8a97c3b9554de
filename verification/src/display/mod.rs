//! The options that a session shows as chosen.

pub mod inputopt;
pub mod menuopts;
pub mod optionset;

use crate::text::{
    decimal_digits, format_header, header_line, header_parts, join_text, parse_usize,
    parse_usize_spec, split_header, usize_to_string, NumberError,
};
use vstd::prelude::*;
use vstd::string::StringExecFns;

verus! {

/// What becomes of an option that is chosen again.
#[derive(Debug, Clone, Copy, PartialEq, Eq, Structural)]
pub enum MergePolicy {
    /// Choosing the option switches it on when it is off and off when it is on.
    Toggle,
    /// Every choice is kept, in the order in which it was made.
    Accumulate,
    /// The latest choice takes the place of the earlier one.
    Replace,
}

/// The kind of an option: what it is, whatever it holds.
#[derive(Debug, Clone, Copy, PartialEq, Eq, Structural)]
pub enum OptionKind {
    Verbose,
    Headers,
    URL,
    Outfile,
    SaveCommand,
    Response,
    RecDownload,
    Auth,
    SaveToken,
    UnixSocket,
    FollowRedirects,
    Cookie,
    EnableHeaders,
    ProgressBar,
    FailOnError,
    ProxyTunnel,
    CaPath,
    CertInfo,
    UserAgent,
    Referrer,
    MatchWildcard,
    TcpKeepAlive,
    UnrestrictedAuth,
    MaxRedirects,
    UploadFile,
    RequestBody,
}

impl OptionKind {
    /// The table of merge policies: three switches, one kind that
    /// accumulates, and replacement for all the others.
    pub open spec fn spec_policy(self) -> MergePolicy {
        match self {
            OptionKind::Verbose | OptionKind::SaveCommand | OptionKind::SaveToken => {
                MergePolicy::Toggle
            },
            OptionKind::Headers => MergePolicy::Accumulate,
            _ => MergePolicy::Replace,
        }
    }

    /// Whether choosing an option of this kind changes the command: the
    /// switches, the headers, the address and the output file do.
    pub open spec fn spec_touches_command(self) -> bool {
        match self {
            OptionKind::Verbose
            | OptionKind::SaveCommand
            | OptionKind::SaveToken
            | OptionKind::Headers
            | OptionKind::URL
            | OptionKind::Outfile => true,
            _ => false,
        }
    }

    /// Whether choosing an option of this kind changes the command.
    #[verifier::when_used_as_spec(spec_touches_command)]
    pub fn touches_command(self) -> (r: bool)
        ensures
            r == self.spec_touches_command(),
    {
        match self {
            OptionKind::Verbose
            | OptionKind::SaveCommand
            | OptionKind::SaveToken
            | OptionKind::Headers
            | OptionKind::URL
            | OptionKind::Outfile => true,
            _ => false,
        }
    }

    /// The merge policy of this kind.
    #[verifier::when_used_as_spec(spec_policy)]
    pub fn policy(self) -> (p: MergePolicy)
        ensures
            p == self.spec_policy(),
    {
        match self {
            OptionKind::Verbose | OptionKind::SaveCommand | OptionKind::SaveToken => {
                MergePolicy::Toggle
            },
            OptionKind::Headers => MergePolicy::Accumulate,
            _ => MergePolicy::Replace,
        }
    }
}

/// An option that the session shows as chosen, with what was chosen for it.
#[derive(Debug, PartialEq, Eq)]
pub enum AppOptions {
    Verbose,
    /// A header, as its field name and its field value.
    Headers((String, String)),
    URL(String),
    Outfile(String),
    SaveCommand,
    Response(String),
    RecDownload(usize),
    Auth(String),
    SaveToken,
    UnixSocket(String),
    FollowRedirects,
    Cookie(String),
    EnableHeaders,
    ProgressBar,
    FailOnError,
    ProxyTunnel,
    CaPath(String),
    CertInfo,
    UserAgent(String),
    Referrer(String),
    MatchWildcard,
    TcpKeepAlive,
    UnrestrictedAuth,
    MaxRedirects(usize),
    UploadFile(String),
    RequestBody(String),
}

/// An option as a value: its kind and, as plain text or number, what it holds.
pub enum OptionValue {
    Verbose,
    Headers(Seq<char>, Seq<char>),
    URL(Seq<char>),
    Outfile(Seq<char>),
    SaveCommand,
    Response(Seq<char>),
    RecDownload(usize),
    Auth(Seq<char>),
    SaveToken,
    UnixSocket(Seq<char>),
    FollowRedirects,
    Cookie(Seq<char>),
    EnableHeaders,
    ProgressBar,
    FailOnError,
    ProxyTunnel,
    CaPath(Seq<char>),
    CertInfo,
    UserAgent(Seq<char>),
    Referrer(Seq<char>),
    MatchWildcard,
    TcpKeepAlive,
    UnrestrictedAuth,
    MaxRedirects(usize),
    UploadFile(Seq<char>),
    RequestBody(Seq<char>),
}

impl View for AppOptions {
    type V = OptionValue;

    open spec fn view(&self) -> OptionValue {
        match self {
            AppOptions::Verbose => OptionValue::Verbose,
            AppOptions::Headers(h) => OptionValue::Headers(h.0@, h.1@),
            AppOptions::URL(s) => OptionValue::URL(s@),
            AppOptions::Outfile(s) => OptionValue::Outfile(s@),
            AppOptions::SaveCommand => OptionValue::SaveCommand,
            AppOptions::Response(s) => OptionValue::Response(s@),
            AppOptions::RecDownload(n) => OptionValue::RecDownload(*n),
            AppOptions::Auth(s) => OptionValue::Auth(s@),
            AppOptions::SaveToken => OptionValue::SaveToken,
            AppOptions::UnixSocket(s) => OptionValue::UnixSocket(s@),
            AppOptions::FollowRedirects => OptionValue::FollowRedirects,
            AppOptions::Cookie(s) => OptionValue::Cookie(s@),
            AppOptions::EnableHeaders => OptionValue::EnableHeaders,
            AppOptions::ProgressBar => OptionValue::ProgressBar,
            AppOptions::FailOnError => OptionValue::FailOnError,
            AppOptions::ProxyTunnel => OptionValue::ProxyTunnel,
            AppOptions::CaPath(s) => OptionValue::CaPath(s@),
            AppOptions::CertInfo => OptionValue::CertInfo,
            AppOptions::UserAgent(s) => OptionValue::UserAgent(s@),
            AppOptions::Referrer(s) => OptionValue::Referrer(s@),
            AppOptions::MatchWildcard => OptionValue::MatchWildcard,
            AppOptions::TcpKeepAlive => OptionValue::TcpKeepAlive,
            AppOptions::UnrestrictedAuth => OptionValue::UnrestrictedAuth,
            AppOptions::MaxRedirects(n) => OptionValue::MaxRedirects(*n),
            AppOptions::UploadFile(s) => OptionValue::UploadFile(s@),
            AppOptions::RequestBody(s) => OptionValue::RequestBody(s@),
        }
    }
}

impl DeepView for AppOptions {
    type V = OptionValue;

    open spec fn deep_view(&self) -> OptionValue {
        self@
    }
}

impl OptionValue {
    /// The kind of the option.
    pub open spec fn kind(self) -> OptionKind {
        match self {
            OptionValue::Verbose => OptionKind::Verbose,
            OptionValue::Headers(_, _) => OptionKind::Headers,
            OptionValue::URL(_) => OptionKind::URL,
            OptionValue::Outfile(_) => OptionKind::Outfile,
            OptionValue::SaveCommand => OptionKind::SaveCommand,
            OptionValue::Response(_) => OptionKind::Response,
            OptionValue::RecDownload(_) => OptionKind::RecDownload,
            OptionValue::Auth(_) => OptionKind::Auth,
            OptionValue::SaveToken => OptionKind::SaveToken,
            OptionValue::UnixSocket(_) => OptionKind::UnixSocket,
            OptionValue::FollowRedirects => OptionKind::FollowRedirects,
            OptionValue::Cookie(_) => OptionKind::Cookie,
            OptionValue::EnableHeaders => OptionKind::EnableHeaders,
            OptionValue::ProgressBar => OptionKind::ProgressBar,
            OptionValue::FailOnError => OptionKind::FailOnError,
            OptionValue::ProxyTunnel => OptionKind::ProxyTunnel,
            OptionValue::CaPath(_) => OptionKind::CaPath,
            OptionValue::CertInfo => OptionKind::CertInfo,
            OptionValue::UserAgent(_) => OptionKind::UserAgent,
            OptionValue::Referrer(_) => OptionKind::Referrer,
            OptionValue::MatchWildcard => OptionKind::MatchWildcard,
            OptionValue::TcpKeepAlive => OptionKind::TcpKeepAlive,
            OptionValue::UnrestrictedAuth => OptionKind::UnrestrictedAuth,
            OptionValue::MaxRedirects(_) => OptionKind::MaxRedirects,
            OptionValue::UploadFile(_) => OptionKind::UploadFile,
            OptionValue::RequestBody(_) => OptionKind::RequestBody,
        }
    }

    /// The line that shows the option in the list of what is chosen: the
    /// label of its kind, followed by what it holds. A captured response is
    /// shown as it is.
    pub open spec fn display_text(self) -> Seq<char> {
        match self {
            OptionValue::Verbose => menuopts::DISPLAY_OPT_VERBOSE@,
            OptionValue::Headers(name, value) => {
                menuopts::DISPLAY_OPT_HEADERS@ + header_line(name, value)
            },
            OptionValue::URL(s) => menuopts::DISPLAY_OPT_URL@ + s,
            OptionValue::Outfile(s) => menuopts::DISPLAY_OPT_OUTFILE@ + s,
            OptionValue::SaveCommand => menuopts::DISPLAY_OPT_COMMAND_SAVED@,
            OptionValue::Response(s) => s,
            OptionValue::RecDownload(n) => menuopts::DISPLAY_OPT_MAX_REC@ + decimal_digits(n as nat),
            OptionValue::Auth(s) => menuopts::DISPLAY_OPT_AUTH@ + s,
            OptionValue::SaveToken => menuopts::DISPLAY_OPT_TOKEN_SAVED@,
            OptionValue::UnixSocket(s) => menuopts::DISPLAY_OPT_UNIX_SOCKET@ + s,
            OptionValue::FollowRedirects => menuopts::DISPLAY_OPT_FOLLOW_REDIRECTS@,
            OptionValue::Cookie(s) => menuopts::DISPLAY_OPT_COOKIE@ + s,
            OptionValue::EnableHeaders => menuopts::DISPLAY_OPT_HEADERS@,
            OptionValue::ProgressBar => menuopts::DISPLAY_OPT_PROGRESS_BAR@,
            OptionValue::FailOnError => menuopts::DISPLAY_OPT_FAIL_ON_ERROR@,
            OptionValue::ProxyTunnel => menuopts::DISPLAY_OPT_PROXY_TUNNEL@,
            OptionValue::CaPath(s) => menuopts::DISPLAY_OPT_CA_PATH@ + s,
            OptionValue::CertInfo => menuopts::DISPLAY_OPT_CERT_INFO@,
            OptionValue::UserAgent(s) => menuopts::DISPLAY_OPT_USERAGENT@ + s,
            OptionValue::Referrer(s) => menuopts::DISPLAY_OPT_REFERRER@ + s,
            OptionValue::MatchWildcard => menuopts::DISPLAY_OPT_MATCH_WILDCARD@,
            OptionValue::TcpKeepAlive => menuopts::DISPLAY_OPT_TCP_KEEPALIVE@,
            OptionValue::UnrestrictedAuth => {
                menuopts::DISPLAY_OPT_UNRESTRICTED_AUTH@ + menuopts::DISPLAY_OPT_UNRESTRICTED_AUTH_MARK@
            },
            OptionValue::MaxRedirects(n) => menuopts::DISPLAY_OPT_MAX_REDIRECTS@ + decimal_digits(n as nat),
            OptionValue::UploadFile(s) => menuopts::DISPLAY_OPT_UPLOAD@ + s,
            OptionValue::RequestBody(s) => menuopts::DISPLAY_OPT_BODY@ + s,
        }
    }

    /// The option with what it holds taken from a typed text: a text is taken
    /// as it is, a header is split at its first `:`, a number is read as a
    /// decimal number and refused if it is none. An option that holds nothing
    /// stays as it is.
    pub open spec fn with_payload(self, val: Seq<char>) -> Result<OptionValue, NumberError> {
        match self {
            OptionValue::Headers(_, _) => Ok(OptionValue::Headers(header_parts(val).0, header_parts(val).1)),
            OptionValue::URL(_) => Ok(OptionValue::URL(val)),
            OptionValue::Outfile(_) => Ok(OptionValue::Outfile(val)),
            OptionValue::Response(_) => Ok(OptionValue::Response(val)),
            OptionValue::RecDownload(_) => match parse_usize_spec(val) {
                Ok(n) => Ok(OptionValue::RecDownload(n)),
                Err(e) => Err(e),
            },
            OptionValue::Auth(_) => Ok(OptionValue::Auth(val)),
            OptionValue::UnixSocket(_) => Ok(OptionValue::UnixSocket(val)),
            OptionValue::Cookie(_) => Ok(OptionValue::Cookie(val)),
            OptionValue::CaPath(_) => Ok(OptionValue::CaPath(val)),
            OptionValue::UserAgent(_) => Ok(OptionValue::UserAgent(val)),
            OptionValue::Referrer(_) => Ok(OptionValue::Referrer(val)),
            OptionValue::MaxRedirects(_) => match parse_usize_spec(val) {
                Ok(n) => Ok(OptionValue::MaxRedirects(n)),
                Err(e) => Err(e),
            },
            OptionValue::UploadFile(_) => Ok(OptionValue::UploadFile(val)),
            OptionValue::RequestBody(_) => Ok(OptionValue::RequestBody(val)),
            _ => Ok(self),
        }
    }
}

impl Clone for AppOptions {
    fn clone(&self) -> (r: Self)
        ensures
            r == *self,
    {
        match self {
            AppOptions::Verbose => AppOptions::Verbose,
            AppOptions::Headers(h) => AppOptions::Headers((h.0.clone(), h.1.clone())),
            AppOptions::URL(s) => AppOptions::URL(s.clone()),
            AppOptions::Outfile(s) => AppOptions::Outfile(s.clone()),
            AppOptions::SaveCommand => AppOptions::SaveCommand,
            AppOptions::Response(s) => AppOptions::Response(s.clone()),
            AppOptions::RecDownload(n) => AppOptions::RecDownload(*n),
            AppOptions::Auth(s) => AppOptions::Auth(s.clone()),
            AppOptions::SaveToken => AppOptions::SaveToken,
            AppOptions::UnixSocket(s) => AppOptions::UnixSocket(s.clone()),
            AppOptions::FollowRedirects => AppOptions::FollowRedirects,
            AppOptions::Cookie(s) => AppOptions::Cookie(s.clone()),
            AppOptions::EnableHeaders => AppOptions::EnableHeaders,
            AppOptions::ProgressBar => AppOptions::ProgressBar,
            AppOptions::FailOnError => AppOptions::FailOnError,
            AppOptions::ProxyTunnel => AppOptions::ProxyTunnel,
            AppOptions::CaPath(s) => AppOptions::CaPath(s.clone()),
            AppOptions::CertInfo => AppOptions::CertInfo,
            AppOptions::UserAgent(s) => AppOptions::UserAgent(s.clone()),
            AppOptions::Referrer(s) => AppOptions::Referrer(s.clone()),
            AppOptions::MatchWildcard => AppOptions::MatchWildcard,
            AppOptions::TcpKeepAlive => AppOptions::TcpKeepAlive,
            AppOptions::UnrestrictedAuth => AppOptions::UnrestrictedAuth,
            AppOptions::MaxRedirects(n) => AppOptions::MaxRedirects(*n),
            AppOptions::UploadFile(s) => AppOptions::UploadFile(s.clone()),
            AppOptions::RequestBody(s) => AppOptions::RequestBody(s.clone()),
        }
    }
}

impl AppOptions {
    /// The kind of the option.
    pub fn kind(&self) -> (k: OptionKind)
        ensures
            k == self@.kind(),
    {
        match self {
            AppOptions::Verbose => OptionKind::Verbose,
            AppOptions::Headers(_) => OptionKind::Headers,
            AppOptions::URL(_) => OptionKind::URL,
            AppOptions::Outfile(_) => OptionKind::Outfile,
            AppOptions::SaveCommand => OptionKind::SaveCommand,
            AppOptions::Response(_) => OptionKind::Response,
            AppOptions::RecDownload(_) => OptionKind::RecDownload,
            AppOptions::Auth(_) => OptionKind::Auth,
            AppOptions::SaveToken => OptionKind::SaveToken,
            AppOptions::UnixSocket(_) => OptionKind::UnixSocket,
            AppOptions::FollowRedirects => OptionKind::FollowRedirects,
            AppOptions::Cookie(_) => OptionKind::Cookie,
            AppOptions::EnableHeaders => OptionKind::EnableHeaders,
            AppOptions::ProgressBar => OptionKind::ProgressBar,
            AppOptions::FailOnError => OptionKind::FailOnError,
            AppOptions::ProxyTunnel => OptionKind::ProxyTunnel,
            AppOptions::CaPath(_) => OptionKind::CaPath,
            AppOptions::CertInfo => OptionKind::CertInfo,
            AppOptions::UserAgent(_) => OptionKind::UserAgent,
            AppOptions::Referrer(_) => OptionKind::Referrer,
            AppOptions::MatchWildcard => OptionKind::MatchWildcard,
            AppOptions::TcpKeepAlive => OptionKind::TcpKeepAlive,
            AppOptions::UnrestrictedAuth => OptionKind::UnrestrictedAuth,
            AppOptions::MaxRedirects(_) => OptionKind::MaxRedirects,
            AppOptions::UploadFile(_) => OptionKind::UploadFile,
            AppOptions::RequestBody(_) => OptionKind::RequestBody,
        }
    }

    /// Puts a typed text in the place of what the option holds. A number that
    /// cannot be read is reported, and the option stays as it was.
    pub fn replace_value(&mut self, val: String) -> (r: Result<(), NumberError>)
        ensures
            match old(self)@.with_payload(val@) {
                Ok(v) => r is Ok && final(self)@ == v,
                Err(e) => r == Err::<(), NumberError>(e) && final(self)@ == old(self)@,
            },
    {
        match self {
            AppOptions::Headers(h) => {
                *h = split_header(val.as_str());
                Ok(())
            },
            AppOptions::URL(s) => {
                *s = val;
                Ok(())
            },
            AppOptions::Outfile(s) => {
                *s = val;
                Ok(())
            },
            AppOptions::Response(s) => {
                *s = val;
                Ok(())
            },
            AppOptions::RecDownload(n) => match parse_usize(val.as_str()) {
                Ok(number) => {
                    *n = number;
                    Ok(())
                },
                Err(e) => Err(e),
            },
            AppOptions::Auth(s) => {
                *s = val;
                Ok(())
            },
            AppOptions::UnixSocket(s) => {
                *s = val;
                Ok(())
            },
            AppOptions::Cookie(s) => {
                *s = val;
                Ok(())
            },
            AppOptions::CaPath(s) => {
                *s = val;
                Ok(())
            },
            AppOptions::UserAgent(s) => {
                *s = val;
                Ok(())
            },
            AppOptions::Referrer(s) => {
                *s = val;
                Ok(())
            },
            AppOptions::MaxRedirects(n) => match parse_usize(val.as_str()) {
                Ok(number) => {
                    *n = number;
                    Ok(())
                },
                Err(e) => Err(e),
            },
            AppOptions::UploadFile(s) => {
                *s = val;
                Ok(())
            },
            AppOptions::RequestBody(s) => {
                *s = val;
                Ok(())
            },
            _ => Ok(()),
        }
    }

    /// The line that shows the option in the list of what is chosen.
    pub fn get_value(&self) -> (r: String)
        ensures
            r@ == self@.display_text(),
    {
        match self {
            AppOptions::Verbose => String::from_str(menuopts::DISPLAY_OPT_VERBOSE),
            AppOptions::Headers(h) => {
                let line = format_header(h.0.as_str(), h.1.as_str());
                join_text(menuopts::DISPLAY_OPT_HEADERS, line.as_str())
            },
            AppOptions::URL(s) => join_text(menuopts::DISPLAY_OPT_URL, s.as_str()),
            AppOptions::Outfile(s) => join_text(menuopts::DISPLAY_OPT_OUTFILE, s.as_str()),
            AppOptions::SaveCommand => String::from_str(menuopts::DISPLAY_OPT_COMMAND_SAVED),
            AppOptions::Response(s) => s.clone(),
            AppOptions::RecDownload(n) => {
                let digits = usize_to_string(*n);
                join_text(menuopts::DISPLAY_OPT_MAX_REC, digits.as_str())
            },
            AppOptions::Auth(s) => join_text(menuopts::DISPLAY_OPT_AUTH, s.as_str()),
            AppOptions::SaveToken => String::from_str(menuopts::DISPLAY_OPT_TOKEN_SAVED),
            AppOptions::UnixSocket(s) => join_text(menuopts::DISPLAY_OPT_UNIX_SOCKET, s.as_str()),
            AppOptions::FollowRedirects => String::from_str(menuopts::DISPLAY_OPT_FOLLOW_REDIRECTS),
            AppOptions::Cookie(s) => join_text(menuopts::DISPLAY_OPT_COOKIE, s.as_str()),
            AppOptions::EnableHeaders => String::from_str(menuopts::DISPLAY_OPT_HEADERS),
            AppOptions::ProgressBar => String::from_str(menuopts::DISPLAY_OPT_PROGRESS_BAR),
            AppOptions::FailOnError => String::from_str(menuopts::DISPLAY_OPT_FAIL_ON_ERROR),
            AppOptions::ProxyTunnel => String::from_str(menuopts::DISPLAY_OPT_PROXY_TUNNEL),
            AppOptions::CaPath(s) => join_text(menuopts::DISPLAY_OPT_CA_PATH, s.as_str()),
            AppOptions::CertInfo => String::from_str(menuopts::DISPLAY_OPT_CERT_INFO),
            AppOptions::UserAgent(s) => join_text(menuopts::DISPLAY_OPT_USERAGENT, s.as_str()),
            AppOptions::Referrer(s) => join_text(menuopts::DISPLAY_OPT_REFERRER, s.as_str()),
            AppOptions::MatchWildcard => String::from_str(menuopts::DISPLAY_OPT_MATCH_WILDCARD),
            AppOptions::TcpKeepAlive => String::from_str(menuopts::DISPLAY_OPT_TCP_KEEPALIVE),
            AppOptions::UnrestrictedAuth => join_text(
                menuopts::DISPLAY_OPT_UNRESTRICTED_AUTH,
                menuopts::DISPLAY_OPT_UNRESTRICTED_AUTH_MARK,
            ),
            AppOptions::MaxRedirects(n) => {
                let digits = usize_to_string(*n);
                join_text(menuopts::DISPLAY_OPT_MAX_REDIRECTS, digits.as_str())
            },
            AppOptions::UploadFile(s) => join_text(menuopts::DISPLAY_OPT_UPLOAD, s.as_str()),
            AppOptions::RequestBody(s) => join_text(menuopts::DISPLAY_OPT_BODY, s.as_str()),
        }
    }
}

} // verus!
