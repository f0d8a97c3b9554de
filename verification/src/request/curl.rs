//! The record of a transfer command.

use crate::text::join_text;
use crate::vectors::lemma_deep_view_push;
use vstd::prelude::*;
use vstd::string::StringExecFns;

verus! {

pub const CURL_PROGRAM: &'static str = "curl";

pub const CURL_ARG_VERBOSE: &'static str = "-v";

pub const CURL_ARG_HEADER: &'static str = "-H";

pub const CURL_ARG_USER: &'static str = "-u";

pub const CURL_ARG_DIGEST: &'static str = "--digest";

pub const CURL_ARG_AWS_SIGV4: &'static str = "--aws-sigv4";

pub const CURL_AWS_PROVIDER: &'static str = "aws:amz";

pub const CURL_ARG_NEGOTIATE: &'static str = "--negotiate";

pub const CURL_ARG_NTLM: &'static str = "--ntlm";

pub const CURL_EMPTY_USER: &'static str = ":";

pub const CURL_ARG_OUTPUT: &'static str = "-o";

pub const CURL_BEARER_PREFIX: &'static str = "Authorization: Bearer ";

/// How a transfer authenticates, with the credentials where it needs any.
#[derive(Debug, PartialEq, Eq)]
pub enum AuthKind {
    /// No authentication.
    NoAuth,
    Basic(String),
    Bearer(String),
    Digest(String),
    AwsSigv4,
    Spnego,
    Ntlm,
}

/// A way to authenticate as a value.
pub enum AuthValue {
    NoAuth,
    Basic(Seq<char>),
    Bearer(Seq<char>),
    Digest(Seq<char>),
    AwsSigv4,
    Spnego,
    Ntlm,
}

impl View for AuthKind {
    type V = AuthValue;

    open spec fn view(&self) -> AuthValue {
        match self {
            AuthKind::NoAuth => AuthValue::NoAuth,
            AuthKind::Basic(s) => AuthValue::Basic(s@),
            AuthKind::Bearer(s) => AuthValue::Bearer(s@),
            AuthKind::Digest(s) => AuthValue::Digest(s@),
            AuthKind::AwsSigv4 => AuthValue::AwsSigv4,
            AuthKind::Spnego => AuthValue::Spnego,
            AuthKind::Ntlm => AuthValue::Ntlm,
        }
    }
}

impl Clone for AuthKind {
    fn clone(&self) -> (r: Self)
        ensures
            r == *self,
    {
        match self {
            AuthKind::NoAuth => AuthKind::NoAuth,
            AuthKind::Basic(s) => AuthKind::Basic(s.clone()),
            AuthKind::Bearer(s) => AuthKind::Bearer(s.clone()),
            AuthKind::Digest(s) => AuthKind::Digest(s.clone()),
            AuthKind::AwsSigv4 => AuthKind::AwsSigv4,
            AuthKind::Spnego => AuthKind::Spnego,
            AuthKind::Ntlm => AuthKind::Ntlm,
        }
    }
}

impl AuthValue {
    /// The arguments that make the transfer authenticate in this way.
    pub open spec fn args(self) -> Seq<Seq<char>> {
        match self {
            AuthValue::NoAuth => Seq::empty(),
            AuthValue::Basic(c) => seq![CURL_ARG_USER@, c],
            AuthValue::Bearer(t) => seq![CURL_ARG_HEADER@, CURL_BEARER_PREFIX@ + t],
            AuthValue::Digest(c) => seq![CURL_ARG_DIGEST@, CURL_ARG_USER@, c],
            AuthValue::AwsSigv4 => seq![CURL_ARG_AWS_SIGV4@, CURL_AWS_PROVIDER@],
            AuthValue::Spnego => seq![CURL_ARG_NEGOTIATE@, CURL_ARG_USER@, CURL_EMPTY_USER@],
            AuthValue::Ntlm => seq![CURL_ARG_NTLM@, CURL_ARG_USER@, CURL_EMPTY_USER@],
        }
    }
}

/// The arguments that send the given header lines, in their order.
pub open spec fn header_args(headers: Seq<Seq<char>>) -> Seq<Seq<char>>
    decreases headers.len(),
{
    if headers.len() == 0 {
        Seq::empty()
    } else {
        header_args(headers.drop_last()) + seq![CURL_ARG_HEADER@, headers.last()]
    }
}

/// A program name followed by its arguments, one space before each.
pub open spec fn command_line(program: Seq<char>, args: Seq<Seq<char>>) -> Seq<char>
    decreases args.len(),
{
    if args.len() == 0 {
        program
    } else {
        command_line(program, args.drop_last()) + seq![' '] + args.last()
    }
}

/// Writes a program name and its arguments as one line.
pub fn join_command_line(program: &str, args: &Vec<String>) -> (r: String)
    ensures
        r@ == command_line(program@, args.deep_view()),
{
    let mut line = String::from_str(program);
    let mut i: usize = 0;
    while i < args.len()
        invariant
            i <= args.len(),
            line@ == command_line(program@, args.deep_view().take(i as int)),
        decreases args.len() - i,
    {
        proof {
            reveal_strlit(" ");
            assert(args.deep_view().take(i + 1).drop_last() =~= args.deep_view().take(i as int));
            assert(" "@ =~= seq![' ']);
        }
        line.append(" ");
        line.append(args[i].as_str());
        i = i + 1;
    }
    assert(args.deep_view().take(i as int) =~= args.deep_view());
    line
}

/// A transfer command: what was chosen for it so far, and what came back
/// when it last ran.
#[derive(Debug, PartialEq, Eq)]
pub struct Curl {
    pub url: String,
    /// The header lines, each as `name:value`, in the order of their choice.
    pub headers: Vec<String>,
    pub outfile: Option<String>,
    pub auth: AuthKind,
    pub verbose: bool,
    /// Whether the command is to be kept in the store when it runs.
    pub save_command: bool,
    /// Whether the credentials are to be kept in the store when it runs.
    pub save_token: bool,
    pub response: Option<String>,
}

/// A transfer command as a value.
pub struct CurlValue {
    pub url: Seq<char>,
    pub headers: Seq<Seq<char>>,
    pub outfile: Option<Seq<char>>,
    pub auth: AuthValue,
    pub verbose: bool,
    pub save_command: bool,
    pub save_token: bool,
    pub response: Option<Seq<char>>,
}

impl View for Curl {
    type V = CurlValue;

    open spec fn view(&self) -> CurlValue {
        CurlValue {
            url: self.url@,
            headers: self.headers.deep_view(),
            outfile: self.outfile.deep_view(),
            auth: self.auth@,
            verbose: self.verbose,
            save_command: self.save_command,
            save_token: self.save_token,
            response: self.response.deep_view(),
        }
    }
}

impl CurlValue {
    /// A transfer command for which nothing is chosen yet.
    pub open spec fn empty() -> CurlValue {
        CurlValue {
            url: Seq::empty(),
            headers: Seq::empty(),
            outfile: None,
            auth: AuthValue::NoAuth,
            verbose: false,
            save_command: false,
            save_token: false,
            response: None,
        }
    }

    /// The arguments of the command: verbosity, the headers, the
    /// authentication, the output file, and the address last.
    pub open spec fn args(self) -> Seq<Seq<char>> {
        (if self.verbose {
            seq![CURL_ARG_VERBOSE@]
        } else {
            Seq::empty()
        }) + header_args(self.headers) + self.auth.args() + (match self.outfile {
            Some(path) => seq![CURL_ARG_OUTPUT@, path],
            None => Seq::empty(),
        }) + seq![self.url]
    }
}

impl Clone for Curl {
    fn clone(&self) -> (r: Self)
        ensures
            r@ == self@,
    {
        let mut headers: Vec<String> = Vec::new();
        let mut i: usize = 0;
        while i < self.headers.len()
            invariant
                i <= self.headers.len(),
                headers.deep_view() == self.headers.deep_view().take(i as int),
            decreases self.headers.len() - i,
        {
            let ghost before = headers@;
            headers.push(self.headers[i].clone());
            proof {
                lemma_deep_view_push(before, headers, self.headers[i as int]);
            }
            assert(headers.deep_view() =~= self.headers.deep_view().take(i + 1));
            i = i + 1;
        }
        assert(self.headers.deep_view().take(i as int) =~= self.headers.deep_view());
        Curl {
            url: self.url.clone(),
            headers,
            outfile: self.outfile.clone(),
            auth: self.auth.clone(),
            verbose: self.verbose,
            save_command: self.save_command,
            save_token: self.save_token,
            response: self.response.clone(),
        }
    }
}

impl Curl {
    /// A transfer command for which nothing is chosen yet.
    pub fn new() -> (r: Self)
        ensures
            r@ == CurlValue::empty(),
    {
        let r = Curl {
            url: String::new(),
            headers: Vec::new(),
            outfile: None,
            auth: AuthKind::NoAuth,
            verbose: false,
            save_command: false,
            save_token: false,
            response: None,
        };
        assert(r.headers.deep_view() =~= Seq::empty());
        r
    }

    pub fn set_url(&mut self, url: String)
        ensures
            final(self)@ == (CurlValue { url: url@, ..old(self)@ }),
    {
        self.url = url;
    }

    /// Adds header lines after those that the command has.
    pub fn add_headers(&mut self, headers: Vec<String>)
        ensures
            final(self)@ == (CurlValue {
                headers: old(self)@.headers + headers.deep_view(),
                ..old(self)@
            }),
    {
        let mut headers = headers;
        let ghost added = headers.deep_view();
        self.headers.append(&mut headers);
        assert(self.headers.deep_view() =~= old(self).headers.deep_view() + added);
    }

    pub fn set_outfile(&mut self, path: &str)
        ensures
            final(self)@ == (CurlValue { outfile: Some(path@), ..old(self)@ }),
    {
        self.outfile = Some(String::from_str(path));
    }

    pub fn set_auth(&mut self, auth: AuthKind)
        ensures
            final(self)@ == (CurlValue { auth: auth@, ..old(self)@ }),
    {
        self.auth = auth;
    }

    pub fn set_verbose(&mut self, on: bool)
        ensures
            final(self)@ == (CurlValue { verbose: on, ..old(self)@ }),
    {
        self.verbose = on;
    }

    /// Says whether the command is to be kept in the store when it runs.
    pub fn save_command(&mut self, on: bool)
        ensures
            final(self)@ == (CurlValue { save_command: on, ..old(self)@ }),
    {
        self.save_command = on;
    }

    /// Switches the keeping of the credentials: on when it was off, off when
    /// it was on.
    pub fn save_token(&mut self)
        ensures
            final(self)@ == (CurlValue { save_token: !old(self)@.save_token, ..old(self)@ }),
    {
        self.save_token = !self.save_token;
    }

    /// Whether the command is to be kept in the store when it runs.
    pub fn will_store_command(&self) -> (r: bool)
        ensures
            r == self@.save_command,
    {
        self.save_command
    }

    /// Whether a way to authenticate is chosen.
    pub fn has_auth(&self) -> (r: bool)
        ensures
            r == !(self@.auth is NoAuth),
    {
        match self.auth {
            AuthKind::NoAuth => false,
            _ => true,
        }
    }

    /// Records what came back from a run.
    pub fn set_response(&mut self, response: &str)
        ensures
            final(self)@ == (CurlValue { response: Some(response@), ..old(self)@ }),
    {
        self.response = Some(String::from_str(response));
    }

    /// What came back from the last run, if anything.
    pub fn get_response(&self) -> (r: Option<String>)
        ensures
            r.deep_view() == self@.response,
    {
        self.response.clone()
    }

    /// The arguments of the command.
    pub fn args(&self) -> (r: Vec<String>)
        ensures
            r.deep_view() == self@.args(),
    {
        let mut r: Vec<String> = Vec::new();
        if self.verbose {
            r.push(String::from_str(CURL_ARG_VERBOSE));
        }
        let ghost before = r.deep_view();
        assert(before =~= if self.verbose {
            seq![CURL_ARG_VERBOSE@]
        } else {
            Seq::empty()
        });
        let mut i: usize = 0;
        while i < self.headers.len()
            invariant
                i <= self.headers.len(),
                r.deep_view() == before + header_args(self.headers.deep_view().take(i as int)),
            decreases self.headers.len() - i,
        {
            proof {
                assert(self.headers.deep_view().take(i + 1).drop_last()
                    =~= self.headers.deep_view().take(i as int));
            }
            let flag = String::from_str(CURL_ARG_HEADER);
            let ghost r0 = r@;
            r.push(flag);
            let ghost r1 = r@;
            proof {
                lemma_deep_view_push(r0, r, flag);
            }
            r.push(self.headers[i].clone());
            proof {
                lemma_deep_view_push(r1, r, self.headers[i as int]);
            }
            assert(r.deep_view() =~= before + header_args(self.headers.deep_view().take(i + 1)));
            i = i + 1;
        }
        assert(self.headers.deep_view().take(i as int) =~= self.headers.deep_view());
        let ghost with_headers = r.deep_view();
        match &self.auth {
            AuthKind::NoAuth => {},
            AuthKind::Basic(c) => {
                r.push(String::from_str(CURL_ARG_USER));
                r.push(c.clone());
            },
            AuthKind::Bearer(t) => {
                r.push(String::from_str(CURL_ARG_HEADER));
                r.push(join_text(CURL_BEARER_PREFIX, t.as_str()));
            },
            AuthKind::Digest(c) => {
                r.push(String::from_str(CURL_ARG_DIGEST));
                r.push(String::from_str(CURL_ARG_USER));
                r.push(c.clone());
            },
            AuthKind::AwsSigv4 => {
                r.push(String::from_str(CURL_ARG_AWS_SIGV4));
                r.push(String::from_str(CURL_AWS_PROVIDER));
            },
            AuthKind::Spnego => {
                r.push(String::from_str(CURL_ARG_NEGOTIATE));
                r.push(String::from_str(CURL_ARG_USER));
                r.push(String::from_str(CURL_EMPTY_USER));
            },
            AuthKind::Ntlm => {
                r.push(String::from_str(CURL_ARG_NTLM));
                r.push(String::from_str(CURL_ARG_USER));
                r.push(String::from_str(CURL_EMPTY_USER));
            },
        }
        assert(r.deep_view() =~= with_headers + self@.auth.args());
        let ghost with_auth = r.deep_view();
        match &self.outfile {
            Some(path) => {
                r.push(String::from_str(CURL_ARG_OUTPUT));
                r.push(path.clone());
            },
            None => {},
        }
        assert(r.deep_view() =~= with_auth + (match self@.outfile {
            Some(path) => seq![CURL_ARG_OUTPUT@, path],
            None => Seq::empty(),
        }));
        r.push(self.url.clone());
        assert(r.deep_view() =~= self@.args());
        r
    }

    /// The command as one line of text.
    pub fn get_command_string(&self) -> (r: String)
        ensures
            r@ == command_line(CURL_PROGRAM@, self@.args()),
    {
        let args = self.args();
        join_command_line(CURL_PROGRAM, &args)
    }
}

} // verus!
