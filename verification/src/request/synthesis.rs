//! What the chosen options add to a command when it is run: the options
//! that do not change the command when they are chosen are taken up here,
//! as arguments of the program.

use crate::display::{AppOptions, OptionValue};
use crate::request::cmdtype::CmdType;
use crate::request::wget::{WGET_ARG_LEVEL, WGET_ARG_RECURSIVE};
use crate::text::{decimal_digits, usize_to_string};
use crate::vectors::{lemma_deep_view_append, lemma_deep_view_push};
use vstd::prelude::*;
use vstd::string::StringExecFns;

verus! {

pub const CURL_ARG_FOLLOW: &'static str = "-L";

pub const CURL_ARG_COOKIE: &'static str = "-b";

pub const CURL_ARG_REFERRER: &'static str = "-e";

pub const CURL_ARG_USER_AGENT: &'static str = "-A";

pub const CURL_ARG_CA_PATH: &'static str = "--capath";

pub const CURL_ARG_MAX_REDIRECTS: &'static str = "--max-redirs";

pub const CURL_ARG_UNIX_SOCKET: &'static str = "--unix-socket";

pub const CURL_ARG_UPLOAD: &'static str = "-T";

pub const CURL_ARG_BODY: &'static str = "-d";

pub const CURL_ARG_INCLUDE_HEADERS: &'static str = "-i";

pub const CURL_ARG_PROGRESS_BAR: &'static str = "-#";

pub const CURL_ARG_FAIL: &'static str = "-f";

pub const CURL_ARG_PROXY_TUNNEL: &'static str = "-p";

pub const CURL_ARG_UNRESTRICTED_AUTH: &'static str = "--location-trusted";

/// The arguments that one chosen option adds to a command of the given
/// family when it is run. A transfer takes up the options of a transfer, a
/// download its recursion level. An option that changed the command when it
/// was chosen, or that only shows something, adds nothing.
pub open spec fn option_args(family: CmdType, o: OptionValue) -> Seq<Seq<char>> {
    match family {
        CmdType::Wget => match o {
            OptionValue::RecDownload(level) => seq![
                WGET_ARG_RECURSIVE@,
                WGET_ARG_LEVEL@,
                decimal_digits(level as nat),
            ],
            _ => Seq::empty(),
        },
        CmdType::Curl => match o {
            OptionValue::FollowRedirects => seq![CURL_ARG_FOLLOW@],
            OptionValue::Cookie(cookie) => seq![CURL_ARG_COOKIE@, cookie],
            OptionValue::Referrer(referrer) => seq![CURL_ARG_REFERRER@, referrer],
            OptionValue::UserAgent(agent) => seq![CURL_ARG_USER_AGENT@, agent],
            OptionValue::CaPath(path) => seq![CURL_ARG_CA_PATH@, path],
            OptionValue::MaxRedirects(n) => seq![
                CURL_ARG_MAX_REDIRECTS@,
                decimal_digits(n as nat),
            ],
            OptionValue::UnixSocket(socket) => seq![CURL_ARG_UNIX_SOCKET@, socket],
            OptionValue::UploadFile(file) => seq![CURL_ARG_UPLOAD@, file],
            OptionValue::RequestBody(body) => seq![CURL_ARG_BODY@, body],
            OptionValue::EnableHeaders => seq![CURL_ARG_INCLUDE_HEADERS@],
            OptionValue::ProgressBar => seq![CURL_ARG_PROGRESS_BAR@],
            OptionValue::FailOnError => seq![CURL_ARG_FAIL@],
            OptionValue::ProxyTunnel => seq![CURL_ARG_PROXY_TUNNEL@],
            OptionValue::UnrestrictedAuth => seq![CURL_ARG_UNRESTRICTED_AUTH@],
            _ => Seq::empty(),
        },
    }
}

/// The arguments that the chosen options add to a command of the given
/// family, in the order in which the options are shown.
pub open spec fn chosen_args(family: CmdType, opts: Seq<OptionValue>) -> Seq<Seq<char>>
    decreases opts.len(),
{
    if opts.len() == 0 {
        Seq::empty()
    } else {
        chosen_args(family, opts.drop_last()) + option_args(family, opts.last())
    }
}

fn flag(name: &str) -> (r: Vec<String>)
    ensures
        r.deep_view() == seq![name@],
{
    let mut args: Vec<String> = Vec::new();
    let word = String::from_str(name);
    let ghost none = args@;
    args.push(word);
    proof {
        lemma_deep_view_push(none, args, word);
    }
    assert(args.deep_view() =~= seq![name@]);
    args
}

fn flag_with(name: &str, value: String) -> (r: Vec<String>)
    ensures
        r.deep_view() == seq![name@, value@],
{
    let mut args = flag(name);
    let ghost one = args@;
    args.push(value);
    proof {
        lemma_deep_view_push(one, args, value);
    }
    assert(args.deep_view() =~= seq![name@, value@]);
    args
}

/// The arguments that one chosen option adds to a command of the given
/// family when it is run.
pub fn args_of_option(family: CmdType, opt: &AppOptions) -> (r: Vec<String>)
    ensures
        r.deep_view() == option_args(family, opt@),
{
    let mut none: Vec<String> = Vec::new();
    assert(none.deep_view() =~= Seq::empty());
    match family {
        CmdType::Wget => match opt {
            AppOptions::RecDownload(level) => {
                let mut args = flag_with(WGET_ARG_RECURSIVE, String::from_str(WGET_ARG_LEVEL));
                let digits = usize_to_string(*level);
                let ghost two = args@;
                args.push(digits);
                proof {
                    lemma_deep_view_push(two, args, digits);
                }
                assert(args.deep_view() =~= option_args(family, opt@));
                args
            },
            _ => none,
        },
        CmdType::Curl => match opt {
            AppOptions::FollowRedirects => flag(CURL_ARG_FOLLOW),
            AppOptions::Cookie(cookie) => flag_with(CURL_ARG_COOKIE, cookie.clone()),
            AppOptions::Referrer(referrer) => flag_with(CURL_ARG_REFERRER, referrer.clone()),
            AppOptions::UserAgent(agent) => flag_with(CURL_ARG_USER_AGENT, agent.clone()),
            AppOptions::CaPath(path) => flag_with(CURL_ARG_CA_PATH, path.clone()),
            AppOptions::MaxRedirects(n) => flag_with(CURL_ARG_MAX_REDIRECTS, usize_to_string(*n)),
            AppOptions::UnixSocket(socket) => flag_with(CURL_ARG_UNIX_SOCKET, socket.clone()),
            AppOptions::UploadFile(file) => flag_with(CURL_ARG_UPLOAD, file.clone()),
            AppOptions::RequestBody(body) => flag_with(CURL_ARG_BODY, body.clone()),
            AppOptions::EnableHeaders => flag(CURL_ARG_INCLUDE_HEADERS),
            AppOptions::ProgressBar => flag(CURL_ARG_PROGRESS_BAR),
            AppOptions::FailOnError => flag(CURL_ARG_FAIL),
            AppOptions::ProxyTunnel => flag(CURL_ARG_PROXY_TUNNEL),
            AppOptions::UnrestrictedAuth => flag(CURL_ARG_UNRESTRICTED_AUTH),
            _ => none,
        },
    }
}

/// The arguments that the chosen options add to a command of the given
/// family.
pub fn args_of_options(family: CmdType, opts: &Vec<AppOptions>) -> (r: Vec<String>)
    ensures
        r.deep_view() == chosen_args(family, opts.deep_view()),
{
    let mut args: Vec<String> = Vec::new();
    assert(args.deep_view() =~= Seq::empty());
    assert(opts.deep_view().take(0) =~= Seq::empty());
    let mut i: usize = 0;
    while i < opts.len()
        invariant
            i <= opts.len(),
            args.deep_view() == chosen_args(family, opts.deep_view().take(i as int)),
        decreases opts.len() - i,
    {
        let mut more = args_of_option(family, &opts[i]);
        let ghost before = args@;
        let ghost added = more@;
        args.append(&mut more);
        proof {
            lemma_deep_view_append(before, added, args);
            assert(opts.deep_view().take(i + 1).drop_last() =~= opts.deep_view().take(i as int));
            assert(opts.deep_view().take(i + 1).last() == opts[i as int]@);
        }
        i = i + 1;
    }
    assert(opts.deep_view().take(i as int) =~= opts.deep_view());
    args
}

} // verus!
