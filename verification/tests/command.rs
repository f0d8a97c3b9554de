use cute::display::AppOptions;
use cute::request::cmdtype::CmdType;
use cute::request::command::Command;
use cute::request::curl::{join_command_line, AuthKind, Curl};
use cute::request::synthesis::{args_of_option, args_of_options};
use cute::request::wget::Wget;

fn words(list: &[&str]) -> Vec<String> {
    list.iter().map(|w| String::from(*w)).collect()
}

#[test]
fn new_commands_are_empty() {
    let curl = Curl::new();
    assert_eq!(curl.url, "");
    assert!(curl.headers.is_empty());
    assert_eq!(curl.outfile, None);
    assert_eq!(curl.auth, AuthKind::NoAuth);
    assert!(!curl.verbose);
    assert!(!curl.save_command);
    assert!(!curl.save_token);
    assert_eq!(curl.response, None);
    let wget = Wget::new();
    assert_eq!(wget.url, "");
    assert_eq!(wget.rec_level, 0);
    assert_eq!(wget.outfile, None);
    assert_eq!(wget.response, None);
    assert_eq!(Command::new(CmdType::Curl).family(), CmdType::Curl);
    assert_eq!(Command::new(CmdType::Wget).family(), CmdType::Wget);
}

#[test]
fn curl_args_in_their_order() {
    let mut curl = Curl::new();
    assert_eq!(curl.args(), words(&[""]));
    curl.set_url(String::from("http://x"));
    curl.set_verbose(true);
    curl.add_headers(words(&["Accept:*/*", "Host:x"]));
    curl.add_headers(words(&["X:1"]));
    curl.set_auth(AuthKind::Basic(String::from("me:secret")));
    curl.set_outfile("out.txt");
    assert_eq!(
        curl.args(),
        words(&[
            "-v", "-H", "Accept:*/*", "-H", "Host:x", "-H", "X:1", "-u", "me:secret", "-o",
            "out.txt", "http://x",
        ])
    );
    assert_eq!(
        curl.get_command_string(),
        "curl -v -H Accept:*/* -H Host:x -H X:1 -u me:secret -o out.txt http://x"
    );
}

#[test]
fn curl_args_of_each_way_to_authenticate() {
    let mut curl = Curl::new();
    curl.set_url(String::from("u"));
    curl.set_auth(AuthKind::Bearer(String::from("tok")));
    assert_eq!(curl.args(), words(&["-H", "Authorization: Bearer tok", "u"]));
    curl.set_auth(AuthKind::Digest(String::from("a:b")));
    assert_eq!(curl.args(), words(&["--digest", "-u", "a:b", "u"]));
    curl.set_auth(AuthKind::AwsSigv4);
    assert_eq!(curl.args(), words(&["--aws-sigv4", "aws:amz", "u"]));
    curl.set_auth(AuthKind::Spnego);
    assert_eq!(curl.args(), words(&["--negotiate", "-u", ":", "u"]));
    curl.set_auth(AuthKind::Ntlm);
    assert_eq!(curl.args(), words(&["--ntlm", "-u", ":", "u"]));
    curl.set_auth(AuthKind::NoAuth);
    assert_eq!(curl.args(), words(&["u"]));
}

#[test]
fn curl_switches() {
    let mut curl = Curl::new();
    curl.save_command(true);
    assert!(curl.will_store_command());
    curl.save_command(false);
    assert!(!curl.will_store_command());
    curl.save_token();
    assert!(curl.save_token);
    curl.save_token();
    assert!(!curl.save_token);
    assert!(!curl.has_auth());
    curl.set_auth(AuthKind::Spnego);
    assert!(curl.has_auth());
}

#[test]
fn curl_response() {
    let mut curl = Curl::new();
    assert_eq!(curl.get_response(), None);
    curl.set_response("body");
    assert_eq!(curl.get_response(), Some(String::from("body")));
    assert_eq!(curl.clone(), curl);
}

#[test]
fn wget_args_in_their_order() {
    let mut wget = Wget::new();
    wget.set_url(String::from("http://files"));
    assert_eq!(wget.args(), words(&["http://files"]));
    wget.set_rec_download_level(3);
    wget.set_outfile("dir");
    assert_eq!(wget.args(), words(&["-r", "-l", "3", "-O", "dir", "http://files"]));
    wget.set_response("done");
    assert_eq!(wget.get_response(), Some(String::from("done")));
    assert_eq!(wget.clone(), wget);
}

#[test]
fn command_forwards_to_its_family() {
    let mut cmd = Command::new(CmdType::Curl);
    cmd.set_url(String::from("http://x"));
    cmd.add_headers(words(&["A:1"]));
    cmd.set_auth(AuthKind::Ntlm);
    cmd.set_verbose(true);
    cmd.save_command(true);
    cmd.save_token();
    cmd.set_outfile("o");
    cmd.set_response("r");
    assert!(cmd.has_auth());
    assert!(cmd.will_store_command());
    assert_eq!(cmd.get_response(), Some(String::from("r")));
    assert_eq!(
        cmd.args(),
        words(&["-v", "-H", "A:1", "--ntlm", "-u", ":", "-o", "o", "http://x"])
    );
    assert_eq!(cmd.get_command_string(), "curl -v -H A:1 --ntlm -u : -o o http://x");
}

#[test]
fn a_download_takes_no_headers_authentication_or_switches() {
    let mut cmd = Command::new(CmdType::Wget);
    cmd.set_url(String::from("http://x"));
    cmd.add_headers(words(&["A:1"]));
    cmd.set_auth(AuthKind::Ntlm);
    cmd.set_verbose(true);
    cmd.save_command(true);
    cmd.save_token();
    assert!(!cmd.has_auth());
    assert!(!cmd.will_store_command());
    assert_eq!(cmd.args(), words(&["http://x"]));
    assert_eq!(cmd.get_command_string(), "wget http://x");
    let mut expected = Wget::new();
    expected.set_url(String::from("http://x"));
    assert_eq!(cmd, Command::Wget(expected));
}

#[test]
fn join_command_line_puts_a_space_before_each_argument() {
    assert_eq!(join_command_line("prog", &words(&[])), "prog");
    assert_eq!(join_command_line("prog", &words(&["a", "", "b"])), "prog a  b");
}

#[test]
fn arguments_of_the_options_of_a_transfer() {
    let t = |text: &str| String::from(text);
    let cases = [
        (AppOptions::FollowRedirects, words(&["-L"])),
        (AppOptions::Cookie(t("a=b")), words(&["-b", "a=b"])),
        (AppOptions::Referrer(t("http://r")), words(&["-e", "http://r"])),
        (AppOptions::UserAgent(t("me")), words(&["-A", "me"])),
        (AppOptions::CaPath(t("/etc/ca")), words(&["--capath", "/etc/ca"])),
        (AppOptions::MaxRedirects(12), words(&["--max-redirs", "12"])),
        (AppOptions::UnixSocket(t("/run/s")), words(&["--unix-socket", "/run/s"])),
        (AppOptions::UploadFile(t("f")), words(&["-T", "f"])),
        (AppOptions::RequestBody(t("{}")), words(&["-d", "{}"])),
        (AppOptions::EnableHeaders, words(&["-i"])),
        (AppOptions::ProgressBar, words(&["-#"])),
        (AppOptions::FailOnError, words(&["-f"])),
        (AppOptions::ProxyTunnel, words(&["-p"])),
        (AppOptions::UnrestrictedAuth, words(&["--location-trusted"])),
    ];
    for (opt, expected) in cases {
        assert_eq!(args_of_option(CmdType::Curl, &opt), expected);
        assert!(args_of_option(CmdType::Wget, &opt).is_empty());
    }
}

#[test]
fn options_that_add_no_argument() {
    let t = |text: &str| String::from(text);
    let silent = [
        AppOptions::Verbose,
        AppOptions::Headers((t("a"), t("b"))),
        AppOptions::URL(t("u")),
        AppOptions::Outfile(t("o")),
        AppOptions::SaveCommand,
        AppOptions::Response(t("r")),
        AppOptions::Auth(t("a")),
        AppOptions::SaveToken,
        AppOptions::CertInfo,
        AppOptions::MatchWildcard,
        AppOptions::TcpKeepAlive,
        AppOptions::RecDownload(2),
    ];
    for opt in silent {
        assert!(args_of_option(CmdType::Curl, &opt).is_empty());
    }
    assert_eq!(
        args_of_option(CmdType::Wget, &AppOptions::RecDownload(2)),
        words(&["-r", "-l", "2"])
    );
    assert!(args_of_option(CmdType::Wget, &AppOptions::Verbose).is_empty());
}

#[test]
fn arguments_of_the_options_in_their_order() {
    let opts = vec![
        AppOptions::Cookie(String::from("c")),
        AppOptions::Verbose,
        AppOptions::FollowRedirects,
        AppOptions::RecDownload(1),
    ];
    assert_eq!(args_of_options(CmdType::Curl, &opts), words(&["-b", "c", "-L"]));
    assert_eq!(args_of_options(CmdType::Wget, &opts), words(&["-r", "-l", "1"]));
    assert!(args_of_options(CmdType::Curl, &Vec::new()).is_empty());
}
