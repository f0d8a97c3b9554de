use cute::app::{App, InputMode, WriteJob};
use cute::display::inputopt::InputOpt;
use cute::display::AppOptions;
use cute::request::cmdtype::CmdType;
use cute::request::command::Command;
use cute::request::curl::{AuthKind, Curl};
use cute::screens::auth::{handle_authentication_screen, varify_aws_auth, AuthType};
use cute::screens::downloads::handle_downloads_screen;
use cute::screens::home::handle_home_screen;
use cute::screens::input::{
    get_input_prompt, handle_default_input_screen, parse_auth, parse_input, InputEffect,
};
use cute::screens::request::{execution_finished, handle_request_menu_screen, MenuEffect};
use cute::screens::response::{
    clipboard_written, handle_response_screen, response_unreadable, ResponseEffect,
};
use cute::screens::screen::{ItemSource, Screen};
use cute::text::NumberError;
use ratatui::widgets::ListState;

fn s(text: &str) -> String {
    String::from(text)
}

fn confirm(app: &mut App, highlighted: Option<usize>) {
    app.state = Some(ListState::default().with_selected(highlighted));
    app.select_item();
}

fn request_menu() -> Screen {
    Screen::RequestMenu(String::new())
}

fn transfer_session() -> App {
    let mut app = App::new();
    app.goto_screen(request_menu());
    app
}

fn download_session() -> App {
    let mut app = App::new();
    app.goto_screen(Screen::Downloads);
    app
}

fn curl_of(app: &App) -> &Curl {
    match app.command.as_ref() {
        Some(Command::Curl(c)) => c,
        _ => panic!("the session has no transfer command"),
    }
}

fn on_auth_menu(selected: Option<usize>) -> App {
    let mut app = transfer_session();
    app.goto_screen(Screen::Authentication);
    confirm(&mut app, selected);
    app
}

#[test]
fn screen_menus() {
    assert_eq!(Screen::Home.get_opts().len(), 5);
    assert_eq!(request_menu().get_opts().len(), 13);
    assert_eq!(Screen::Downloads.get_opts().len(), 4);
    assert_eq!(Screen::Response(s("r")).get_opts().len(), 5);
    assert_eq!(
        Screen::Authentication.get_opts(),
        vec![s("Basic"), s("Bearer"), s("Digest"), s("AWS Signature V4"), s("SPNEGO"), s("NTLM")]
    );
    assert!(Screen::SavedKeys.get_opts().is_empty());
    assert!(Screen::SavedCommands.get_opts().is_empty());
    assert!(Screen::InputMenu(InputOpt::Headers).get_opts().is_empty());
    assert!(Screen::ViewBody.get_opts().is_empty());
    assert!(Screen::Success.get_opts().is_empty());
    assert!(Screen::Error(s("e")).get_opts().is_empty());
    assert_eq!(Screen::Home.get_opts()[0], "Build and run a new HTTP request");
    assert_eq!(Screen::Downloads.get_opts()[3], "Execute the command");
}

#[test]
fn screen_kinds() {
    assert!(Screen::InputMenu(InputOpt::Execute).is_prompt());
    assert!(!Screen::Home.is_prompt());
    assert!(!request_menu().is_prompt());
    assert_eq!(request_menu().family(), Some(CmdType::Curl));
    assert_eq!(Screen::Downloads.family(), Some(CmdType::Wget));
    assert_eq!(Screen::Home.family(), None);
    assert_eq!(Screen::SavedKeys.item_source(), ItemSource::SavedKeys);
    assert_eq!(Screen::SavedCommands.item_source(), ItemSource::SavedCommands);
    assert_eq!(Screen::Home.item_source(), ItemSource::Fixed);
    assert_eq!(Screen::Error(s("e")).clone(), Screen::Error(s("e")));
}

#[test]
fn auth_names() {
    assert_eq!(AuthType::Basic.to_string(), "Basic");
    assert_eq!(AuthType::Bearer.to_string(), "Bearer");
    assert_eq!(AuthType::Digest.to_string(), "Digest");
    assert_eq!(AuthType::AWSSignatureV4.to_string(), "AWS Signature V4");
    assert_eq!(AuthType::NTLM.to_string(), "NTLM");
    assert_eq!(AuthType::SPNEGO.to_string(), "SPNEGO");
    assert_eq!(CmdType::Curl.to_string(), "HTTP Request");
    assert_eq!(CmdType::Wget.to_string(), "Download");
}

#[test]
fn authentication_menu_leads_to_the_prompts() {
    let cases = [(0, AuthType::Basic), (1, AuthType::Bearer), (2, AuthType::Digest)];
    for (index, auth) in cases {
        let mut app = on_auth_menu(Some(index));
        handle_authentication_screen(&mut app, false);
        assert_eq!(app.current_screen, Screen::InputMenu(InputOpt::Auth(auth)));
        assert_eq!(app.selected, None);
        assert!(app.opts.is_empty());
    }
}

#[test]
fn authentication_menu_aws_with_its_keys() {
    let mut app = on_auth_menu(Some(3));
    handle_authentication_screen(&mut app, true);
    assert_eq!(
        app.current_screen,
        Screen::RequestMenu(s(
            "Alert: AWS Signature V4 authentication reads AWS_ACCESS_KEY_ID, AWS_SECRET_ACCESS_KEY and AWS_DEFAULT_REGION"
        ))
    );
    assert_eq!(app.opts, vec![AppOptions::Auth(s("AWS Signature V4"))]);
    assert_eq!(curl_of(&app).auth, AuthKind::NoAuth);
}

#[test]
fn authentication_menu_aws_without_its_keys() {
    let mut app = on_auth_menu(Some(3));
    handle_authentication_screen(&mut app, false);
    assert_eq!(
        app.current_screen,
        Screen::RequestMenu(s(
            "Error: AWS Signature V4 authentication needs AWS_ACCESS_KEY_ID, AWS_SECRET_ACCESS_KEY and AWS_DEFAULT_REGION"
        ))
    );
    assert!(app.opts.is_empty());
}

#[test]
fn authentication_menu_spnego_and_ntlm() {
    let mut app = on_auth_menu(Some(4));
    handle_authentication_screen(&mut app, false);
    assert_eq!(curl_of(&app).auth, AuthKind::Spnego);
    assert_eq!(app.opts, vec![AppOptions::Auth(s("SPNEGO"))]);
    assert_eq!(app.current_screen, request_menu());

    let mut app = on_auth_menu(Some(5));
    handle_authentication_screen(&mut app, false);
    assert_eq!(curl_of(&app).auth, AuthKind::Ntlm);
    assert!(app.opts.is_empty());
    assert_eq!(app.current_screen, Screen::RequestMenu(s("Alert: NTLM Auth Enabled")));
}

#[test]
fn authentication_menu_without_a_choice() {
    for selected in [None, Some(6), Some(100)] {
        let mut app = on_auth_menu(selected);
        handle_authentication_screen(&mut app, true);
        assert_eq!(app.current_screen, Screen::Authentication);
        assert_eq!(app.selected, selected);
        assert_eq!(app.screen_stack.len(), 3);
    }
}

#[test]
fn aws_needs_all_three() {
    assert!(varify_aws_auth(true, true, true));
    assert!(!varify_aws_auth(false, true, true));
    assert!(!varify_aws_auth(true, false, true));
    assert!(!varify_aws_auth(true, true, false));
    assert!(!varify_aws_auth(false, false, false));
}

#[test]
fn input_prompts() {
    assert_eq!(
        get_input_prompt(InputOpt::URL(CmdType::Curl)),
        "Enter a URL for your HTTP Request\n and press Enter"
    );
    assert_eq!(
        get_input_prompt(InputOpt::URL(CmdType::Wget)),
        "Enter a URL for your Download\n and press Enter"
    );
    assert_eq!(
        get_input_prompt(InputOpt::Headers),
        "Enter a header as name:value and press Enter"
    );
    assert_eq!(
        get_input_prompt(InputOpt::RecursiveDownload),
        "Enter the recursion level and press Enter"
    );
    assert_eq!(
        get_input_prompt(InputOpt::Auth(AuthType::Basic)),
        "Enter username:password and press Enter"
    );
    assert_eq!(
        get_input_prompt(InputOpt::Auth(AuthType::Bearer)),
        "Enter your API token and press Enter"
    );
    for auth in [AuthType::Digest, AuthType::AWSSignatureV4, AuthType::NTLM, AuthType::SPNEGO] {
        assert_eq!(
            get_input_prompt(InputOpt::Auth(auth)),
            "Enter your credentials and press Enter"
        );
    }
    for opt in [
        InputOpt::Output,
        InputOpt::Execute,
        InputOpt::ApiKey,
        InputOpt::UnixSocket,
        InputOpt::UserAgent,
        InputOpt::MaxRedirects,
        InputOpt::Cookie,
        InputOpt::Referrer,
        InputOpt::CaPath,
    ] {
        assert_eq!(get_input_prompt(opt), "Enter a value and press Enter");
    }
}

#[test]
fn parse_input_address_of_a_transfer() {
    let mut app = transfer_session();
    app.goto_screen(Screen::InputMenu(InputOpt::URL(CmdType::Curl)));
    let effect = parse_input(s("http://x"), InputOpt::URL(CmdType::Curl), &mut app);
    assert_eq!(effect, Ok(InputEffect::Nothing));
    assert_eq!(app.opts, vec![AppOptions::URL(s("http://x"))]);
    assert_eq!(curl_of(&app).url, "http://x");
    assert_eq!(app.current_screen, request_menu());
    assert_eq!(app.screen_stack.len(), 4);
}

#[test]
fn parse_input_address_of_a_download() {
    let mut app = download_session();
    let effect = parse_input(s("http://f"), InputOpt::URL(CmdType::Wget), &mut app);
    assert_eq!(effect, Ok(InputEffect::Nothing));
    assert_eq!(app.opts, vec![AppOptions::URL(s("http://f"))]);
    assert_eq!(app.current_screen, Screen::Downloads);
}

#[test]
fn parse_input_texts_of_a_transfer() {
    let cases = [
        (InputOpt::UnixSocket, AppOptions::UnixSocket(s("typed"))),
        (InputOpt::Cookie, AppOptions::Cookie(s("typed"))),
        (InputOpt::Referrer, AppOptions::Referrer(s("typed"))),
        (InputOpt::CaPath, AppOptions::CaPath(s("typed"))),
        (InputOpt::UserAgent, AppOptions::UserAgent(s("typed"))),
    ];
    for (opt, expected) in cases {
        let mut app = transfer_session();
        assert_eq!(parse_input(s("typed"), opt, &mut app), Ok(InputEffect::Nothing));
        assert_eq!(app.opts, vec![expected]);
        assert_eq!(app.current_screen, request_menu());
        assert_eq!(curl_of(&app), &Curl::new());
    }
}

#[test]
fn parse_input_header() {
    let mut app = transfer_session();
    assert_eq!(parse_input(s("Accept:*/*"), InputOpt::Headers, &mut app), Ok(InputEffect::Nothing));
    assert_eq!(app.opts, vec![AppOptions::Headers((s("Accept"), s("*/*")))]);
    assert_eq!(curl_of(&app).headers, vec![s("Accept:*/*")]);
    assert_eq!(app.current_screen, request_menu());
}

#[test]
fn parse_input_output_file() {
    let mut app = download_session();
    assert_eq!(parse_input(s("a.bin"), InputOpt::Output, &mut app), Ok(InputEffect::Nothing));
    assert_eq!(app.opts, vec![AppOptions::Outfile(s("a.bin"))]);
    assert_eq!(app.current_screen, Screen::Downloads);
    match app.command.as_ref() {
        Some(Command::Wget(w)) => assert_eq!(w.outfile, Some(s("a.bin"))),
        _ => panic!("the session has no download command"),
    }
}

#[test]
fn parse_input_numbers() {
    let mut app = download_session();
    assert_eq!(parse_input(s("2"), InputOpt::RecursiveDownload, &mut app), Ok(InputEffect::Nothing));
    assert_eq!(parse_input(s("5"), InputOpt::RecursiveDownload, &mut app), Ok(InputEffect::Nothing));
    assert_eq!(app.opts, vec![AppOptions::RecDownload(5)]);
    assert_eq!(app.current_screen, Screen::Downloads);

    let mut app = transfer_session();
    assert_eq!(parse_input(s("10"), InputOpt::MaxRedirects, &mut app), Ok(InputEffect::Nothing));
    assert_eq!(app.opts, vec![AppOptions::MaxRedirects(10)]);
    assert_eq!(app.current_screen, request_menu());
}

#[test]
fn scenario_malformed_depth_is_refused() {
    let mut app = download_session();
    app.add_display_option(AppOptions::URL(s("http://f")));
    app.goto_screen(Screen::InputMenu(InputOpt::RecursiveDownload));
    let stack = app.screen_stack.clone();
    let result = parse_input(s("abc"), InputOpt::RecursiveDownload, &mut app);
    assert_eq!(result, Err(NumberError::InvalidDigit));
    assert_eq!(app.opts, vec![AppOptions::URL(s("http://f"))]);
    assert_eq!(app.current_screen, Screen::InputMenu(InputOpt::RecursiveDownload));
    assert_eq!(app.screen_stack, stack);
    assert!(app.running);
}

#[test]
fn malformed_numbers_of_each_kind() {
    let mut app = transfer_session();
    assert_eq!(parse_input(s(""), InputOpt::MaxRedirects, &mut app), Err(NumberError::Empty));
    assert_eq!(
        parse_input(s("1.5"), InputOpt::MaxRedirects, &mut app),
        Err(NumberError::InvalidDigit)
    );
    assert_eq!(
        parse_input(s("99999999999999999999999999999999"), InputOpt::MaxRedirects, &mut app),
        Err(NumberError::PosOverflow)
    );
    assert!(app.opts.is_empty());
    assert_eq!(app.current_screen, request_menu());
}

#[test]
fn number_errors_have_a_text() {
    assert_eq!(NumberError::Empty.message(), "Enter a number");
    assert_eq!(NumberError::InvalidDigit.message(), "Only decimal digits are accepted");
    assert_eq!(NumberError::PosOverflow.message(), "The number is too large");
}

#[test]
fn parse_input_key_for_the_store() {
    let mut app = App::new();
    app.goto_screen(Screen::InputMenu(InputOpt::ApiKey));
    let effect = parse_input(s("secret-key"), InputOpt::ApiKey, &mut app);
    assert_eq!(effect, Ok(InputEffect::SaveKey(s("secret-key"))));
    assert_eq!(app.current_screen, Screen::SavedKeys);
    assert!(app.opts.is_empty());
}

#[test]
fn parse_input_file_for_the_response() {
    let mut app = transfer_session();
    app.set_response(s("the body"));
    let effect = parse_input(s("out.txt"), InputOpt::Execute, &mut app);
    assert_eq!(
        effect,
        Ok(InputEffect::WriteFile(WriteJob { path: s("out.txt"), contents: s("the body") }))
    );
    assert_eq!(curl_of(&app).outfile, Some(s("out.txt")));
    assert_eq!(app.current_screen, request_menu());
    assert!(app.opts.is_empty());
}

#[test]
fn parse_input_file_without_a_response() {
    let mut app = transfer_session();
    let effect = parse_input(s("out.txt"), InputOpt::Execute, &mut app);
    assert_eq!(effect, Ok(InputEffect::Nothing));
    assert_eq!(app.current_screen, Screen::Error(s("No response to write")));
    assert_eq!(curl_of(&app).outfile, Some(s("out.txt")));
}

#[test]
fn parse_input_file_for_a_download_does_nothing() {
    let mut app = download_session();
    let effect = parse_input(s("out.txt"), InputOpt::Execute, &mut app);
    assert_eq!(effect, Ok(InputEffect::Nothing));
    assert_eq!(app.current_screen, Screen::Downloads);
    assert_eq!(app.command, Some(Command::new(CmdType::Wget)));
}

#[test]
fn parse_auth_sets_the_way_and_shows_the_text() {
    let mut app = transfer_session();
    app.add_display_option(AppOptions::Auth(s("old")));
    app.add_display_option(AppOptions::URL(s("u")));
    parse_auth(AuthType::Basic, &mut app, "me:secret");
    assert_eq!(curl_of(&app).auth, AuthKind::Basic(s("me:secret")));
    assert_eq!(app.opts, vec![AppOptions::URL(s("u")), AppOptions::Auth(s("me:secret"))]);
    assert_eq!(app.current_screen, request_menu());
}

#[test]
fn parse_auth_of_each_way() {
    let cases = [
        (AuthType::Basic, AuthKind::Basic(s("c"))),
        (AuthType::Bearer, AuthKind::Bearer(s("c"))),
        (AuthType::Digest, AuthKind::Digest(s("c"))),
        (AuthType::AWSSignatureV4, AuthKind::AwsSigv4),
        (AuthType::SPNEGO, AuthKind::Spnego),
        (AuthType::NTLM, AuthKind::Ntlm),
    ];
    for (auth, expected) in cases {
        let mut app = transfer_session();
        assert_eq!(parse_input(s("c"), InputOpt::Auth(auth), &mut app), Ok(InputEffect::Nothing));
        assert_eq!(curl_of(&app).auth, expected);
        assert_eq!(app.opts, vec![AppOptions::Auth(s("c"))]);
    }
}

#[test]
fn input_screen_without_a_typed_text() {
    let mut app = transfer_session();
    app.input_mode = InputMode::Editing;
    let effect = handle_default_input_screen(&mut app, InputOpt::Cookie);
    assert_eq!(effect, Ok(InputEffect::Nothing));
    assert_eq!(app.input_mode, InputMode::Editing);
    assert!(app.opts.is_empty());
}

#[test]
fn input_screen_takes_the_first_typed_text() {
    let mut app = transfer_session();
    app.input_mode = InputMode::Editing;
    app.messages.push(s("a=b"));
    app.messages.push(s("later"));
    let effect = handle_default_input_screen(&mut app, InputOpt::Cookie);
    assert_eq!(effect, Ok(InputEffect::Nothing));
    assert_eq!(app.input_mode, InputMode::Normal);
    assert_eq!(app.messages, vec![s("later")]);
    assert_eq!(app.opts, vec![AppOptions::Cookie(s("a=b"))]);
    assert_eq!(app.current_screen, request_menu());
}

#[test]
fn input_screen_drops_a_refused_text_and_stays() {
    let mut app = download_session();
    app.goto_screen(Screen::InputMenu(InputOpt::RecursiveDownload));
    app.input_mode = InputMode::Editing;
    app.messages.push(s("abc"));
    let effect = handle_default_input_screen(&mut app, InputOpt::RecursiveDownload);
    assert_eq!(effect, Err(NumberError::InvalidDigit));
    assert!(app.messages.is_empty());
    assert_eq!(app.input_mode, InputMode::Normal);
    assert!(app.opts.is_empty());
    assert_eq!(app.current_screen, Screen::InputMenu(InputOpt::RecursiveDownload));
}

fn on_response_screen(selected: Option<usize>) -> App {
    let mut app = transfer_session();
    app.add_display_option(AppOptions::URL(s("http://x")));
    execution_finished(&mut app, Ok(s("HTTP/1.1 200 OK")));
    confirm(&mut app, selected);
    app
}

#[test]
fn run_that_succeeded_is_shown() {
    let mut app = on_response_screen(None);
    assert_eq!(app.current_screen, Screen::Response(s("HTTP/1.1 200 OK")));
    assert_eq!(app.response, Some(s("HTTP/1.1 200 OK")));
    assert_eq!(curl_of(&app).response, Some(s("HTTP/1.1 200 OK")));
    assert_eq!(app.items.len(), 5);
    assert_eq!(
        app.opts,
        vec![AppOptions::URL(s("http://x")), AppOptions::Response(s("HTTP/1.1 200 OK"))]
    );
    execution_finished(&mut app, Ok(s("HTTP/1.1 404 Not Found")));
    assert_eq!(
        app.opts,
        vec![AppOptions::URL(s("http://x")), AppOptions::Response(s("HTTP/1.1 404 Not Found"))]
    );
    assert_eq!(app.response, Some(s("HTTP/1.1 404 Not Found")));
}

#[test]
fn run_that_failed_leads_to_the_error_screen() {
    let mut app = transfer_session();
    execution_finished(&mut app, Err(s("timeout")));
    assert_eq!(app.current_screen, Screen::Error(s("timeout")));
    assert_eq!(app.response, None);
    assert!(app.opts.is_empty());
}

#[test]
fn response_screen_choices() {
    let mut app = on_response_screen(Some(0));
    assert_eq!(handle_response_screen(&mut app, s("raw")), ResponseEffect::Nothing);
    assert_eq!(app.current_screen, Screen::InputMenu(InputOpt::Execute));

    let mut app = on_response_screen(Some(1));
    assert_eq!(handle_response_screen(&mut app, s("raw")), ResponseEffect::ParseHeaders(s("raw")));
    assert_eq!(app.current_screen, Screen::Response(s("HTTP/1.1 200 OK")));

    let mut app = on_response_screen(Some(2));
    assert_eq!(handle_response_screen(&mut app, s("raw")), ResponseEffect::Nothing);
    assert_eq!(app.current_screen, Screen::ViewBody);

    let mut app = on_response_screen(Some(3));
    assert_eq!(
        handle_response_screen(&mut app, s("raw")),
        ResponseEffect::CopyToClipboard(s("curl http://x"))
    );
    assert_eq!(app.current_screen, Screen::Response(s("HTTP/1.1 200 OK")));

    let mut app = on_response_screen(Some(4));
    assert_eq!(handle_response_screen(&mut app, s("raw")), ResponseEffect::Nothing);
    assert_eq!(app.current_screen, Screen::Home);
    assert!(app.opts.is_empty());

    for selected in [None, Some(5)] {
        let mut app = on_response_screen(selected);
        assert_eq!(handle_response_screen(&mut app, s("raw")), ResponseEffect::Nothing);
        assert_eq!(app.current_screen, Screen::Response(s("HTTP/1.1 200 OK")));
        assert_eq!(app.opts.len(), 2);
    }
}

#[test]
fn response_screen_copies_the_response_without_a_command() {
    let mut app = App::new();
    app.goto_screen(Screen::Response(s("r")));
    confirm(&mut app, Some(3));
    assert_eq!(
        handle_response_screen(&mut app, s("r")),
        ResponseEffect::CopyToClipboard(s("Command failed to save"))
    );
    app.set_response(s("kept"));
    assert_eq!(
        handle_response_screen(&mut app, s("r")),
        ResponseEffect::CopyToClipboard(s("kept"))
    );
}

#[test]
fn unreadable_response_leads_to_the_error_screen() {
    let mut app = on_response_screen(Some(1));
    response_unreadable(&mut app, s("not a response"));
    assert_eq!(app.current_screen, Screen::Error(s("not a response")));
    assert_eq!(app.selected, None);
}

#[test]
fn clipboard_outcomes() {
    let mut app = on_response_screen(Some(3));
    clipboard_written(&mut app, Ok(()));
    assert_eq!(app.current_screen, Screen::Success);

    let mut app = on_response_screen(Some(3));
    clipboard_written(&mut app, Err(s("no display")));
    assert_eq!(app.current_screen, Screen::Error(s("no display")));

    let mut app = App::new();
    clipboard_written(&mut app, Err(s("no display")));
    assert_eq!(app.current_screen, Screen::Error(s("Failed to copy to clipboard")));

    let mut app = App::new();
    clipboard_written(&mut app, Ok(()));
    assert_eq!(app.current_screen, Screen::Success);
}

#[test]
fn home_screen_choices() {
    let mut app = App::new();
    app.add_display_option(AppOptions::Cookie(s("left over")));
    confirm(&mut app, Some(0));
    assert_eq!(handle_home_screen(&mut app), ItemSource::Fixed);
    assert_eq!(app.current_screen, request_menu());
    assert_eq!(app.command, Some(Command::new(CmdType::Curl)));
    assert!(app.opts.is_empty());

    let mut app = transfer_session();
    app.add_display_option(AppOptions::URL(s("old")));
    app.goto_screen(Screen::Home);
    confirm(&mut app, Some(1));
    assert_eq!(handle_home_screen(&mut app), ItemSource::Fixed);
    assert_eq!(app.current_screen, Screen::Downloads);
    assert_eq!(app.command, Some(Command::new(CmdType::Wget)));
    assert!(app.opts.is_empty());

    let mut app = App::new();
    confirm(&mut app, Some(2));
    assert_eq!(handle_home_screen(&mut app), ItemSource::SavedKeys);
    assert_eq!(app.current_screen, Screen::SavedKeys);

    let mut app = App::new();
    confirm(&mut app, Some(3));
    assert_eq!(handle_home_screen(&mut app), ItemSource::SavedCommands);
    assert_eq!(app.current_screen, Screen::SavedCommands);

    let mut app = App::new();
    confirm(&mut app, Some(4));
    assert_eq!(handle_home_screen(&mut app), ItemSource::Fixed);
    assert_eq!(app.current_screen, Screen::InputMenu(InputOpt::ApiKey));

    for selected in [None, Some(5)] {
        let mut app = App::new();
        confirm(&mut app, selected);
        assert_eq!(handle_home_screen(&mut app), ItemSource::Fixed);
        assert_eq!(app.current_screen, Screen::Home);
        assert_eq!(app.screen_stack.len(), 1);
    }
}

#[test]
fn request_menu_leads_to_its_screens() {
    let cases = [
        (0, Screen::InputMenu(InputOpt::URL(CmdType::Curl))),
        (1, Screen::Authentication),
        (2, Screen::InputMenu(InputOpt::Headers)),
        (4, Screen::InputMenu(InputOpt::Cookie)),
        (5, Screen::InputMenu(InputOpt::Referrer)),
        (6, Screen::InputMenu(InputOpt::UserAgent)),
        (7, Screen::InputMenu(InputOpt::CaPath)),
        (8, Screen::InputMenu(InputOpt::MaxRedirects)),
        (9, Screen::InputMenu(InputOpt::UnixSocket)),
    ];
    for (index, screen) in cases {
        let mut app = transfer_session();
        confirm(&mut app, Some(index));
        assert_eq!(handle_request_menu_screen(&mut app), MenuEffect::Nothing);
        assert_eq!(app.current_screen, screen);
        assert_eq!(app.selected, None);
    }
}

#[test]
fn request_menu_switches_and_run() {
    let mut app = transfer_session();
    confirm(&mut app, Some(3));
    assert_eq!(handle_request_menu_screen(&mut app), MenuEffect::Nothing);
    assert_eq!(app.opts, vec![AppOptions::Verbose]);
    assert!(curl_of(&app).verbose);
    assert_eq!(app.selected, None);
    // nothing is confirmed any more, so the switch is not operated again
    assert_eq!(handle_request_menu_screen(&mut app), MenuEffect::Nothing);
    assert_eq!(app.opts, vec![AppOptions::Verbose]);

    confirm(&mut app, Some(10));
    assert_eq!(handle_request_menu_screen(&mut app), MenuEffect::Nothing);
    confirm(&mut app, Some(11));
    assert_eq!(handle_request_menu_screen(&mut app), MenuEffect::Nothing);
    assert!(curl_of(&app).save_command);
    assert!(curl_of(&app).save_token);
    assert_eq!(
        app.opts,
        vec![AppOptions::Verbose, AppOptions::SaveCommand, AppOptions::SaveToken]
    );

    confirm(&mut app, Some(12));
    assert_eq!(handle_request_menu_screen(&mut app), MenuEffect::Execute);
    assert_eq!(app.selected, None);
    assert_eq!(app.current_screen, request_menu());

    confirm(&mut app, Some(13));
    assert_eq!(handle_request_menu_screen(&mut app), MenuEffect::Nothing);
    assert_eq!(app.selected, Some(13));
}

#[test]
fn downloads_menu_choices() {
    let cases = [
        (0, Screen::InputMenu(InputOpt::RecursiveDownload)),
        (1, Screen::InputMenu(InputOpt::URL(CmdType::Wget))),
        (2, Screen::InputMenu(InputOpt::Output)),
    ];
    for (index, screen) in cases {
        let mut app = download_session();
        confirm(&mut app, Some(index));
        assert_eq!(handle_downloads_screen(&mut app), MenuEffect::Nothing);
        assert_eq!(app.current_screen, screen);
    }
    let mut app = download_session();
    confirm(&mut app, Some(3));
    assert_eq!(handle_downloads_screen(&mut app), MenuEffect::Execute);
    assert_eq!(app.selected, None);
    assert_eq!(app.current_screen, Screen::Downloads);
    confirm(&mut app, Some(4));
    assert_eq!(handle_downloads_screen(&mut app), MenuEffect::Nothing);
    assert_eq!(app.current_screen, Screen::Downloads);
    assert_eq!(app.selected, Some(4));
}
