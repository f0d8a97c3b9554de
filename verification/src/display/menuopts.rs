//! The fixed texts of the interface: the labels of the chosen options, the
//! prompts of the input screens, the alerts and the entries of the menus.

use vstd::prelude::*;

verus! {

pub const DISPLAY_OPT_VERBOSE: &'static str = " Verbose";

pub const DISPLAY_OPT_URL: &'static str = " URL: ";

pub const DISPLAY_OPT_HEADERS: &'static str = " Headers: ";

pub const DISPLAY_OPT_OUTFILE: &'static str = " Outfile: ";

pub const DISPLAY_OPT_COMMAND_SAVED: &'static str = " Command will be saved";

pub const DISPLAY_OPT_MAX_REC: &'static str = " Recursion level: ";

pub const DISPLAY_OPT_AUTH: &'static str = " Authentication: ";

pub const DISPLAY_OPT_TOKEN_SAVED: &'static str = " Token will be saved";

pub const DISPLAY_OPT_UNIX_SOCKET: &'static str = " Unix socket: ";

pub const DISPLAY_OPT_FOLLOW_REDIRECTS: &'static str = " Follow redirects";

pub const DISPLAY_OPT_COOKIE: &'static str = " Cookie: ";

pub const DISPLAY_OPT_PROGRESS_BAR: &'static str = " Progress bar enabled";

pub const DISPLAY_OPT_FAIL_ON_ERROR: &'static str = " Fail on error";

pub const DISPLAY_OPT_PROXY_TUNNEL: &'static str = " Proxy tunnel enabled";

pub const DISPLAY_OPT_CA_PATH: &'static str = " CA path: ";

pub const DISPLAY_OPT_CERT_INFO: &'static str = " Certificate info requested";

pub const DISPLAY_OPT_USERAGENT: &'static str = " User agent: ";

pub const DISPLAY_OPT_REFERRER: &'static str = " Referrer: ";

pub const DISPLAY_OPT_MATCH_WILDCARD: &'static str = " Match wildcard";

pub const DISPLAY_OPT_TCP_KEEPALIVE: &'static str = " TCP keepalive enabled";

pub const DISPLAY_OPT_UNRESTRICTED_AUTH: &'static str = " Send authentication to redirected hosts ";

pub const DISPLAY_OPT_UNRESTRICTED_AUTH_MARK: &'static str = "󰄨";

pub const DISPLAY_OPT_MAX_REDIRECTS: &'static str = " Max redirects: ";

pub const DISPLAY_OPT_UPLOAD: &'static str = " Upload file: ";

pub const DISPLAY_OPT_BODY: &'static str = " Request body: ";

pub const INPUT_OPT_URL_PREFIX: &'static str = "Enter a URL for your ";

pub const INPUT_OPT_URL_SUFFIX: &'static str = "\n and press Enter";

pub const INPUT_OPT_HEADERS: &'static str = "Enter a header as name:value and press Enter";

pub const INPUT_OPT_REC_DOWNLOAD: &'static str = "Enter the recursion level and press Enter";

pub const INPUT_OPT_AUTH_BASIC: &'static str = "Enter username:password and press Enter";

pub const INPUT_OPT_AUTH_BEARER: &'static str = "Enter your API token and press Enter";

pub const INPUT_OPT_AUTH_ANY: &'static str = "Enter your credentials and press Enter";

pub const INPUT_OPT_BASIC: &'static str = "Enter a value and press Enter";

pub const AWS_AUTH_MSG: &'static str =
    "Alert: AWS Signature V4 authentication reads AWS_ACCESS_KEY_ID, AWS_SECRET_ACCESS_KEY and AWS_DEFAULT_REGION";

pub const AWS_AUTH_ERROR_MSG: &'static str =
    "Error: AWS Signature V4 authentication needs AWS_ACCESS_KEY_ID, AWS_SECRET_ACCESS_KEY and AWS_DEFAULT_REGION";

pub const NTLM_AUTH_MSG: &'static str = "Alert: NTLM Auth Enabled";

pub const NO_HEADERS_MSG: &'static str = "No headers found";

pub const NO_COMMAND_MSG: &'static str = "No command to write output for";

pub const DOWNLOAD_OUTPUT_MSG: &'static str = "downloads output is written by default";

pub const NO_OUTFILE_MSG: &'static str = "No output file chosen";

pub const NO_RESPONSE_MSG: &'static str = "No response to write";

pub const CLIPBOARD_ERROR_MSG: &'static str = "Failed to copy to clipboard";

pub const COMMAND_NOT_SAVED_MSG: &'static str = "Command failed to save";

pub const ERROR_EMPTY_NUMBER: &'static str = "Enter a number";

pub const ERROR_INVALID_NUMBER: &'static str = "Only decimal digits are accepted";

pub const ERROR_NUMBER_TOO_LARGE: &'static str = "The number is too large";

pub const HOME_MENU_REQUEST: &'static str = "Build and run a new HTTP request";

pub const HOME_MENU_DOWNLOAD: &'static str = "Build and run a new download";

pub const HOME_MENU_KEYS: &'static str = "View stored API keys";

pub const HOME_MENU_COMMANDS: &'static str = "View saved commands";

pub const REQUEST_MENU_URL: &'static str = "Add a URL";

pub const REQUEST_MENU_AUTH: &'static str = "Add authentication";

pub const REQUEST_MENU_HEADERS: &'static str = "Add a header";

pub const REQUEST_MENU_VERBOSE: &'static str = "Enable verbose output";

pub const REQUEST_MENU_COOKIE: &'static str = "Add a cookie";

pub const REQUEST_MENU_REFERRER: &'static str = "Add a referrer";

pub const REQUEST_MENU_USERAGENT: &'static str = "Specify a user agent";

pub const REQUEST_MENU_CA_PATH: &'static str = "Specify a CA path";

pub const REQUEST_MENU_MAX_REDIRECTS: &'static str = "Specify the maximum of redirects";

pub const REQUEST_MENU_UNIX_SOCKET: &'static str = "Connect through a Unix socket";

pub const REQUEST_MENU_SAVE_COMMAND: &'static str = "Save this command";

pub const REQUEST_MENU_SAVE_TOKEN: &'static str = "Save the token";

pub const REQUEST_MENU_EXECUTE: &'static str = "Execute the command";

pub const DOWNLOAD_MENU_DEPTH: &'static str = "Specify the recursion level";

pub const DOWNLOAD_MENU_URL: &'static str = "Add a URL";

pub const DOWNLOAD_MENU_OUTFILE: &'static str = "Specify the output file";

pub const DOWNLOAD_MENU_EXECUTE: &'static str = "Execute the command";

pub const AUTH_MENU_BASIC: &'static str = "Basic";

pub const AUTH_MENU_BEARER: &'static str = "Bearer";

pub const AUTH_MENU_DIGEST: &'static str = "Digest";

pub const AUTH_MENU_AWS: &'static str = "AWS Signature V4";

pub const AUTH_MENU_SPNEGO: &'static str = "SPNEGO";

pub const AUTH_MENU_NTLM: &'static str = "NTLM";

pub const RESPONSE_MENU_WRITE: &'static str = "Write the response to a file";

pub const RESPONSE_MENU_HEADERS: &'static str = "View the response headers";

pub const RESPONSE_MENU_BODY: &'static str = "View the response body";

pub const RESPONSE_MENU_COPY: &'static str = "Copy the command to the clipboard";

pub const RESPONSE_MENU_HOME: &'static str = "Return to the main menu";

pub const HOME_MENU_ADD_KEY: &'static str = "Store a new API key";

} // verus!
