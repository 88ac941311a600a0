//! Starting the rendering engine: the fixed arguments and environment it needs
//! in a read-only, non-interactive sandbox, and the wording of launch failures.

use vstd::prelude::*;
use vstd::string::StringExecFns;
use crate::text::{decimal, render_decimal};

verus! {

/// How many times a launch is attempted before the invocation gives up.
pub const MAX_LAUNCH_ATTEMPTS: u32 = 3;

/// The pause between two launch attempts, in milliseconds.
pub const RETRY_DELAY_MS: u64 = 1000;

/// How long the engine may stay silent before its session is given up, in seconds.
pub const IDLE_TIMEOUT_SECS: u64 = 10;

/// The directory that takes every file the engine writes.
pub open spec fn scratch() -> Seq<char> {
    "/tmp"@
}

/// The arguments of every launch, in order.
pub open spec fn launch_flags() -> Seq<&'static str> {
    seq![
        "--no-sandbox",
        "--disable-setuid-sandbox",
        "--disable-dev-shm-usage",
        "--disable-gpu",
        "--disable-gpu-sandbox",
        "--single-process",
        "--no-zygote",
        "--headless=new",
        "--hide-scrollbars",
        "--mute-audio",
        "--disable-extensions",
        "--disable-plugins",
        "--disable-default-apps",
        "--disable-sync",
        "--disable-translate",
        "--disable-web-security",
        "--disable-features=TranslateUI,BlinkGenPropertyTrees",
        "--disable-background-networking",
        "--disable-background-timer-throttling",
        "--disable-renderer-backgrounding",
        "--disable-backgrounding-occluded-windows",
        "--disable-ipc-flooding-protection",
        "--memory-pressure-off",
        "--max_old_space_size=4096",
        "--disable-client-side-phishing-detection",
        "--disable-component-extensions-with-background-pages",
        "--disable-background-mode",
        "--no-first-run",
        "--no-default-browser-check",
        "--disable-logging",
        "--disable-gpu-logging",
        "--silent",
        "--font-render-hinting=none",
        "--disable-font-subpixel-positioning",
        "--disable-web-security",
        "--disable-features=VizDisplayCompositor",
        "--ignore-certificate-errors",
        "--ignore-ssl-errors",
        "--ignore-certificate-errors-spki-list",
        "--data-path=/tmp/chrome-data",
        "--disk-cache-dir=/tmp/chrome-cache",
        "--homedir=/tmp",
        "--user-data-dir=/tmp/chrome-user-data",
    ]
}

/// The arguments of every launch, built anew on each call so that no attempt
/// sees what another did to its list.
pub fn launch_arguments() -> (args: Vec<&'static str>)
    ensures
        args@ == launch_flags(),
{
    let args = vec![
        "--no-sandbox",
        "--disable-setuid-sandbox",
        "--disable-dev-shm-usage",
        "--disable-gpu",
        "--disable-gpu-sandbox",
        "--single-process",
        "--no-zygote",
        "--headless=new",
        "--hide-scrollbars",
        "--mute-audio",
        "--disable-extensions",
        "--disable-plugins",
        "--disable-default-apps",
        "--disable-sync",
        "--disable-translate",
        "--disable-web-security",
        "--disable-features=TranslateUI,BlinkGenPropertyTrees",
        "--disable-background-networking",
        "--disable-background-timer-throttling",
        "--disable-renderer-backgrounding",
        "--disable-backgrounding-occluded-windows",
        "--disable-ipc-flooding-protection",
        "--memory-pressure-off",
        "--max_old_space_size=4096",
        "--disable-client-side-phishing-detection",
        "--disable-component-extensions-with-background-pages",
        "--disable-background-mode",
        "--no-first-run",
        "--no-default-browser-check",
        "--disable-logging",
        "--disable-gpu-logging",
        "--silent",
        "--font-render-hinting=none",
        "--disable-font-subpixel-positioning",
        "--disable-web-security",
        "--disable-features=VizDisplayCompositor",
        "--ignore-certificate-errors",
        "--ignore-ssl-errors",
        "--ignore-certificate-errors-spki-list",
        "--data-path=/tmp/chrome-data",
        "--disk-cache-dir=/tmp/chrome-cache",
        "--homedir=/tmp",
        "--user-data-dir=/tmp/chrome-user-data",
    ];
    assert(args@ =~= launch_flags());
    args
}

/// The environment the engine inherits: variable and value, in the order in
/// which they are set. A later entry for the same variable would replace an
/// earlier one; the table names each variable once.
pub open spec fn environment_table() -> Seq<(&'static str, &'static str)> {
    seq![
        ("HOME", "/tmp"),
        ("XDG_CONFIG_HOME", "/tmp/.config"),
        ("XDG_CACHE_HOME", "/tmp/.cache"),
        ("XDG_DATA_HOME", "/tmp/.local/share"),
        ("FONTCONFIG_PATH", "/opt/chromium"),
        ("FONTCONFIG_FILE", "/opt/chromium/fonts.conf"),
        ("CHROME_NO_SANDBOX", "1"),
        ("DISPLAY", ":99"),
        ("LD_LIBRARY_PATH", "/opt/chromium:/opt/chromium/lib:/opt/chromium/swiftshader"),
    ]
}

/// The environment the engine inherits.
pub fn environment() -> (table: Vec<(&'static str, &'static str)>)
    ensures
        table@ == environment_table(),
{
    let table = vec![
        ("HOME", "/tmp"),
        ("XDG_CONFIG_HOME", "/tmp/.config"),
        ("XDG_CACHE_HOME", "/tmp/.cache"),
        ("XDG_DATA_HOME", "/tmp/.local/share"),
        ("FONTCONFIG_PATH", "/opt/chromium"),
        ("FONTCONFIG_FILE", "/opt/chromium/fonts.conf"),
        ("CHROME_NO_SANDBOX", "1"),
        ("DISPLAY", ":99"),
        ("LD_LIBRARY_PATH", "/opt/chromium:/opt/chromium/lib:/opt/chromium/swiftshader"),
    ];
    assert(table@ =~= environment_table());
    table
}

/// The launch arguments switch off the engine's own sandbox and its GPU, keep
/// it in one process, run it headless, and point each directory it writes to
/// into the scratch directory.
pub proof fn lemma_required_flags()
    ensures
        launch_flags().contains("--no-sandbox"),
        launch_flags().contains("--disable-gpu"),
        launch_flags().contains("--single-process"),
        launch_flags().contains("--no-zygote"),
        launch_flags().contains("--headless=new"),
        launch_flags().contains("--data-path=/tmp/chrome-data"),
        launch_flags().contains("--disk-cache-dir=/tmp/chrome-cache"),
        launch_flags().contains("--user-data-dir=/tmp/chrome-user-data"),
        scratch().is_prefix_of("/tmp/chrome-data"@),
        scratch().is_prefix_of("/tmp/chrome-cache"@),
        scratch().is_prefix_of("/tmp/chrome-user-data"@),
{
    let f = launch_flags();
    assert(f[0] == "--no-sandbox");
    assert(f[3] == "--disable-gpu");
    assert(f[5] == "--single-process");
    assert(f[6] == "--no-zygote");
    assert(f[7] == "--headless=new");
    assert(f[39] == "--data-path=/tmp/chrome-data");
    assert(f[40] == "--disk-cache-dir=/tmp/chrome-cache");
    assert(f[42] == "--user-data-dir=/tmp/chrome-user-data");
    reveal_strlit("/tmp");
    reveal_strlit("/tmp/chrome-data");
    reveal_strlit("/tmp/chrome-cache");
    reveal_strlit("/tmp/chrome-user-data");
    assert(scratch() =~= "/tmp/chrome-data"@.subrange(0, 4));
    assert(scratch() =~= "/tmp/chrome-cache"@.subrange(0, 4));
    assert(scratch() =~= "/tmp/chrome-user-data"@.subrange(0, 4));
}

/// No variable is set twice, so setting the table again changes nothing.
pub proof fn lemma_environment_names_once()
    ensures
        forall|i: int, j: int|
            0 <= i < j < environment_table().len() ==> environment_table()[i].0@
                != environment_table()[j].0@,
{
    reveal_strlit("HOME");
    reveal_strlit("XDG_CONFIG_HOME");
    reveal_strlit("XDG_CACHE_HOME");
    reveal_strlit("XDG_DATA_HOME");
    reveal_strlit("FONTCONFIG_PATH");
    reveal_strlit("FONTCONFIG_FILE");
    reveal_strlit("CHROME_NO_SANDBOX");
    reveal_strlit("DISPLAY");
    reveal_strlit("LD_LIBRARY_PATH");
    let t = environment_table();
    assert forall|i: int, j: int| 0 <= i < j < t.len() implies t[i].0@ != t[j].0@ by {
        assert(t[i].0@.len() != t[j].0@.len() || t[i].0@[0] != t[j].0@[0] || t[i].0@[11]
            != t[j].0@[11]);
    }
}

/// The record of one failed attempt.
pub open spec fn attempt_report(attempt: nat, cause: Seq<char>) -> Seq<char> {
    "Attempt "@ + decimal(attempt) + ": "@ + cause
}

/// The detail of a launch given up after `attempts` attempts, where
/// `last_error` is the record of the last one, or empty where none was made.
pub open spec fn exhausted(attempts: nat, last_error: Seq<char>) -> Seq<char> {
    "Browser launch failed after retries: All "@ + decimal(attempts)
        + " launch attempts failed. Last error: "@ + last_error
}

/// The detail of a launch whose configuration the engine's driver turned down.
pub open spec fn refused(cause: Seq<char>) -> Seq<char> {
    "Browser launch failed after retries: Browser launch failed: "@ + cause
}

/// Writes the record of one failed attempt.
pub fn attempt_record(attempt: u32, cause: &str) -> (s: String)
    ensures
        s@ == attempt_report(attempt as nat, cause@),
{
    let mut s = String::from_str("Attempt ");
    s.append(render_decimal(attempt as u64).as_str());
    s.append(": ");
    s.append(cause);
    s
}

/// Writes the detail of a launch given up after `attempts` attempts.
pub fn exhausted_detail(attempts: u32, last_error: &str) -> (s: String)
    ensures
        s@ == exhausted(attempts as nat, last_error@),
{
    let mut s = String::from_str("Browser launch failed after retries: All ");
    s.append(render_decimal(attempts as u64).as_str());
    s.append(" launch attempts failed. Last error: ");
    s.append(last_error);
    s
}

/// Writes the detail of a launch whose configuration was turned down.
pub fn refused_detail(cause: &str) -> (s: String)
    ensures
        s@ == refused(cause@),
{
    let mut s = String::from_str("Browser launch failed after retries: Browser launch failed: ");
    s.append(cause);
    s
}

} // verus!
