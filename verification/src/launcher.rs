//! Opening a URL with the OS default handler.
//!
//! `open_external` hands any string to the platform's launcher; no URL
//! validation is performed. Each platform family has a fixed launcher
//! program and argument shape, with the URL always the final argument.

use vstd::prelude::*;

verus! {

/// The three desktop platform families the launcher mapping covers.
#[derive(Clone, Copy, PartialEq, Eq, Debug)]
pub enum Platform {
    Windows,
    MacOs,
    Other,
}

/// A launcher program together with its argument list, ready to spawn.
#[derive(PartialEq, Eq, Debug)]
pub struct LauncherInvocation {
    pub program: String,
    pub args: Vec<String>,
}

/// The launcher command and argument order for a platform: on Windows the
/// shell launcher with start semantics and an empty title argument, on macOS
/// the dedicated `open` launcher, elsewhere the generic desktop opener. The
/// mapping is total over the platform families and the URL is passed through
/// unmodified as the final argument, however malformed or empty it is.
pub fn launcher_invocation(platform: Platform, url: &str) -> (inv: LauncherInvocation)
    ensures
        platform is Windows ==> inv.program@ == "cmd"@ && inv.args@.len() == 4
            && inv.args@[0]@ == "/C"@ && inv.args@[1]@ == "start"@ && inv.args@[2]@ == ""@
            && inv.args@[3]@ == url@,
        platform is MacOs ==> inv.program@ == "open"@ && inv.args@.len() == 1
            && inv.args@[0]@ == url@,
        platform is Other ==> inv.program@ == "xdg-open"@ && inv.args@.len() == 1
            && inv.args@[0]@ == url@,
        inv.args@.len() > 0 && inv.args@.last()@ == url@,
{
    match platform {
        Platform::Windows => {
            let mut args: Vec<String> = Vec::new();
            args.push(String::from_str("/C"));
            args.push(String::from_str("start"));
            args.push(String::from_str(""));
            args.push(String::from_str(url));
            LauncherInvocation { program: String::from_str("cmd"), args }
        },
        Platform::MacOs => {
            let mut args: Vec<String> = Vec::new();
            args.push(String::from_str(url));
            LauncherInvocation { program: String::from_str("open"), args }
        },
        Platform::Other => {
            let mut args: Vec<String> = Vec::new();
            args.push(String::from_str(url));
            LauncherInvocation { program: String::from_str("xdg-open"), args }
        },
    }
}

/// The outcome `open_external` reports once the spawn has been attempted:
/// success exactly when the spawn succeeded, and on failure the spawn
/// error's description behind a fixed prefix. The URL's content never
/// decides the outcome; only the spawn result does.
pub fn open_external_result(spawn_error: Option<String>) -> (r: Result<(), String>)
    ensures
        spawn_error is None <==> r is Ok,
        spawn_error matches Some(detail) ==> (r matches Err(message) && message@
            == "Failed to open URL: "@ + detail@),
{
    match spawn_error {
        None => Ok(()),
        Some(detail) => Err(String::from_str("Failed to open URL: ").concat(detail.as_str())),
    }
}

} // verus!
