//! The crash report: the text a user copies into a bug report when the
//! application panics.

use vstd::prelude::*;

verus! {

/// What the crash report says about the application.
#[derive(Clone, Debug)]
pub struct AppInfo {
    pub name: &'static str,
    pub additional_text: &'static str,
    pub links: Vec<Link>,
}

/// A link shown in the crash report.
#[derive(Clone, Copy, Debug)]
pub struct Link {
    pub label: &'static str,
    pub url: &'static str,
}

/// The text shown in place of a panic payload that is not a string.
pub open spec fn not_a_string() -> Seq<char> {
    "[PAYLOAD IS NOT A STRING]"@
}

/// The crash report: four paragraphs separated by blank lines.
pub open spec fn spec_details(
    payload: Option<Seq<char>>,
    formatted: Seq<char>,
    name: Seq<char>,
    package_name: Seq<char>,
    package_version: Seq<char>,
) -> Seq<char> {
    let shown = match payload {
        Some(p) => p,
        None => not_a_string(),
    };
    "**Panic report from "@ + shown + "**"@ + "\n\n"@ + name + "\n\n"@ + "Package name: `"@
        + package_name + "`\nVersion: `"@ + package_version + "`"@ + "\n\n"@
        + "Panic info:\n```\n"@ + formatted + "\n```"@
}

/// Builds a plain-text summary of the panic, suitable for copying into a
/// bug report: who panicked, the application, its package and version, and
/// the panic as formatted.
pub fn details(
    panic_payload_display: Option<&String>,
    panic_formatted: &str,
    app_info: &AppInfo,
    package_name: &str,
    package_version: &str,
) -> (report: String)
    ensures
        report@ == spec_details(
            match panic_payload_display {
                Some(p) => Some(p@),
                None => None,
            },
            panic_formatted@,
            app_info.name@,
            package_name@,
            package_version@,
        ),
{
    let payload_display: &str = match panic_payload_display {
        Some(p) => p.as_str(),
        None => "[PAYLOAD IS NOT A STRING]",
    };
    let mut report = String::from_str("**Panic report from ");
    report.append(payload_display);
    report.append("**");
    report.append("\n\n");
    report.append(app_info.name);
    report.append("\n\n");
    report.append("Package name: `");
    report.append(package_name);
    report.append("`\nVersion: `");
    report.append(package_version);
    report.append("`");
    report.append("\n\n");
    report.append("Panic info:\n```\n");
    report.append(panic_formatted);
    report.append("\n```");
    report
}

/// A human-readable panic message: the payload as a `&str` if it is one,
/// else as a `String` if it is one, else nothing.
pub fn extract_payload_display(as_str: Option<&str>, as_string: Option<&String>) -> (display: Option<String>)
    ensures
        match as_str {
            Some(s) => display matches Some(d) && d@ == s@,
            None => match as_string {
                Some(s) => display matches Some(d) && d@ == s@,
                None => display is None,
            },
        },
{
    match as_str {
        Some(s) => Some(String::from_str(s)),
        None => match as_string {
            Some(s) => Some(s.clone()),
            None => None,
        },
    }
}

} // verus!
