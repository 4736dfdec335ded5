//! The command router: decides what a parsed command asks for, and turns the
//! outcome of a client operation into the reply the user sees. No network
//! work happens here; the caller performs the fetch the plan asks for and
//! hands the outcome back.

use vstd::prelude::*;
use vstd::string::StrSliceExecFns;
use vstd::string::StringExecFns;
use crate::format::package_text;
use crate::format::search_text;
use crate::models::Pkg;
use crate::models::SearchResult;

verus! {

/// A parsed bot command, as the host framework hands it over. The argument
/// strings arrive exactly as the user typed them.
pub enum Command {
    Help,
    Pkg(String),
    Search(String),
}

/// A failed client operation. `NotFound`: the index answered HTTP 404.
/// `Upstream`: any other non-success status or transport failure. `Decode`:
/// the body did not match the expected shape. Each variant carries the
/// failure's display message, which the caller gives with any request URL
/// already stripped.
pub enum Failure {
    NotFound { message: String },
    Upstream { message: String },
    Decode { message: String },
}

/// The message a failure shows the user where the router does not replace it
/// with a friendlier one.
pub open spec fn failure_text(f: Failure) -> Seq<char> {
    match f {
        Failure::NotFound { message } => message@,
        Failure::Upstream { message } => message@,
        Failure::Decode { message } => message@,
    }
}

/// What the router decides to do with a command, before any network work.
pub enum Plan {
    DoNothing,
    SendHelp,
    FetchPackage { name: String },
    RunSearch { query: String },
}

/// A reply to hand to the messaging layer: markup text with a say over link
/// previews, or plain text shown verbatim.
pub enum Reply {
    Html { text: String, disable_preview: bool },
    Plain { text: String },
}

/// The characters the argument check treats as blank: the Unicode
/// `White_Space` set, the set a whitespace trim removes.
pub open spec fn is_space_char(c: char) -> bool {
    ||| c == ' '
    ||| c == '\u{0009}'
    ||| c == '\u{000A}'
    ||| c == '\u{000B}'
    ||| c == '\u{000C}'
    ||| c == '\u{000D}'
    ||| c == '\u{0085}'
    ||| c == '\u{00A0}'
    ||| c == '\u{1680}'
    ||| c == '\u{2000}'
    ||| c == '\u{2001}'
    ||| c == '\u{2002}'
    ||| c == '\u{2003}'
    ||| c == '\u{2004}'
    ||| c == '\u{2005}'
    ||| c == '\u{2006}'
    ||| c == '\u{2007}'
    ||| c == '\u{2008}'
    ||| c == '\u{2009}'
    ||| c == '\u{200A}'
    ||| c == '\u{2028}'
    ||| c == '\u{2029}'
    ||| c == '\u{202F}'
    ||| c == '\u{205F}'
    ||| c == '\u{3000}'
}

/// A string is blank when every character is whitespace; the empty string is
/// blank. A blank argument is swallowed silently.
pub open spec fn all_blank(s: Seq<char>) -> bool {
    forall|k: int| 0 <= k < s.len() ==> is_space_char(s[k])
}

fn char_is_space(c: char) -> (r: bool)
    ensures
        r == is_space_char(c),
{
    c == ' ' || c == '\u{0009}' || c == '\u{000A}' || c == '\u{000B}' || c == '\u{000C}' || c
        == '\u{000D}' || c == '\u{0085}' || c == '\u{00A0}' || c == '\u{1680}' || c == '\u{2000}'
        || c == '\u{2001}' || c == '\u{2002}' || c == '\u{2003}' || c == '\u{2004}' || c
        == '\u{2005}' || c == '\u{2006}' || c == '\u{2007}' || c == '\u{2008}' || c == '\u{2009}'
        || c == '\u{200A}' || c == '\u{2028}' || c == '\u{2029}' || c == '\u{202F}' || c
        == '\u{205F}' || c == '\u{3000}'
}

/// True exactly when the argument is empty or all whitespace.
pub fn is_blank(s: &str) -> (r: bool)
    ensures
        r == all_blank(s@),
{
    let n = s.unicode_len();
    let mut i: usize = 0;
    while i < n
        invariant
            n == s@.len(),
            i <= n,
            forall|k: int| 0 <= k < i ==> is_space_char(s@[k]),
        decreases n - i,
    {
        let c = s.get_char(i);
        if !char_is_space(c) {
            return false;
        }
        i += 1;
    }
    true
}

/// The routing rule: `help` asks for the command list; `pkg` and `search`
/// ask for a lookup with their argument, unless the argument is blank, in
/// which case nothing at all happens — no reply and no network call.
pub fn plan(cmd: Command) -> (r: Plan)
    ensures
        match cmd {
            Command::Help => r is SendHelp,
            Command::Pkg(arg) => if all_blank(arg@) {
                r is DoNothing
            } else {
                r matches Plan::FetchPackage { name } && name == arg
            },
            Command::Search(arg) => if all_blank(arg@) {
                r is DoNothing
            } else {
                r matches Plan::RunSearch { query } && query == arg
            },
        },
{
    match cmd {
        Command::Help => Plan::SendHelp,
        Command::Pkg(arg) => {
            if is_blank(arg.as_str()) {
                Plan::DoNothing
            } else {
                Plan::FetchPackage { name: arg }
            }
        },
        Command::Search(arg) => {
            if is_blank(arg.as_str()) {
                Plan::DoNothing
            } else {
                Plan::RunSearch { query: arg }
            }
        },
    }
}

/// Sorts a failed transport exchange into the error taxonomy: an HTTP 404
/// becomes `NotFound`, every other non-success status or network-level
/// failure `Upstream`. The display message — given with any request URL
/// already stripped — is kept either way.
pub fn classify_transport(is_not_found: bool, message: String) -> (r: Failure)
    ensures
        r is NotFound <==> is_not_found,
        !is_not_found ==> r is Upstream,
        failure_text(r) == message@,
{
    if is_not_found {
        Failure::NotFound { message }
    } else {
        Failure::Upstream { message }
    }
}

/// Sorts a body that would not decode into the error taxonomy: always a
/// `Decode` failure carrying the display message.
pub fn classify_decode(message: String) -> (r: Failure)
    ensures
        r is Decode,
        failure_text(r) == message@,
{
    Failure::Decode { message }
}

/// The tail shared by the "not found" and "no matches" messages: a link to
/// file a package request, with the name pre-filled.
pub open spec fn pakreq_text(name: Seq<char>) -> Seq<char> {
    "Didn't find what you need? <a href=\"https://github.com/AOSC-Dev/aosc-os-abbs/issues/new?title=pakreq%3A%20"@
        + name + "&body=URL%3A%20%0A%0ADescription%3A%20\">Request for the package</a>"@
}

/// The reply to a package lookup that the index answered with HTTP 404.
pub open spec fn not_found_text(name: Seq<char>) -> Seq<char> {
    "Package <b>"@ + name + "</b> not found\n\n"@ + pakreq_text(name)
}

/// The reply to a search that matched nothing.
pub open spec fn no_match_text(query: Seq<char>) -> Seq<char> {
    "No matching package for <b>"@ + query + "</b>\n\n"@ + pakreq_text(query)
}

fn push_pakreq(s: &mut String, name: &str)
    ensures
        final(s)@ == old(s)@ + pakreq_text(name@),
{
    s.append(
        "Didn't find what you need? <a href=\"https://github.com/AOSC-Dev/aosc-os-abbs/issues/new?title=pakreq%3A%20",
    );
    s.append(name);
    s.append("&body=URL%3A%20%0A%0ADescription%3A%20\">Request for the package</a>");
    proof {
        assert(s@ =~= old(s)@ + pakreq_text(name@));
    }
}

/// The reply to a `pkg` command, given what the lookup came back with: the
/// rendered package on success; the friendly "not found, file a request"
/// message, link previews off, on a 404; the failure's own message, shown
/// plain, on anything else.
pub fn pkg_reply(name: &str, outcome: Result<Pkg, Failure>) -> (r: Reply)
    ensures
        match outcome {
            Ok(p) => r matches Reply::Html { text, disable_preview } && text@ == package_text(p)
                && !disable_preview,
            Err(f) => match f {
                Failure::NotFound { .. } => r matches Reply::Html { text, disable_preview }
                    && text@ == not_found_text(name@) && disable_preview,
                _ => r matches Reply::Plain { text } && text@ == failure_text(f),
            },
        },
{
    match outcome {
        Ok(p) => Reply::Html { text: p.render(), disable_preview: false },
        Err(Failure::NotFound { .. }) => {
            let mut text: String = "Package <b>".to_owned();
            text.append(name);
            text.append("</b> not found\n\n");
            push_pakreq(&mut text, name);
            proof {
                assert(text@ =~= not_found_text(name@));
            }
            Reply::Html { text, disable_preview: true }
        },
        Err(Failure::Upstream { message }) => Reply::Plain { text: message },
        Err(Failure::Decode { message }) => Reply::Plain { text: message },
    }
}

/// The reply to a `search` command, given what the search came back with:
/// the failure's own message, shown plain, on any failure; the friendly "no
/// matches, file a request" message when nothing matched; the rendered
/// listing otherwise.
pub fn search_reply(query: &str, outcome: Result<SearchResult, Failure>, package_site_url: &str) -> (r:
    Reply)
    ensures
        match outcome {
            Ok(res) => if res.packages@.len() == 0 {
                r matches Reply::Html { text, disable_preview } && text@ == no_match_text(query@)
                    && !disable_preview
            } else {
                r matches Reply::Html { text, disable_preview } && text@ == search_text(
                    res,
                    query@,
                    package_site_url@,
                ) && !disable_preview
            },
            Err(f) => r matches Reply::Plain { text } && text@ == failure_text(f),
        },
{
    match outcome {
        Ok(res) => {
            if res.is_empty() {
                let mut text: String = "No matching package for <b>".to_owned();
                text.append(query);
                text.append("</b>\n\n");
                push_pakreq(&mut text, query);
                proof {
                    assert(text@ =~= no_match_text(query@));
                }
                Reply::Html { text, disable_preview: false }
            } else {
                Reply::Html {
                    text: res.fmt_result(query, package_site_url),
                    disable_preview: false,
                }
            }
        },
        Err(Failure::NotFound { message }) => Reply::Plain { text: message },
        Err(Failure::Upstream { message }) => Reply::Plain { text: message },
        Err(Failure::Decode { message }) => Reply::Plain { text: message },
    }
}

} // verus!
