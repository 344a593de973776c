//! The `command_json` protocol: routing a command name to its action, and the
//! replies the core writes itself (acknowledgement, version, in-band error).

use vstd::prelude::*;
use crate::error::Error;
use crate::ffi::json_char;

verus! {

/// The commands of the protocol.
#[derive(Clone, Copy, Debug, PartialEq, Eq, Structural)]
pub enum CommandKind {
    /// `{cmd:"load", candles}`: load a dataset.
    Load,
    /// `{cmd:"reset", seed?}`: reset the episode.
    Reset,
    /// `{cmd:"step", action}`: take a step.
    Step,
    /// `{cmd:"spec"}`: the derived space description.
    Spec,
    /// `{cmd:"version"}`: the crate version.
    Version,
}

/// Route a command: a known name maps to its command; a `step` without an
/// action is `BadAction("missing action")`; any other name is
/// `BadSpec("unknown cmd: <name>")`.
pub fn route(cmd: &str, has_action: bool) -> (r: Result<CommandKind, Error>)
    ensures
        cmd@ == "load"@ ==> r == Ok::<CommandKind, Error>(CommandKind::Load),
        cmd@ == "reset"@ ==> r == Ok::<CommandKind, Error>(CommandKind::Reset),
        cmd@ == "step"@ && has_action ==> r == Ok::<CommandKind, Error>(CommandKind::Step),
        cmd@ == "step"@ && !has_action ==> (r matches Err(Error::BadAction(m)) && m@
            == "missing action"@),
        cmd@ == "spec"@ ==> r == Ok::<CommandKind, Error>(CommandKind::Spec),
        cmd@ == "version"@ ==> r == Ok::<CommandKind, Error>(CommandKind::Version),
        cmd@ != "load"@ && cmd@ != "reset"@ && cmd@ != "step"@ && cmd@ != "spec"@ && cmd@
            != "version"@ ==> (r matches Err(Error::BadSpec(m)) && m@ == "unknown cmd: "@
            + cmd@),
{
    proof {
        reveal_strlit("load");
        reveal_strlit("reset");
        reveal_strlit("step");
        reveal_strlit("spec");
        reveal_strlit("version");
        assert("load"@[0] != "reset"@[0] && "load"@[0] != "step"@[0] && "load"@[0] != "spec"@[0]
            && "load"@[0] != "version"@[0]);
        assert("reset"@[0] != "step"@[0] && "reset"@[0] != "spec"@[0] && "reset"@[0]
            != "version"@[0]);
        assert("step"@[1] != "spec"@[1] && "step"@[0] != "version"@[0] && "spec"@[0]
            != "version"@[0]);
    }
    if crate::feeds::str_eq(cmd, "load") {
        Ok(CommandKind::Load)
    } else if crate::feeds::str_eq(cmd, "reset") {
        Ok(CommandKind::Reset)
    } else if crate::feeds::str_eq(cmd, "step") {
        if has_action {
            Ok(CommandKind::Step)
        } else {
            Err(Error::BadAction(String::from_str("missing action")))
        }
    } else if crate::feeds::str_eq(cmd, "spec") {
        Ok(CommandKind::Spec)
    } else if crate::feeds::str_eq(cmd, "version") {
        Ok(CommandKind::Version)
    } else {
        let mut m = String::from_str("unknown cmd: ");
        m.append(cmd);
        Err(Error::BadSpec(m))
    }
}

/// How `serde_json` writes one character inside a string literal: backspace
/// and form feed take the short forms `\b` and `\f`; every other character is
/// written as `json_char` writes it (`"` and `\` backslashed, `\n`, `\r`,
/// `\t`, the rest below U+0020 as `\u00xx` in lowercase hex, anything else
/// as itself).
pub open spec fn serde_char(c: char) -> Seq<char> {
    if c == '\u{8}' {
        seq!['\\', 'b']
    } else if c == '\u{c}' {
        seq!['\\', 'f']
    } else {
        json_char(c)
    }
}

/// The `serde_char` writing of every character, in order.
pub open spec fn serde_escaped(s: Seq<char>) -> Seq<char>
    decreases s.len(),
{
    if s.len() == 0 {
        Seq::empty()
    } else {
        serde_escaped(s.drop_last()) + serde_char(s.last())
    }
}

/// The JSON string literal `serde_json` writes for the text `s`.
pub open spec fn spec_serde_json_string(s: Seq<char>) -> Seq<char> {
    seq!['"'] + serde_escaped(s) + seq!['"']
}

/// Calls `serde_json::to_string` on a `&str`. Claims what its escape table and
/// `write_char_escape` do: the text is wrapped in double quotes and each
/// character is written as `serde_char` says. Writing a string into a byte
/// vector cannot fail, so the fallback to the empty string is never taken.
#[verifier::external_body]
fn json_text(s: &str) -> (r: String)
    ensures
        r@ == spec_serde_json_string(s@),
{
    serde_json::to_string(s).unwrap_or_default()
}

/// The reply to a refused command, `{"error":<message>,"ok":false}` (the keys in
/// the sorted order a JSON object is written in), given the message as a JSON
/// string literal.
pub open spec fn spec_error_envelope(quoted_message: Seq<char>) -> Seq<char> {
    "{\"error\":"@ + quoted_message + ",\"ok\":false}"@
}

/// The in-band reply to a refused command whose message, written as a JSON
/// string literal, is `quoted_message`.
pub fn error_envelope(quoted_message: &str) -> (r: String)
    ensures
        r@ == spec_error_envelope(quoted_message@),
{
    let mut r = String::from_str("{\"error\":");
    r.append(quoted_message);
    r.append(",\"ok\":false}");
    r
}

/// The in-band reply to a refused command.
pub fn error_reply(e: &Error) -> (r: String)
    ensures
        r@ == spec_error_envelope(spec_serde_json_string(e.spec_message())),
{
    let m = e.message();
    let quoted = json_text(m.as_str());
    error_envelope(quoted.as_str())
}

/// The reply to a successful `load`.
pub fn ok_reply() -> (r: String)
    ensures
        r@ == "{\"ok\":true}"@,
{
    String::from_str("{\"ok\":true}")
}

/// The reply to `version`.
pub fn version_reply() -> (r: String)
    ensures
        r@ == "{\"version\":\""@ + "0.1.4"@ + "\"}"@,
{
    let mut r = String::from_str("{\"version\":\"");
    r.append(crate::version());
    r.append("\"}");
    r
}

} // verus!
