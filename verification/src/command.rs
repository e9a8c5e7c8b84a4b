//! The input command parser: one operator-typed line becomes either a
//! control command or literal payload text. The command-escape character is
//! `/`; doubling it escapes it for literal sending.

use crate::codec::Setting;
use crate::filter::output_set_of;
use crate::filter::OutputSet;
use vstd::prelude::*;
use vstd::string::StrSliceExecFns;

verus! {

/// What one trimmed line directs the session to do.
pub enum Directive {
    /// The line was exactly `/?`.
    Help,
    /// The line began with `!`: render the rest without sending.
    Preview { text: Seq<char> },
    /// Literal payload: either a line with no leading command character, or
    /// an escaped line `//...` with exactly one leading `/` stripped.
    Send { text: Seq<char> },
    /// `/o` with a well-formed filter argument.
    SetOutput { set: OutputSet },
    /// `/i` with one of `u`, `h`, `b`, or `/$` with a long-form token.
    SetInput { setting: Setting },
    /// `/+` with a long-form token: enable that one output rendering.
    EnableOne { setting: Setting },
    /// `/-` with a long-form token: disable that one output rendering.
    DisableOne { setting: Setting },
    /// A `/` line with an unrecognized command or a malformed argument.
    Malformed,
}

/// The input encoding that a one-character argument denotes.
pub open spec fn setting_of(s: Seq<char>) -> Option<Setting> {
    if s == seq!['u'] {
        Some(Setting::Utf8)
    } else if s == seq!['h'] {
        Some(Setting::Hex)
    } else if s == seq!['b'] {
        Some(Setting::Base64)
    } else {
        None
    }
}

/// The input encoding that a long-form token denotes.
pub open spec fn long_setting_of(s: Seq<char>) -> Option<Setting> {
    if s == seq!['s', 't', 'r'] {
        Some(Setting::Utf8)
    } else if s == seq!['h', 'e', 'x'] {
        Some(Setting::Hex)
    } else if s == seq!['b', '6', '4'] {
        Some(Setting::Base64)
    } else {
        None
    }
}

/// The directive a trimmed line denotes, in order of precedence: the exact
/// help line, a `!` preview, the `//` escape, the `/o`, `/i`, `/+`, `/-`
/// and `/$` commands (malformed arguments included), any other `/` line as
/// malformed, and everything else as literal payload.
pub open spec fn spec_parse(s: Seq<char>) -> Directive {
    if s == seq!['/', '?'] {
        Directive::Help
    } else if s.len() >= 1 && s[0] == '!' {
        Directive::Preview { text: s.skip(1) }
    } else if s.len() >= 2 && s[0] == '/' && s[1] == '/' {
        Directive::Send { text: s.skip(1) }
    } else if s.len() >= 2 && s[0] == '/' && s[1] == 'o' {
        match output_set_of(s.skip(2)) {
            Some(set) => Directive::SetOutput { set },
            None => Directive::Malformed,
        }
    } else if s.len() >= 2 && s[0] == '/' && s[1] == 'i' {
        match setting_of(s.skip(2)) {
            Some(setting) => Directive::SetInput { setting },
            None => Directive::Malformed,
        }
    } else if s.len() >= 2 && s[0] == '/' && s[1] == '+' {
        match long_setting_of(s.skip(2)) {
            Some(setting) => Directive::EnableOne { setting },
            None => Directive::Malformed,
        }
    } else if s.len() >= 2 && s[0] == '/' && s[1] == '-' {
        match long_setting_of(s.skip(2)) {
            Some(setting) => Directive::DisableOne { setting },
            None => Directive::Malformed,
        }
    } else if s.len() >= 2 && s[0] == '/' && s[1] == '$' {
        match long_setting_of(s.skip(2)) {
            Some(setting) => Directive::SetInput { setting },
            None => Directive::Malformed,
        }
    } else if s.len() >= 1 && s[0] == '/' {
        Directive::Malformed
    } else {
        Directive::Send { text: s }
    }
}

/// The executable form of a parsed line; its view is the `Directive` it
/// stands for.
pub enum Command {
    Help,
    Preview { text: String },
    Send { text: String },
    SetOutput { set: OutputSet },
    SetInput { setting: Setting },
    EnableOne { setting: Setting },
    DisableOne { setting: Setting },
    Malformed,
}

impl View for Command {
    type V = Directive;

    open spec fn view(&self) -> Directive {
        match self {
            Command::Help => Directive::Help,
            Command::Preview { text } => Directive::Preview { text: text@ },
            Command::Send { text } => Directive::Send { text: text@ },
            Command::SetOutput { set } => Directive::SetOutput { set: *set },
            Command::SetInput { setting } => Directive::SetInput { setting: *setting },
            Command::EnableOne { setting } => Directive::EnableOne { setting: *setting },
            Command::DisableOne { setting } => Directive::DisableOne { setting: *setting },
            Command::Malformed => Directive::Malformed,
        }
    }
}

/// Parse the long-form input-encoding token of `/+`, `/-` and `/$`.
pub fn parse_long_setting(s: &str) -> (r: Option<Setting>)
    ensures
        r == long_setting_of(s@),
{
    let n = s.unicode_len();
    if n == 3 {
        let c0 = s.get_char(0);
        let c1 = s.get_char(1);
        let c2 = s.get_char(2);
        proof {
            assert((c0 == 's' && c1 == 't' && c2 == 'r') ==> s@ =~= seq!['s', 't', 'r']);
            assert((c0 == 'h' && c1 == 'e' && c2 == 'x') ==> s@ =~= seq!['h', 'e', 'x']);
            assert((c0 == 'b' && c1 == '6' && c2 == '4') ==> s@ =~= seq!['b', '6', '4']);
        }
        if c0 == 's' && c1 == 't' && c2 == 'r' {
            Some(Setting::Utf8)
        } else if c0 == 'h' && c1 == 'e' && c2 == 'x' {
            Some(Setting::Hex)
        } else if c0 == 'b' && c1 == '6' && c2 == '4' {
            Some(Setting::Base64)
        } else {
            None
        }
    } else {
        None
    }
}

/// Parse the one-character input-encoding argument of `/i`.
pub fn parse_setting(s: &str) -> (r: Option<Setting>)
    ensures
        r == setting_of(s@),
{
    let n = s.unicode_len();
    if n == 1 {
        let c = s.get_char(0);
        proof {
            assert(c == 'u' ==> s@ =~= seq!['u']);
            assert(c == 'h' ==> s@ =~= seq!['h']);
            assert(c == 'b' ==> s@ =~= seq!['b']);
        }
        if c == 'u' {
            Some(Setting::Utf8)
        } else if c == 'h' {
            Some(Setting::Hex)
        } else if c == 'b' {
            Some(Setting::Base64)
        } else {
            None
        }
    } else {
        None
    }
}

/// Parse one trimmed operator line into a command.
pub fn parse_line(line: &str) -> (c: Command)
    ensures
        c@ == spec_parse(line@),
{
    let n = line.unicode_len();
    if n == 0 {
        return Command::Send { text: line.to_owned() };
    }
    let c0 = line.get_char(0);
    if n == 2 && c0 == '/' && line.get_char(1) == '?' {
        proof {
            assert(line@ =~= seq!['/', '?']);
        }
        Command::Help
    } else if c0 == '!' {
        Command::Preview { text: line.substring_char(1, n).to_owned() }
    } else if n >= 2 && c0 == '/' && line.get_char(1) == '/' {
        Command::Send { text: line.substring_char(1, n).to_owned() }
    } else if n >= 2 && c0 == '/' && line.get_char(1) == 'o' {
        match OutputSet::parse(line.substring_char(2, n)) {
            Some(set) => Command::SetOutput { set },
            None => Command::Malformed,
        }
    } else if n >= 2 && c0 == '/' && line.get_char(1) == 'i' {
        match parse_setting(line.substring_char(2, n)) {
            Some(setting) => Command::SetInput { setting },
            None => Command::Malformed,
        }
    } else if n >= 2 && c0 == '/' && line.get_char(1) == '+' {
        match parse_long_setting(line.substring_char(2, n)) {
            Some(setting) => Command::EnableOne { setting },
            None => Command::Malformed,
        }
    } else if n >= 2 && c0 == '/' && line.get_char(1) == '-' {
        match parse_long_setting(line.substring_char(2, n)) {
            Some(setting) => Command::DisableOne { setting },
            None => Command::Malformed,
        }
    } else if n >= 2 && c0 == '/' && line.get_char(1) == '$' {
        match parse_long_setting(line.substring_char(2, n)) {
            Some(setting) => Command::SetInput { setting },
            None => Command::Malformed,
        }
    } else if c0 == '/' {
        Command::Malformed
    } else {
        Command::Send { text: line.to_owned() }
    }
}

/// What line-end trimming leaves: one trailing newline is removed, then one
/// trailing carriage return.
pub open spec fn trimmed(s: Seq<char>) -> Seq<char> {
    let t = if s.len() > 0 && s[s.len() - 1] == '\n' {
        s.drop_last()
    } else {
        s
    };
    if t.len() > 0 && t[t.len() - 1] == '\r' {
        t.drop_last()
    } else {
        t
    }
}

/// Strip the line terminator an operator's enter key appended: one trailing
/// `\n` if present, then one trailing `\r`.
pub fn trim_line(line: &str) -> (r: String)
    ensures
        r@ == trimmed(line@),
{
    let mut n = line.unicode_len();
    if n > 0 && line.get_char(n - 1) == '\n' {
        n -= 1;
    }
    if n > 0 && line.get_char(n - 1) == '\r' {
        n -= 1;
    }
    proof {
        assert(line@.subrange(0, n as int) =~= trimmed(line@));
    }
    line.substring_char(0, n).to_owned()
}

} // verus!
