//! The one-line commands that a launcher sends to the running popup.
use vstd::prelude::*;

use crate::text::{
    chars_of, concat, decimal, eq_str, int_to_chars, is_ws, no_ws, parse_i32, parse_i32_spec,
    split_words, string_of, trim, trim_chars, trim_end, trim_start, word_len, words,
};

verus! {

/// What the popup is asked to do.
#[derive(Clone, Copy, Debug, PartialEq, Eq, Structural)]
pub enum IpcCommand {
    Toggle,
    Show,
    Hide,
    ReloadTheme,
    ReloadConfig,
}

/// The wire name of a command.
pub open spec fn command_name(c: IpcCommand) -> Seq<char> {
    match c {
        IpcCommand::Toggle => "toggle"@,
        IpcCommand::Show => "show"@,
        IpcCommand::Hide => "hide"@,
        IpcCommand::ReloadTheme => "reload-theme"@,
        IpcCommand::ReloadConfig => "reload-config"@,
    }
}

/// The command a (trimmed) word names; `reload` is an alias of
/// `reload-theme`.
pub open spec fn command_of(v: Seq<char>) -> Option<IpcCommand> {
    let t = trim(v);
    if t == "toggle"@ {
        Some(IpcCommand::Toggle)
    } else if t == "show"@ {
        Some(IpcCommand::Show)
    } else if t == "hide"@ {
        Some(IpcCommand::Hide)
    } else if t == "reload"@ || t == "reload-theme"@ {
        Some(IpcCommand::ReloadTheme)
    } else if t == "reload-config"@ {
        Some(IpcCommand::ReloadConfig)
    } else {
        None
    }
}

impl IpcCommand {
    /// The wire name of this command.
    pub fn as_str(self) -> (r: &'static str)
        ensures
            r@ == command_name(self),
    {
        match self {
            IpcCommand::Toggle => "toggle",
            IpcCommand::Show => "show",
            IpcCommand::Hide => "hide",
            IpcCommand::ReloadTheme => "reload-theme",
            IpcCommand::ReloadConfig => "reload-config",
        }
    }

    fn parse_chars(value: &[char]) -> (r: Option<IpcCommand>)
        ensures
            r == command_of(value@),
    {
        let t = trim_chars(value);
        let t = t.as_slice();
        if eq_str(t, "toggle") {
            Some(IpcCommand::Toggle)
        } else if eq_str(t, "show") {
            Some(IpcCommand::Show)
        } else if eq_str(t, "hide") {
            Some(IpcCommand::Hide)
        } else if eq_str(t, "reload") || eq_str(t, "reload-theme") {
            Some(IpcCommand::ReloadTheme)
        } else if eq_str(t, "reload-config") {
            Some(IpcCommand::ReloadConfig)
        } else {
            None
        }
    }

    /// The command that `value` names, ignoring surrounding white space.
    pub fn parse(value: &str) -> (r: Option<IpcCommand>)
        ensures
            r == command_of(value@),
    {
        let v = chars_of(value);
        IpcCommand::parse_chars(v.as_slice())
    }
}

/// A command with the pointer position at which the popup should open.
#[derive(Clone, Copy, Debug, Eq)]
pub struct IpcMessage {
    pub command: IpcCommand,
    pub position: Option<(i32, i32)>,
}

impl PartialEq for IpcMessage {
    fn eq(&self, other: &IpcMessage) -> (r: bool) {
        self.command == other.command && match (self.position, other.position) {
            (Some((x1, y1)), Some((x2, y2))) => x1 == x2 && y1 == y2,
            (None, None) => true,
            _ => false,
        }
    }
}

impl vstd::std_specs::cmp::PartialEqSpecImpl for IpcMessage {
    open spec fn obeys_eq_spec() -> bool {
        true
    }

    open spec fn eq_spec(&self, other: &IpcMessage) -> bool {
        self.command == other.command && self.position == other.position
    }
}

/// The message a line holds: a command word, optionally followed by the
/// x and y position; a position that is missing or not two integers is
/// left out.
pub open spec fn message_of(line: Seq<char>) -> Option<IpcMessage> {
    let w = words(line);
    if w.len() == 0 {
        None
    } else {
        match command_of(w[0]) {
            None => None,
            Some(command) => Some(
                IpcMessage {
                    command,
                    position: if w.len() >= 3 && parse_i32_spec(w[1]) is Some && parse_i32_spec(
                        w[2],
                    ) is Some {
                        Some((parse_i32_spec(w[1]).unwrap(), parse_i32_spec(w[2]).unwrap()))
                    } else {
                        None
                    },
                },
            ),
        }
    }
}

/// The line that carries a message.
pub open spec fn message_line(m: IpcMessage) -> Seq<char> {
    match m.position {
        Some((x, y)) => command_name(m.command) + " "@ + decimal(x as int) + " "@ + decimal(
            y as int,
        ),
        None => command_name(m.command),
    }
}

impl IpcMessage {
    /// Reads a message from a line.
    pub fn parse(line: &str) -> (r: Option<IpcMessage>)
        ensures
            r == message_of(line@),
    {
        let chars = chars_of(line);
        let w = split_words(chars.as_slice());
        proof {
            assert(w@.len() == words(line@).len());
        }
        if w.len() == 0 {
            return None;
        }
        assert(w@[0]@ == words(line@)[0]);
        let command = match IpcCommand::parse_chars(w[0].as_slice()) {
            Some(c) => c,
            None => return None,
        };
        let mut position = None;
        if w.len() >= 3 {
            assert(w@[1]@ == words(line@)[1]);
            assert(w@[2]@ == words(line@)[2]);
            let x = parse_i32(w[1].as_slice());
            let y = parse_i32(w[2].as_slice());
            if let (Some(x), Some(y)) = (x, y) {
                position = Some((x, y));
            }
        }
        Some(IpcMessage { command, position })
    }

    /// The line that carries this message.
    pub fn as_str(&self) -> (r: String)
        ensures
            r@ == message_line(*self),
    {
        let name = chars_of(self.command.as_str());
        match self.position {
            Some((x, y)) => {
                let space = chars_of(" ");
                let xs = int_to_chars(x as i64);
                let ys = int_to_chars(y as i64);
                let a = concat(name.as_slice(), space.as_slice());
                let b = concat(a.as_slice(), xs.as_slice());
                let c = concat(b.as_slice(), space.as_slice());
                let d = concat(c.as_slice(), ys.as_slice());
                string_of(d.as_slice())
            },
            None => string_of(name.as_slice()),
        }
    }
}


/// A command name is read back as the command.
pub proof fn lemma_command_round_trip(c: IpcCommand)
    ensures
        command_of(command_name(c)) == Some(c),
{
    reveal_strlit("toggle");
    reveal_strlit("show");
    reveal_strlit("hide");
    reveal_strlit("reload");
    reveal_strlit("reload-theme");
    reveal_strlit("reload-config");
    let n = command_name(c);
    assert(no_ws(n));
    crate::text::lemma_trim_no_ws(n);
    assert("show"@[0] != "hide"@[0]);
    assert("toggle"@[0] != "reload"@[0]);
}

/// Every message survives being written as a line and read back.
pub proof fn lemma_message_round_trip(m: IpcMessage)
    ensures
        message_of(message_line(m)) == Some(m),
{
    lemma_command_round_trip(m.command);
    let n = command_name(m.command);
    reveal_strlit("toggle");
    reveal_strlit("show");
    reveal_strlit("hide");
    reveal_strlit("reload-theme");
    reveal_strlit("reload-config");
    assert(n.len() > 0 && no_ws(n));
    match m.position {
        Some((x, y)) => {
            let dx = decimal(x as int);
            let dy = decimal(y as int);
            crate::text::lemma_decimal_is_word(x as int);
            crate::text::lemma_decimal_is_word(y as int);
            crate::text::lemma_parse_i32_decimal(x);
            crate::text::lemma_parse_i32_decimal(y);
            let tail = dx + " "@ + dy;
            assert(message_line(m) =~= n + " "@ + tail);
            crate::text::lemma_words_cons(n, tail);
            crate::text::lemma_words_cons(dx, dy);
            crate::text::lemma_words_single(dy);
            assert(words(message_line(m)) =~= seq![n, dx, dy]);
        },
        None => {
            crate::text::lemma_words_single(n);
        },
    }
}

} // verus!
