//! What a line typed at the prompt asks for: a chat message, a command, or
//! an error to show.

use vstd::prelude::*;
use vstd::std_specs::iter::IteratorSpec;

use crate::utils::{UIAction, UIActionModel, UIHelpCommand};

verus! {

/// The characters with Unicode's White_Space property.
pub open spec fn is_white(c: char) -> bool {
    let u = c as u32;
    (0x9 <= u <= 0xd) || u == 0x20 || u == 0x85 || u == 0xa0 || u == 0x1680 || (0x2000 <= u
        <= 0x200a) || u == 0x2028 || u == 0x2029 || u == 0x202f || u == 0x205f || u == 0x3000
}

/// `s` without its leading white space.
pub open spec fn trim_start(s: Seq<char>) -> Seq<char>
    decreases s.len(),
{
    if s.len() > 0 && is_white(s[0]) {
        trim_start(s.drop_first())
    } else {
        s
    }
}

/// The index of the first space in `s`, or its length if it has none.
pub open spec fn first_space(s: Seq<char>) -> nat
    decreases s.len(),
{
    if s.len() == 0 || s[0] == ' ' {
        0
    } else {
        1 + first_space(s.drop_first())
    }
}

/// What a prompt line asks for.
pub enum PromptCommand {
    /// Hand this action to the engine.
    Act(UIAction),
    /// Leave the chat.
    Quit,
    /// Show the list of commands.
    Help,
    /// Show this error to the user.
    Error(String),
}

pub enum PromptModel {
    Act(UIActionModel),
    Quit,
    Help,
    Error(Seq<char>),
}

impl View for PromptCommand {
    type V = PromptModel;

    open spec fn view(&self) -> PromptModel {
        match self {
            PromptCommand::Act(a) => PromptModel::Act(a@),
            PromptCommand::Quit => PromptModel::Quit,
            PromptCommand::Help => PromptModel::Help,
            PromptCommand::Error(e) => PromptModel::Error(e@),
        }
    }
}

/// A line that starts with `/` (after leading white space) is a command: its
/// first space-separated word names it; `/alias` takes exactly one word
/// more. Any other line is a chat message, without its leading white space.
pub open spec fn prompt_meaning(line: Seq<char>) -> PromptModel {
    let t = trim_start(line);
    if t.len() > 0 && t[0] == '/' {
        let n = first_space(t);
        let cmd = t.take(n as int);
        let rest = t.skip((n + 1) as int);
        if cmd == "/dm"@ || cmd == "/list"@ || cmd == "/topic"@ {
            PromptModel::Error("Not implemented."@)
        } else if cmd == "/exit"@ || cmd == "/q"@ {
            PromptModel::Quit
        } else if cmd == "/alias"@ {
            if n < t.len() && first_space(rest) == rest.len() {
                PromptModel::Act(UIActionModel::ChangeAlias(rest))
            } else {
                PromptModel::Error("Not enough arguments. Usage: /alias <your_alias>"@)
            }
        } else if cmd == "/help"@ {
            PromptModel::Help
        } else {
            PromptModel::Error("Unknown command \""@ + cmd + "\"."@)
        }
    } else {
        PromptModel::Act(UIActionModel::SendMessage(t))
    }
}

/// Whether `c` has Unicode's White_Space property.
pub fn char_is_whitespace(c: char) -> (r: bool)
    ensures
        r == is_white(c),
{
    let u = c as u32;
    (0x9 <= u && u <= 0xd) || u == 0x20 || u == 0x85 || u == 0xa0 || u == 0x1680 || (0x2000 <= u
        && u <= 0x200a) || u == 0x2028 || u == 0x2029 || u == 0x202f || u == 0x205f || u == 0x3000
}

/// The characters of `s`, in order.
fn chars_of(s: &str) -> (r: Vec<char>)
    ensures
        r@ == s@,
{
    let mut it = s.chars();
    let mut out: Vec<char> = Vec::new();
    loop
        invariant
            it.obeys_prophetic_iter_laws(),
            it.decrease() is Some,
            out@ + it.remaining() == s@,
        ensures
            out@ == s@,
        decreases it.decrease()->0,
    {
        match it.next() {
            Some(c) => {
                out.push(c);
                assert(out@ + it.remaining() =~= s@);
            },
            None => {
                assert(out@ =~= s@);
                break;
            },
        }
    }
    out
}

/// Relies on std's `String: FromIterator<char>`: the characters in order.
#[verifier::external_body]
fn string_of(c: &[char]) -> (r: String)
    ensures
        r@ == c@,
{
    c.iter().collect()
}

fn skip_white(s: &Vec<char>) -> (r: usize)
    ensures
        r <= s@.len(),
        trim_start(s@) == s@.skip(r as int),
{
    let mut i: usize = 0;
    assert(s@.skip(0) =~= s@);
    while i < s.len() && char_is_whitespace(s[i])
        invariant
            i <= s@.len(),
            trim_start(s@) == trim_start(s@.skip(i as int)),
        decreases s@.len() - i,
    {
        assert(s@.skip(i as int).drop_first() == s@.skip(i + 1));
        i = i + 1;
    }
    proof {
        lemma_trim_start_stops(s@, i);
    }
    i
}

proof fn lemma_trim_start_stops(s: Seq<char>, i: usize)
    requires
        i <= s.len(),
        i == s.len() || !is_white(s[i as int]),
    ensures
        trim_start(s.skip(i as int)) == s.skip(i as int),
{
}

fn find_space(s: &Vec<char>, start: usize) -> (r: usize)
    requires
        start <= s@.len(),
    ensures
        r == start + first_space(s@.skip(start as int)),
        r <= s@.len(),
{
    let mut k: usize = start;
    while k < s.len() && s[k] != ' '
        invariant
            start <= k <= s@.len(),
            start + first_space(s@.skip(start as int)) == k + first_space(s@.skip(k as int)),
        decreases s@.len() - k,
    {
        assert(s@.skip(k as int).drop_first() == s@.skip(k + 1));
        k = k + 1;
    }
    k
}

/// What the prompt line `line` asks for.
pub fn parse_prompt(line: &str) -> (r: PromptCommand)
    ensures
        r@ == prompt_meaning(line@),
{
    let s = chars_of(line);
    let start = skip_white(&s);
    let ghost t = s@.skip(start as int);
    if start < s.len() && s[start] == '/' {
        let n = find_space(&s, start);
        let cmd = string_of(vstd::slice::slice_subrange(s.as_slice(), start, n));
        assert(cmd@ == t.take((n - start) as int));
        if cmd == String::from_str("/dm") || cmd == String::from_str("/list") || cmd
            == String::from_str("/topic") {
            PromptCommand::Error(String::from_str("Not implemented."))
        } else if cmd == String::from_str("/exit") || cmd == String::from_str("/q") {
            PromptCommand::Quit
        } else if cmd == String::from_str("/alias") {
            if n < s.len() {
                let m = find_space(&s, n + 1);
                assert(s@.skip(n + 1) == t.skip(n - start + 1));
                if m == s.len() {
                    let rest = string_of(vstd::slice::slice_subrange(s.as_slice(), n + 1, m));
                    assert(rest@ == t.skip(n - start + 1));
                    PromptCommand::Act(UIAction::ChangeAlias(rest))
                } else {
                    PromptCommand::Error(
                        String::from_str("Not enough arguments. Usage: /alias <your_alias>"),
                    )
                }
            } else {
                PromptCommand::Error(
                    String::from_str("Not enough arguments. Usage: /alias <your_alias>"),
                )
            }
        } else if cmd == String::from_str("/help") {
            PromptCommand::Help
        } else {
            let text = String::from_str("Unknown command \"").concat(cmd.as_str()).concat("\".");
            PromptCommand::Error(text)
        }
    } else {
        assert(t == s@.subrange(start as int, s@.len() as int));
        let text = string_of(vstd::slice::slice_subrange(s.as_slice(), start, s.len()));
        PromptCommand::Act(UIAction::SendMessage(text))
    }
}

/// The commands that `/help` lists, as (name, description) pairs.
pub open spec fn help_entries() -> Seq<(Seq<char>, Seq<char>)> {
    seq![
        ("/exit, /q"@, "Exit from chat"@),
        ("/list"@, "Display list of announced clients"@),
        ("/room <new_room>"@, "Change room (MQTT Topic)"@),
        ("/alias <new_alias>"@, "Change alias"@),
        ("/dm"@, "Not implemented"@),
    ]
}

/// The longest name among `entries`.
pub open spec fn widest(entries: Seq<(Seq<char>, Seq<char>)>) -> nat
    decreases entries.len(),
{
    if entries.len() == 0 {
        0
    } else {
        let w = widest(entries.drop_last());
        if entries.last().0.len() > w {
            entries.last().0.len()
        } else {
            w
        }
    }
}

/// One help line: the name padded to `width`, a dash, the description.
pub open spec fn help_line(entry: (Seq<char>, Seq<char>), width: nat) -> Seq<char> {
    " "@ + entry.0 + Seq::new((width - entry.0.len()) as nat, |i: int| ' ') + " - "@ + entry.1
}

/// The lines that `/help` shows: a heading, then one line per command.
pub open spec fn help_text() -> Seq<Seq<char>> {
    seq!["Available commands:"@] + help_entries().map_values(
        |e: (Seq<char>, Seq<char>)| help_line(e, widest(help_entries())),
    )
}

proof fn lemma_widest(entries: Seq<(Seq<char>, Seq<char>)>)
    ensures
        forall|k: int| 0 <= k < entries.len() ==> entries[k].0.len() <= widest(entries),
    decreases entries.len(),
{
    if entries.len() > 0 {
        lemma_widest(entries.drop_last());
        assert forall|k: int| 0 <= k < entries.len() implies entries[k].0.len() <= widest(
            entries,
        ) by {
            if k < entries.len() - 1 {
                assert(entries[k] == entries.drop_last()[k]);
            }
        }
    }
}

/// The commands that `/help` lists.
pub fn help_commands() -> (r: Vec<UIHelpCommand>)
    ensures
        r@.len() == help_entries().len(),
        forall|i: int| 0 <= i < r@.len() ==> (r@[i].name@, r@[i].description@) == help_entries()[i],
{
    let mut r: Vec<UIHelpCommand> = Vec::new();
    r.push(
        UIHelpCommand {
            name: String::from_str("/exit, /q"),
            description: String::from_str("Exit from chat"),
        },
    );
    r.push(
        UIHelpCommand {
            name: String::from_str("/list"),
            description: String::from_str("Display list of announced clients"),
        },
    );
    r.push(
        UIHelpCommand {
            name: String::from_str("/room <new_room>"),
            description: String::from_str("Change room (MQTT Topic)"),
        },
    );
    r.push(
        UIHelpCommand {
            name: String::from_str("/alias <new_alias>"),
            description: String::from_str("Change alias"),
        },
    );
    r.push(
        UIHelpCommand {
            name: String::from_str("/dm"),
            description: String::from_str("Not implemented"),
        },
    );
    r
}

fn padding(n: usize) -> (r: String)
    ensures
        r@ == Seq::new(n as nat, |i: int| ' '),
{
    let mut r = String::new();
    let mut i: usize = 0;
    proof {
        reveal_strlit(" ");
    }
    while i < n
        invariant
            i <= n,
            r@ == Seq::new(i as nat, |k: int| ' '),
            " "@ == seq![' '],
        decreases n - i,
    {
        r = r.concat(" ");
        assert(r@ =~= Seq::new((i + 1) as nat, |k: int| ' '));
        i = i + 1;
    }
    r
}

fn char_count(s: &String) -> (r: usize)
    ensures
        r == s@.len(),
{
    chars_of(s.as_str()).len()
}

/// The lines that `/help` shows.
pub fn help_lines() -> (r: Vec<String>)
    ensures
        r@.len() == help_text().len(),
        forall|i: int| 0 <= i < r@.len() ==> r@[i]@ == help_text()[i],
{
    let commands = help_commands();
    let ghost entries = help_entries();
    let mut width: usize = 0;
    let mut i: usize = 0;
    while i < commands.len()
        invariant
            i <= commands@.len(),
            entries == help_entries(),
            entries.len() == commands@.len(),
            forall|k: int|
                0 <= k < commands@.len() ==> (commands@[k].name@, commands@[k].description@)
                    == entries[k],
            width == widest(entries.take(i as int)),
        decreases commands@.len() - i,
    {
        let len = char_count(&commands[i].name);
        assert(entries.take(i + 1).drop_last() == entries.take(i as int));
        assert(entries.take(i + 1).last() == entries[i as int]);
        if len > width {
            width = len;
        }
        i = i + 1;
    }
    assert(entries.take(i as int) == entries);
    proof {
        lemma_widest(entries);
    }
    let mut r: Vec<String> = Vec::new();
    r.push(String::from_str("Available commands:"));
    let mut j: usize = 0;
    while j < commands.len()
        invariant
            j <= commands@.len(),
            entries == help_entries(),
            entries.len() == commands@.len(),
            forall|k: int|
                0 <= k < commands@.len() ==> (commands@[k].name@, commands@[k].description@)
                    == entries[k],
            width == widest(entries),
            forall|k: int| 0 <= k < entries.len() ==> entries[k].0.len() <= width,
            r@.len() == j + 1,
            forall|k: int| 0 <= k < r@.len() ==> r@[k]@ == help_text()[k],
        decreases commands@.len() - j,
    {
        let c = &commands[j];
        let len = char_count(&c.name);
        assert(entries[j as int].0.len() <= width);
        let line = String::from_str(" ").concat(c.name.as_str()).concat(
            padding(width - len).as_str(),
        ).concat(" - ").concat(c.description.as_str());
        assert(help_text()[j + 1] == help_line(entries[j as int], width as nat));
        r.push(line);
        j = j + 1;
    }
    r
}

} // verus!
