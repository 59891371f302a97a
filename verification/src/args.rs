//! The arguments of the program.

use vstd::prelude::*;

use crate::text::same_text;

verus! {

/// The port where none, or none that can be read, is given.
pub const DEFAULT_PORT: u16 = 9528;

/// How the program is to run.
pub struct Settings {
    pub use_pipe: bool,
    pub host: String,
    pub port: u16,
}

/// What the arguments ask for.
pub enum Invocation {
    /// Run.
    Run { settings: Settings },
    /// Show how the program is used.
    Help,
    /// Say that the argument is not known, and show how the program is used.
    Unknown { argument: String },
}

/// How the program is to run.
pub struct SettingsView {
    pub use_pipe: bool,
    pub host: Seq<char>,
    pub port: u16,
}

impl View for Settings {
    type V = SettingsView;

    open spec fn view(&self) -> SettingsView {
        SettingsView { use_pipe: self.use_pipe, host: self.host@, port: self.port }
    }
}

/// What the arguments ask for.
pub enum InvocationView {
    Run { settings: SettingsView },
    Help,
    Unknown { argument: Seq<char> },
}

impl View for Invocation {
    type V = InvocationView;

    open spec fn view(&self) -> InvocationView {
        match self {
            Invocation::Run { settings } => InvocationView::Run { settings: settings@ },
            Invocation::Help => InvocationView::Help,
            Invocation::Unknown { argument } => InvocationView::Unknown { argument: argument@ },
        }
    }
}

/// A decimal digit.
pub open spec fn is_digit(c: char) -> bool {
    '0' <= c <= '9'
}

/// Digits and nothing else, and at least one.
pub open spec fn is_decimal(text: Seq<char>) -> bool {
    text.len() > 0 && forall|i: int| 0 <= i < text.len() ==> is_digit(#[trigger] text[i])
}

/// The number that the digits write.
pub open spec fn decimal_value(digits: Seq<char>) -> nat
    decreases digits.len(),
{
    if digits.len() == 0 {
        0
    } else {
        (10 * decimal_value(digits.drop_last()) + (digits.last() as u32 - '0' as u32)) as nat
    }
}

/// The digits of a number that may be written with a plus sign.
pub open spec fn without_plus(text: Seq<char>) -> Seq<char> {
    if text.len() > 0 && text[0] == '+' {
        text.drop_first()
    } else {
        text
    }
}

/// The port that a text gives: the number that it writes, with or without a
/// plus sign, if that is a port, and the default port if it is not.
pub open spec fn port_of(text: Seq<char>) -> u16 {
    let digits = without_plus(text);
    if is_decimal(digits) && decimal_value(digits) <= u16::MAX {
        decimal_value(digits) as u16
    } else {
        DEFAULT_PORT
    }
}

/// What the arguments from one on ask for, after those before it asked for
/// these settings. An option that takes a value takes the argument behind it;
/// as the last argument it changes nothing. The first argument that asks for
/// help or is not known decides.
pub open spec fn arguments_from(
    arguments: Seq<Seq<char>>,
    i: int,
    settings: SettingsView,
) -> InvocationView
    decreases arguments.len() - i,
{
    if i >= arguments.len() {
        InvocationView::Run { settings }
    } else if arguments[i] == "--pipe"@ {
        arguments_from(arguments, i + 1, SettingsView { use_pipe: true, ..settings })
    } else if arguments[i] == "--port"@ {
        if i + 1 < arguments.len() {
            arguments_from(
                arguments,
                i + 2,
                SettingsView { port: port_of(arguments[i + 1]), ..settings },
            )
        } else {
            InvocationView::Run { settings }
        }
    } else if arguments[i] == "--host"@ {
        if i + 1 < arguments.len() {
            arguments_from(arguments, i + 2, SettingsView { host: arguments[i + 1], ..settings })
        } else {
            InvocationView::Run { settings }
        }
    } else if arguments[i] == "--help"@ || arguments[i] == "-h"@ {
        InvocationView::Help
    } else {
        InvocationView::Unknown { argument: arguments[i] }
    }
}

/// The settings where no argument asks for others.
pub open spec fn default_settings() -> SettingsView {
    SettingsView { use_pipe: false, host: "127.0.0.1"@, port: DEFAULT_PORT }
}

/// The texts of the arguments.
pub open spec fn texts(arguments: Seq<String>) -> Seq<Seq<char>> {
    Seq::new(arguments.len(), |i: int| arguments[i]@)
}

/// Reads a port.
pub fn parse_port(text: &str) -> (port: u16)
    ensures
        port == port_of(text@),
{
    let len: usize = text.unicode_len();
    let mut i: usize = 0;
    if len > 0 && text.get_char(0) == '+' {
        i = 1;
    }
    let start: usize = i;
    let ghost digits = without_plus(text@);
    assert(digits =~= text@.skip(start as int));
    if i == len {
        return DEFAULT_PORT;
    }
    let mut value: u32 = 0;
    while i < len
        invariant
            len == text@.len(),
            start <= i <= len,
            digits == text@.skip(start as int),
            digits == without_plus(text@),
            forall|j: int| 0 <= j < i - start ==> is_digit(#[trigger] digits[j]),
            value == decimal_value(digits.take(i - start)),
            value <= u16::MAX,
        decreases len - i,
    {
        let c: char = text.get_char(i);
        assert(digits[i - start] == c);
        if c < '0' || c > '9' {
            return DEFAULT_PORT;
        }
        assert(digits.take(i - start + 1).drop_last() =~= digits.take(i - start));
        assert(digits.take(i - start + 1).last() == c);
        value = 10 * value + (c as u32 - '0' as u32);
        i = i + 1;
        if value > 65535 {
            proof {
                lemma_value_grows(digits, i - start);
            }
            return DEFAULT_PORT;
        }
    }
    assert(digits.take(i - start) =~= digits);
    value as u16
}

/// More digits never make the number smaller, as long as they are digits.
proof fn lemma_value_grows(digits: Seq<char>, n: int)
    requires
        0 <= n <= digits.len(),
    ensures
        is_decimal(digits) ==> decimal_value(digits.take(n)) <= decimal_value(digits),
    decreases digits.len() - n,
{
    if n < digits.len() && is_decimal(digits) {
        lemma_value_grows(digits, n + 1);
        assert(digits.take(n + 1).drop_last() =~= digits.take(n));
        assert(digits.take(n + 1).last() == digits[n]);
    } else {
        assert(n == digits.len() ==> digits.take(n) =~= digits);
    }
}

/// Reads the arguments, the first of which is the name of the program.
pub fn parse_args(arguments: &Vec<String>) -> (invocation: Invocation)
    ensures
        invocation@ == arguments_from(texts(arguments@), 1, default_settings()),
{
    let ghost all = texts(arguments@);
    let mut settings: Settings = Settings {
        use_pipe: false,
        host: "127.0.0.1".to_owned(),
        port: DEFAULT_PORT,
    };
    let mut i: usize = 1;
    while i < arguments.len()
        invariant
            i >= 1,
            all == texts(arguments@),
            arguments_from(all, 1, default_settings()) == arguments_from(
                all,
                i as int,
                settings@,
            ),
        decreases arguments@.len() - i,
    {
        let argument: &str = arguments[i].as_str();
        if same_text(argument, "--pipe") {
            settings.use_pipe = true;
            i = i + 1;
        } else if same_text(argument, "--port") {
            if arguments.len() - i <= 1 {
                return Invocation::Run { settings };
            }
            settings.port = parse_port(arguments[i + 1].as_str());
            i = i + 2;
        } else if same_text(argument, "--host") {
            if arguments.len() - i <= 1 {
                return Invocation::Run { settings };
            }
            settings.host = arguments[i + 1].clone();
            i = i + 2;
        } else if same_text(argument, "--help") || same_text(argument, "-h") {
            return Invocation::Help;
        } else {
            return Invocation::Unknown { argument: arguments[i].clone() };
        }
    }
    Invocation::Run { settings }
}

} // verus!
