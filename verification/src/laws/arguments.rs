//! How the arguments of the program are read.

use vstd::prelude::*;

use crate::args::{arguments_from, decimal_value, default_settings, is_decimal, is_digit};
use crate::args::{parse_args, parse_port, port_of, texts, without_plus};
use crate::args::{Invocation, InvocationView, SettingsView};

verus! {

/// The digit for a number below ten.
pub open spec fn digit(n: nat) -> char {
    ('0' as u32 + n) as char
}

/// A number as it is written.
pub open spec fn decimal_of(n: nat) -> Seq<char>
    decreases n,
{
    if n < 10 {
        seq![digit(n)]
    } else {
        decimal_of(n / 10).push(digit(n % 10))
    }
}

proof fn lemma_decimal_of(n: nat)
    ensures
        is_decimal(decimal_of(n)),
        decimal_value(decimal_of(n)) == n,
    decreases n,
{
    let text = decimal_of(n);
    if n < 10 {
        assert(text.drop_last() =~= Seq::<char>::empty());
        assert(decimal_value(text.drop_last()) == 0);
        assert(text.last() as u32 == '0' as u32 + n);
    } else {
        lemma_decimal_of(n / 10);
        let before = decimal_of(n / 10);
        assert(text.drop_last() =~= before);
        assert(text.last() as u32 == '0' as u32 + n % 10);
        assert forall|i: int| 0 <= i < text.len() implies is_digit(#[trigger] text[i]) by {
            if i < before.len() {
                assert(text[i] == before[i]);
            }
        }
    }
}

/// A port is the number that is written, if it is below 65536, and else the
/// default one.
pub proof fn ports_are_the_numbers_written(text: &str, port: u16, n: nat)
    requires
        call_ensures(parse_port, (text,), port),
        text@ == decimal_of(n),
    ensures
        n < 65536 ==> port == n,
        n >= 65536 ==> port == 9528,
{
    lemma_decimal_of(n);
    assert(is_digit(text@[0]));
    assert(without_plus(text@) == text@);
}

proof fn lemma_leading_zero(digits: Seq<char>)
    ensures
        decimal_value(seq!['0'] + digits) == decimal_value(digits),
    decreases digits.len(),
{
    let longer = seq!['0'] + digits;
    if digits.len() == 0 {
        assert(longer.drop_last() =~= Seq::<char>::empty());
        assert(decimal_value(longer.drop_last()) == 0);
        assert(longer.last() == '0');
    } else {
        assert(longer.drop_last() =~= seq!['0'] + digits.drop_last());
        assert(longer.last() == digits.last());
        lemma_leading_zero(digits.drop_last());
    }
}

/// Zeros before a port, and one plus sign before it, do not change it.
pub proof fn zeros_and_a_plus_sign_do_not_change_ports(
    text: &str,
    port: u16,
    longer: &str,
    other: u16,
)
    requires
        call_ensures(parse_port, (text,), port),
        call_ensures(parse_port, (longer,), other),
        text@.len() > 0,
        text@[0] != '+',
        longer@ == seq!['0'] + text@ || longer@ == seq!['+'] + text@,
    ensures
        port == other,
{
    if longer@ == seq!['0'] + text@ {
        assert(longer@[0] == '0');
        assert(without_plus(longer@) == longer@);
        lemma_leading_zero(text@);
        assert(is_decimal(longer@) <==> is_decimal(text@)) by {
            if is_decimal(longer@) {
                assert forall|i: int| 0 <= i < text@.len() implies is_digit(
                    #[trigger] text@[i],
                ) by {
                    assert(longer@[i + 1] == text@[i]);
                }
            }
            if is_decimal(text@) {
                assert forall|i: int| 0 <= i < longer@.len() implies is_digit(
                    #[trigger] longer@[i],
                ) by {
                    if i > 0 {
                        assert(longer@[i] == text@[i - 1]);
                    }
                }
            }
        }
    } else {
        assert(longer@[0] == '+');
        assert(longer@.drop_first() =~= text@);
    }
}

/// Where anything but digits is written, after one plus sign at the most, or
/// nothing at all, the port is the default one.
pub proof fn other_texts_are_no_ports(text: &str, port: u16)
    requires
        call_ensures(parse_port, (text,), port),
        text@.len() == 0 || text@ == seq!['+'] || exists|i: int|
            0 <= i < text@.len() && !('0' <= #[trigger] text@[i] <= '9') && !(i == 0 && text@[i]
                == '+'),
    ensures
        port == 9528,
{
    let digits = without_plus(text@);
    if text@.len() > 0 && text@ != seq!['+'] {
        let i = choose|i: int|
            0 <= i < text@.len() && !('0' <= #[trigger] text@[i] <= '9') && !(i == 0 && text@[i]
                == '+');
        if text@[0] == '+' {
            assert(digits[i - 1] == text@[i]);
            assert(!is_digit(digits[i - 1]));
        } else {
            assert(!is_digit(digits[i]));
        }
    } else if text@.len() > 0 {
        assert(digits =~= Seq::<char>::empty());
    }
}

/// The arguments behind the name of the program.
pub open spec fn rest_of(arguments: Seq<String>) -> Seq<Seq<char>> {
    if arguments.len() == 0 {
        Seq::empty()
    } else {
        Seq::new((arguments.len() - 1) as nat, |i: int| arguments[i + 1]@)
    }
}

/// The arguments ask for the same.
pub open spec fn same(left: Invocation, right: Invocation) -> bool {
    match left {
        Invocation::Run { settings } => {
            &&& right is Run
            &&& right->settings.use_pipe == settings.use_pipe
            &&& right->settings.host@ == settings.host@
            &&& right->settings.port == settings.port
        },
        Invocation::Help => right is Help,
        Invocation::Unknown { argument } => right is Unknown && right->argument@ == argument@,
    }
}

/// What follows the name of the program asks for.
spec fn asks(rest: Seq<Seq<char>>, settings: SettingsView) -> InvocationView {
    arguments_from(rest, 0, settings)
}

proof fn lemma_suffix(
    left: Seq<Seq<char>>,
    i: int,
    right: Seq<Seq<char>>,
    j: int,
    settings: SettingsView,
)
    requires
        0 <= i,
        0 <= j,
        left.len() - i == right.len() - j,
        forall|k: int| i <= k < left.len() ==> #[trigger] left[k] == right[k - i + j],
    ensures
        arguments_from(left, i, settings) == arguments_from(right, j, settings),
    decreases left.len() - i,
{
    if i < left.len() {
        assert(left[i] == right[j]);
        if left[i] == "--pipe"@ {
            lemma_suffix(left, i + 1, right, j + 1, SettingsView { use_pipe: true, ..settings });
        } else if left[i] == "--port"@ {
            if i + 1 < left.len() {
                assert(left[i + 1] == right[j + 1]);
                lemma_suffix(
                    left,
                    i + 2,
                    right,
                    j + 2,
                    SettingsView { port: port_of(left[i + 1]), ..settings },
                );
            }
        } else if left[i] == "--host"@ {
            if i + 1 < left.len() {
                assert(left[i + 1] == right[j + 1]);
                lemma_suffix(
                    left,
                    i + 2,
                    right,
                    j + 2,
                    SettingsView { host: left[i + 1], ..settings },
                );
            }
        }
    }
}

proof fn lemma_asks(arguments: &Vec<String>, invocation: Invocation)
    requires
        call_ensures(parse_args, (arguments,), invocation),
    ensures
        invocation@ == asks(rest_of(arguments@), default_settings()),
{
    let all = texts(arguments@);
    let rest = rest_of(arguments@);
    if arguments@.len() > 0 {
        lemma_suffix(all, 1, rest, 0, default_settings());
    }
}

proof fn lemma_option_words()
    ensures
        "--pipe"@.len() == 6 && "--pipe"@[3] == 'i',
        "--port"@.len() == 6 && "--port"@[3] == 'o' && "--port"@[2] == 'p',
        "--host"@.len() == 6 && "--host"@[2] == 'h' && "--host"@[3] == 'o',
        "--help"@.len() == 6 && "--help"@[3] == 'e',
        "-h"@.len() == 2,
{
    reveal_strlit("--pipe");
    reveal_strlit("--port");
    reveal_strlit("--host");
    reveal_strlit("--help");
    reveal_strlit("-h");
}

/// Without arguments the program serves WebSockets on the default port of the
/// local host.
pub proof fn defaults_hold_without_arguments(arguments: &Vec<String>, invocation: Invocation)
    requires
        call_ensures(parse_args, (arguments,), invocation),
        rest_of(arguments@).len() == 0,
    ensures
        invocation is Run,
        !invocation->settings.use_pipe,
        invocation->settings.host@ == "127.0.0.1"@,
        invocation->settings.port == 9528,
{
    lemma_asks(arguments, invocation);
}

/// An argument that asks for help, or is not known, decides, whatever comes
/// after it.
pub proof fn help_and_unknown_arguments_decide(arguments: &Vec<String>, invocation: Invocation)
    requires
        call_ensures(parse_args, (arguments,), invocation),
        rest_of(arguments@).len() > 0,
    ensures
        ({
            let first = rest_of(arguments@)[0];
            &&& first == "--help"@ || first == "-h"@ ==> invocation is Help
            &&& first != "--help"@ && first != "-h"@ && first != "--pipe"@ && first != "--port"@
                && first != "--host"@ ==> invocation is Unknown && invocation->argument@
                == first
        }),
{
    lemma_option_words();
    lemma_asks(arguments, invocation);
}

proof fn lemma_pipe(rest: Seq<Seq<char>>, i: int, settings: SettingsView)
    requires
        0 <= i,
    ensures
        match arguments_from(rest, i, settings) {
            InvocationView::Run { settings: got } => arguments_from(
                rest,
                i,
                SettingsView { use_pipe: true, ..settings },
            ) == (InvocationView::Run { settings: SettingsView { use_pipe: true, ..got } }),
            other => arguments_from(rest, i, SettingsView { use_pipe: true, ..settings })
                == other,
        },
    decreases rest.len() - i,
{
    if i < rest.len() {
        if rest[i] == "--pipe"@ {
            lemma_pipe(rest, i + 1, SettingsView { use_pipe: true, ..settings });
        } else if rest[i] == "--port"@ {
            if i + 1 < rest.len() {
                lemma_pipe(rest, i + 2, SettingsView { port: port_of(rest[i + 1]), ..settings });
            }
        } else if rest[i] == "--host"@ {
            if i + 1 < rest.len() {
                lemma_pipe(rest, i + 2, SettingsView { host: rest[i + 1], ..settings });
            }
        }
    }
}

/// Asking for the pipe changes nothing else.
pub proof fn the_pipe_is_used_where_it_is_asked_for(
    shorter: &Vec<String>,
    without: Invocation,
    longer: &Vec<String>,
    with: Invocation,
)
    requires
        call_ensures(parse_args, (shorter,), without),
        call_ensures(parse_args, (longer,), with),
        rest_of(longer@) == seq!["--pipe"@] + rest_of(shorter@),
    ensures
        without is Run ==> with is Run && with->settings.use_pipe && with->settings.host@
            == without->settings.host@ && with->settings.port == without->settings.port,
        without !is Run ==> same(without, with),
{
    let rest = rest_of(shorter@);
    let more = rest_of(longer@);
    lemma_asks(shorter, without);
    lemma_asks(longer, with);
    assert(more[0] == "--pipe"@);
    let piped = SettingsView { use_pipe: true, ..default_settings() };
    lemma_suffix(more, 1, rest, 0, piped);
    lemma_pipe(rest, 0, default_settings());
}

proof fn lemma_port(rest: Seq<Seq<char>>, i: int, settings: SettingsView, port: u16)
    requires
        0 <= i,
    ensures
        match arguments_from(rest, i, settings) {
            InvocationView::Run { settings: got } => {
                let other = arguments_from(rest, i, SettingsView { port, ..settings });
                &&& other is Run
                &&& other->settings.use_pipe == got.use_pipe
                &&& other->settings.host == got.host
                &&& (forall|k: int| i <= k < rest.len() ==> #[trigger] rest[k] != "--port"@)
                    ==> other->settings.port == port
            },
            other => arguments_from(rest, i, SettingsView { port, ..settings }) == other,
        },
    decreases rest.len() - i,
{
    if i < rest.len() {
        if rest[i] == "--pipe"@ {
            lemma_port(rest, i + 1, SettingsView { use_pipe: true, ..settings }, port);
        } else if rest[i] == "--port"@ {
        } else if rest[i] == "--host"@ {
            if i + 1 < rest.len() {
                lemma_port(rest, i + 2, SettingsView { host: rest[i + 1], ..settings }, port);
            }
        }
    }
}

/// A port that is asked for is used where no other is asked for after it, and
/// changes nothing else.
pub proof fn the_port_is_the_one_asked_for(
    shorter: &Vec<String>,
    without: Invocation,
    longer: &Vec<String>,
    with: Invocation,
    text: &str,
    port: u16,
)
    requires
        call_ensures(parse_args, (shorter,), without),
        call_ensures(parse_args, (longer,), with),
        rest_of(longer@) == seq!["--port"@, text@] + rest_of(shorter@),
        call_ensures(parse_port, (text,), port),
    ensures
        without is Run ==> with is Run && with->settings.use_pipe == without->settings.use_pipe
            && with->settings.host@ == without->settings.host@,
        without is Run && !rest_of(shorter@).contains("--port"@) ==> with->settings.port == port,
        without !is Run ==> same(without, with),
{
    let rest = rest_of(shorter@);
    let more = rest_of(longer@);
    lemma_option_words();
    lemma_asks(shorter, without);
    lemma_asks(longer, with);
    assert(more[0] == "--port"@);
    assert(more[1] == text@);
    lemma_suffix(more, 2, rest, 0, SettingsView { port, ..default_settings() });
    lemma_port(rest, 0, default_settings(), port);
}

proof fn lemma_host(rest: Seq<Seq<char>>, i: int, settings: SettingsView, host: Seq<char>)
    requires
        0 <= i,
    ensures
        match arguments_from(rest, i, settings) {
            InvocationView::Run { settings: got } => {
                let other = arguments_from(rest, i, SettingsView { host, ..settings });
                &&& other is Run
                &&& other->settings.use_pipe == got.use_pipe
                &&& other->settings.port == got.port
                &&& (forall|k: int| i <= k < rest.len() ==> #[trigger] rest[k] != "--host"@)
                    ==> other->settings.host == host
            },
            other => arguments_from(rest, i, SettingsView { host, ..settings }) == other,
        },
    decreases rest.len() - i,
{
    if i < rest.len() {
        if rest[i] == "--pipe"@ {
            lemma_host(rest, i + 1, SettingsView { use_pipe: true, ..settings }, host);
        } else if rest[i] == "--port"@ {
            if i + 1 < rest.len() {
                lemma_host(
                    rest,
                    i + 2,
                    SettingsView { port: port_of(rest[i + 1]), ..settings },
                    host,
                );
            }
        }
    }
}

/// A host that is asked for is used where no other is asked for after it, and
/// changes nothing else.
pub proof fn the_host_is_the_one_asked_for(
    shorter: &Vec<String>,
    without: Invocation,
    longer: &Vec<String>,
    with: Invocation,
    host: Seq<char>,
)
    requires
        call_ensures(parse_args, (shorter,), without),
        call_ensures(parse_args, (longer,), with),
        rest_of(longer@) == seq!["--host"@, host] + rest_of(shorter@),
    ensures
        without is Run ==> with is Run && with->settings.use_pipe == without->settings.use_pipe
            && with->settings.port == without->settings.port,
        without is Run && !rest_of(shorter@).contains("--host"@) ==> with->settings.host@ == host,
        without !is Run ==> same(without, with),
{
    let rest = rest_of(shorter@);
    let more = rest_of(longer@);
    lemma_option_words();
    lemma_asks(shorter, without);
    lemma_asks(longer, with);
    assert(more[0] == "--host"@);
    assert(more[1] == host);
    lemma_suffix(more, 2, rest, 0, SettingsView { host, ..default_settings() });
    lemma_host(rest, 0, default_settings(), host);
}

/// Of two ports, or two hosts, one behind the other, the later one counts.
pub proof fn the_later_option_counts(
    shorter: &Vec<String>,
    once: Invocation,
    longer: &Vec<String>,
    twice: Invocation,
    option: Seq<char>,
    first: Seq<char>,
    second: Seq<char>,
    rest: Seq<Seq<char>>,
)
    requires
        call_ensures(parse_args, (shorter,), once),
        call_ensures(parse_args, (longer,), twice),
        option == "--port"@ || option == "--host"@,
        rest_of(shorter@) == seq![option, second] + rest,
        rest_of(longer@) == seq![option, first, option, second] + rest,
    ensures
        same(once, twice),
{
    let less = rest_of(shorter@);
    let more = rest_of(longer@);
    lemma_option_words();
    lemma_asks(shorter, once);
    lemma_asks(longer, twice);
    assert(less[0] == option && less[1] == second);
    assert(more[0] == option && more[1] == first && more[2] == option && more[3] == second);
    let ported = SettingsView { port: port_of(second), ..default_settings() };
    let hosted = SettingsView { host: second, ..default_settings() };
    lemma_suffix(more, 4, less, 2, ported);
    lemma_suffix(more, 4, less, 2, hosted);
    reveal_with_fuel(arguments_from, 4);
}

/// Options of different kinds can change places.
pub proof fn options_can_change_places(
    left: &Vec<String>,
    one_way: Invocation,
    right: &Vec<String>,
    other_way: Invocation,
    first: Seq<Seq<char>>,
    second: Seq<Seq<char>>,
    rest: Seq<Seq<char>>,
    port: Seq<char>,
    host: Seq<char>,
)
    requires
        call_ensures(parse_args, (left,), one_way),
        call_ensures(parse_args, (right,), other_way),
        rest_of(left@) == first + second + rest,
        rest_of(right@) == second + first + rest,
        first == seq!["--port"@, port],
        second == seq!["--host"@, host] || second == seq!["--pipe"@],
    ensures
        same(one_way, other_way),
{
    let a = rest_of(left@);
    let b = rest_of(right@);
    lemma_option_words();
    lemma_asks(left, one_way);
    lemma_asks(right, other_way);
    reveal_with_fuel(arguments_from, 4);
    assert(a[0] == "--port"@ && a[1] == port);
    if second == seq!["--pipe"@] {
        assert(a[2] == "--pipe"@);
        assert(b[0] == "--pipe"@ && b[1] == "--port"@ && b[2] == port);
        lemma_suffix(
            a,
            3,
            b,
            3,
            SettingsView { use_pipe: true, port: port_of(port), ..default_settings() },
        );
    } else {
        assert(a[2] == "--host"@ && a[3] == host);
        assert(b[0] == "--host"@ && b[1] == host && b[2] == "--port"@ && b[3] == port);
        lemma_suffix(
            a,
            4,
            b,
            4,
            SettingsView { host, port: port_of(port), ..default_settings() },
        );
    }
}

/// A port, or a host, that is asked for as the last argument, with nothing
/// behind it, changes nothing.
pub proof fn options_without_their_value_change_nothing(
    shorter: &Vec<String>,
    without: Invocation,
    longer: &Vec<String>,
    with: Invocation,
    option: Seq<char>,
    text: Seq<char>,
    last: Seq<char>,
)
    requires
        call_ensures(parse_args, (shorter,), without),
        call_ensures(parse_args, (longer,), with),
        last == "--port"@ || last == "--host"@,
        option == "--port"@ || option == "--host"@,
        rest_of(shorter@) == seq![option, text] || rest_of(shorter@).len() == 0,
        rest_of(longer@) == rest_of(shorter@).push(last),
    ensures
        same(without, with),
{
    let less = rest_of(shorter@);
    let more = rest_of(longer@);
    lemma_option_words();
    lemma_asks(shorter, without);
    lemma_asks(longer, with);
    reveal_with_fuel(arguments_from, 4);
    assert(more.last() == last);
    if less.len() > 0 {
        assert(less[0] == option && less[1] == text);
        assert(more[0] == option && more[1] == text && more[2] == last);
    }
}

} // verus!
