//! The arguments `yappyink draw` takes: only `--monitor N` so far.
//!
//! Anything unrecognised is refused rather than ignored: a mistyped option
//! that silently opened on the primary monitor would be exactly the
//! wrong-screen surprise the option exists to prevent.
use vstd::prelude::*;
use crate::route::texts;
use crate::text::{all_digits, debug_quoted, digits_value, is_digit, quoted, same_text};

verus! {

/// What was asked for.
#[derive(Debug, Default, PartialEq, Eq)]
pub struct DrawArgs {
    /// 1-based, as printed at startup.
    pub monitor: Option<usize>,
}

/// The option's name on its own.
pub open spec fn monitor_flag() -> Seq<char> {
    seq!['-', '-', 'm', 'o', 'n', 'i', 't', 'o', 'r']
}

/// The option's name with its value attached.
pub open spec fn monitor_prefix() -> Seq<char> {
    monitor_flag().push('=')
}

/// A number's text without the `+` it may start with.
pub open spec fn unsigned_body(s: Seq<char>) -> Seq<char> {
    if s.len() > 0 && s[0] == '+' { s.drop_first() } else { s }
}

/// The number a text names, as `usize::from_str` reads it: an optional `+`,
/// then one or more ASCII digits, with a value that fits.
pub open spec fn usize_text(s: Seq<char>) -> Option<nat> {
    let body = unsigned_body(s);
    if body.len() > 0 && all_digits(body) && digits_value(body) <= usize::MAX {
        Some(digits_value(body))
    } else {
        None
    }
}

/// The monitor a value asks for, if it is a number from 1.
pub open spec fn monitor_number(value: Seq<char>) -> Option<nat> {
    match usize_text(value) {
        Some(n) => if n >= 1 { Some(n) } else { None },
        None => None,
    }
}

/// The refusal of a value that is not a monitor number.
pub open spec fn bad_number_message(value: Seq<char>) -> Seq<char> {
    "--monitor takes a number from 1, not "@ + debug_quoted(value)
}

/// The outcome of reading `args` from position `i` on, with `monitor` the
/// number asked for so far.
pub open spec fn parsed_from(args: Seq<Seq<char>>, i: int, monitor: Option<nat>) -> Result<Option<nat>, Seq<char>>
    decreases args.len() - i,
{
    if i < 0 || i >= args.len() {
        Ok(monitor)
    } else {
        let arg = args[i];
        if arg == monitor_flag() {
            if i + 1 >= args.len() {
                Err("--monitor needs a number, such as --monitor 2"@)
            } else {
                match monitor_number(args[i + 1]) {
                    Some(n) => parsed_from(args, i + 2, Some(n)),
                    None => Err(bad_number_message(args[i + 1])),
                }
            }
        } else if arg.len() >= monitor_prefix().len() && arg.take(monitor_prefix().len() as int) == monitor_prefix() {
            let value = arg.skip(monitor_prefix().len() as int);
            match monitor_number(value) {
                Some(n) => parsed_from(args, i + 1, Some(n)),
                None => Err(bad_number_message(value)),
            }
        } else {
            Err("draw does not take "@ + debug_quoted(arg))
        }
    }
}

/// Reads a number as `usize::from_str` does.
pub fn parse_usize(s: &str) -> (number: Option<usize>)
    ensures
        match usize_text(s@) {
            Some(n) => number == Some(n as usize),
            None => number is None,
        },
{
    let n = s.unicode_len();
    let start: usize = if n > 0 && s.get_char(0) == '+' { 1 } else { 0 };
    let ghost body = unsigned_body(s@);
    assert(body =~= s@.subrange(start as int, n as int));
    if start >= n {
        return None;
    }
    let mut value: usize = 0;
    let mut i: usize = start;
    while i < n
        invariant
            n == s@.len(),
            start <= i <= n,
            body == s@.subrange(start as int, n as int),
            body == unsigned_body(s@),
            forall|j: int| start <= j < i ==> is_digit(#[trigger] s@[j]),
            value == digits_value(s@.subrange(start as int, i as int)),
        decreases n - i,
    {
        let c = s.get_char(i);
        if !('0' <= c && c <= '9') {
            assert(body[i - start] == s@[i as int]);
            assert(!is_digit(body[i - start]));
            assert(!all_digits(body));
            return None;
        }
        let d = (c as u32 - '0' as u32) as usize;
        let ghost grown = s@.subrange(start as int, i + 1);
        assert(grown.drop_last() =~= s@.subrange(start as int, i as int));
        assert(digits_value(grown) == value * 10 + d);
        let next = match value.checked_mul(10) {
            Some(tens) => tens.checked_add(d),
            None => None,
        };
        match next {
            Some(next) => {
                value = next;
            },
            None => {
                proof {
                    if all_digits(body) {
                        lemma_digits_value_grows(body, i + 1 - start);
                        assert(body.take(i + 1 - start) =~= grown);
                    }
                }
                return None;
            },
        }
        i = i + 1;
    }
    assert(s@.subrange(start as int, n as int) == body);
    assert forall|j: int| 0 <= j < body.len() implies is_digit(#[trigger] body[j]) by {
        assert(body[j] == s@[start + j]);
    }
    assert(all_digits(body));
    Some(value)
}

/// A longer run of digits is worth at least as much as its prefix.
proof fn lemma_digits_value_grows(s: Seq<char>, k: int)
    requires
        0 <= k <= s.len(),
        forall|i: int| 0 <= i < s.len() ==> is_digit(#[trigger] s[i]),
    ensures
        digits_value(s) >= digits_value(s.take(k)),
    decreases s.len(),
{
    if k < s.len() {
        let rest = s.drop_last();
        assert forall|i: int| 0 <= i < rest.len() implies is_digit(#[trigger] rest[i]) by {
            assert(rest[i] == s[i]);
        }
        lemma_digits_value_grows(rest, k);
        assert(rest.take(k) == s.take(k));
    } else {
        assert(s.take(k) == s);
    }
}

/// Parses everything after `draw`.
pub fn parse(args: &[String]) -> (parsed: Result<DrawArgs, String>)
    ensures
        match parsed_from(texts(args@), 0, None) {
            Ok(monitor) => parsed matches Ok(a) && a.monitor == match monitor {
                Some(n) => Some(n as usize),
                None => None::<usize>,
            },
            Err(message) => parsed matches Err(e) && e@ == message,
        },
{
    let ghost all = texts(args@);
    let mut monitor: Option<usize> = None;
    let mut i: usize = 0;
    while i < args.len()
        invariant
            all == texts(args@),
            i <= args@.len(),
            parsed_from(all, 0, None) == parsed_from(all, i as int, match monitor {
                Some(n) => Some(n as nat),
                None => None::<nat>,
            }),
            monitor matches Some(n) ==> n >= 1,
        decreases args@.len() - i,
    {
        let arg = args[i].as_str();
        assert(all[i as int] == arg@);
        let ghost current = match monitor {
            Some(n) => Some(n as nat),
            None => None::<nat>,
        };
        let value: &str;
        let next: usize;
        proof {
            reveal_strlit("--monitor");
        }
        assert("--monitor"@ =~= monitor_flag());
        if same_text(arg, "--monitor") {
            if i + 1 >= args.len() {
                assert(all[i as int] == monitor_flag());
                return Err(String::from_str("--monitor needs a number, such as --monitor 2"));
            }
            value = args[i + 1].as_str();
            assert(all[i + 1] == value@);
            next = i + 2;
        } else if has_monitor_prefix(arg) {
            value = arg.substring_char(10, arg.unicode_len());
            next = i + 1;
        } else {
            assert(all[i as int] != monitor_flag());
            let mut message = String::from_str("draw does not take ");
            let shown = quoted(arg);
            message.append(shown.as_str());
            assert(message@ == "draw does not take "@ + debug_quoted(all[i as int]));
            return Err(message);
        }
        match parse_usize(value) {
            Some(number) => {
                if number >= 1 {
                    monitor = Some(number);
                    i = next;
                } else {
                    return Err(bad_number(value));
                }
            },
            None => {
                return Err(bad_number(value));
            },
        }
    }
    Ok(DrawArgs { monitor })
}

/// The refusal of a value that is not a monitor number.
fn bad_number(value: &str) -> (message: String)
    ensures
        message@ == bad_number_message(value@),
{
    let mut message = String::from_str("--monitor takes a number from 1, not ");
    message.append(quoted(value).as_str());
    message
}

/// Whether a text starts with the option's name and `=`.
fn has_monitor_prefix(arg: &str) -> (has: bool)
    ensures
        has == (arg@.len() >= monitor_prefix().len() && arg@.take(monitor_prefix().len() as int) == monitor_prefix()),
        has ==> arg@.len() >= 10,
{
    proof {
        reveal_strlit("--monitor=");
    }
    let prefix = "--monitor=";
    assert(prefix@ =~= monitor_prefix());
    if arg.unicode_len() < 10 {
        return false;
    }
    same_text(arg.substring_char(0, 10), prefix)
}

} // verus!
