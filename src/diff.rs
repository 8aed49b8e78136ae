//! `diff snapshot`, `diff screenshot` and `diff url`: strict option
//! scanning, where an unknown flag or a stray argument is an error.
use vstd::prelude::*;
use crate::command::{Outcome, outcome, env2, make2};
use crate::envelope::{Envelope, EnvelopeModel, Value, ValueModel, bare, with, text, key_index};
use crate::error::{ParseError, missing, invalid, missing_args, invalid_value, unknown_subcommand};
use crate::flags::{Flags, FlagsModel};
use crate::numbers::{int_within, parse_uint, unit_reading, read_unit_fraction, UnitReading};
use crate::session::{push_word, unknown};
use crate::text::{views, has_prefix, starts_with, owned, prefixed, str_eq};

verus! {

/// How a `diff` flag takes its value: 0 none (it sets `true`), 1 text,
/// 2 a depth (`u32`), 3 a threshold in `[0, 1]`.
pub type Kind = int;

/// The flags of each `diff` subcommand (0 `snapshot`, 1 `screenshot`,
/// 2 `url`): the field it sets, how it takes its value, and the context and
/// usage of its errors.
pub open spec fn diff_flag(sub: int, t: Seq<char>) -> Option<(Seq<char>, Kind, Seq<char>, Seq<char>)> {
    if sub == 0 {
        if t == "-b"@ || t == "--baseline"@ {
            Some(("baseline"@, 1, "diff snapshot --baseline"@, "diff snapshot --baseline <file>"@))
        } else if t == "-s"@ || t == "--selector"@ {
            Some(("selector"@, 1, "diff snapshot --selector"@, "diff snapshot --selector <sel>"@))
        } else if t == "-c"@ || t == "--compact"@ {
            Some(("compact"@, 0, ""@, ""@))
        } else if t == "-d"@ || t == "--depth"@ {
            Some(("maxDepth"@, 2, "diff snapshot --depth"@, "diff snapshot --depth <n>"@))
        } else {
            None
        }
    } else if sub == 1 {
        if t == "-b"@ || t == "--baseline"@ {
            Some(("baseline"@, 1, "diff screenshot --baseline"@, "diff screenshot --baseline <file>"@))
        } else if t == "-o"@ || t == "--output"@ {
            Some(("output"@, 1, "diff screenshot --output"@, "diff screenshot --output <file>"@))
        } else if t == "-t"@ || t == "--threshold"@ {
            Some(
                ("threshold"@, 3, "diff screenshot --threshold"@, "diff screenshot --threshold <0-1>"@),
            )
        } else if t == "-s"@ || t == "--selector"@ {
            Some(("selector"@, 1, "diff screenshot --selector"@, "diff screenshot --selector <sel>"@))
        } else if t == "--full"@ {
            Some(("fullPage"@, 0, ""@, ""@))
        } else {
            None
        }
    } else {
        if t == "--screenshot"@ {
            Some(("screenshot"@, 0, ""@, ""@))
        } else if t == "--full"@ {
            Some(("fullPage"@, 0, ""@, ""@))
        } else if t == "--wait-until"@ {
            Some(
                (
                    "waitUntil"@,
                    1,
                    "diff url --wait-until"@,
                    "diff url <url1> <url2> --wait-until <load|domcontentloaded|networkidle>"@,
                ),
            )
        } else if t == "-s"@ || t == "--selector"@ {
            Some(("selector"@, 1, "diff url --selector"@, "diff url <url1> <url2> --selector <sel>"@))
        } else if t == "-c"@ || t == "--compact"@ {
            Some(("compact"@, 0, ""@, ""@))
        } else if t == "-d"@ || t == "--depth"@ {
            Some(("maxDepth"@, 2, "diff url --depth"@, "diff url <url1> <url2> --depth <n>"@))
        } else {
            None
        }
    }
}

type FlagRow = (&'static str, u8, &'static str, &'static str);

fn row(key: &'static str, kind: u8, ctx: &'static str, usage: &'static str) -> (r: Option<FlagRow>)
    ensures
        r == Some((key, kind, ctx, usage)),
{
    Some((key, kind, ctx, usage))
}

/// Looks a token up in `diff_flag`.
fn diff_flag_of(sub: u8, t: &str) -> (r: Option<FlagRow>)
    ensures
        match r {
            Some(x) => diff_flag(sub as int, t@) == Some((x.0@, x.1 as int, x.2@, x.3@)),
            None => diff_flag(sub as int, t@) is None,
        },
{
    if sub == 0 {
        if str_eq(t, "-b") || str_eq(t, "--baseline") {
            row("baseline", 1, "diff snapshot --baseline", "diff snapshot --baseline <file>")
        } else if str_eq(t, "-s") || str_eq(t, "--selector") {
            row("selector", 1, "diff snapshot --selector", "diff snapshot --selector <sel>")
        } else if str_eq(t, "-c") || str_eq(t, "--compact") {
            row("compact", 0, "", "")
        } else if str_eq(t, "-d") || str_eq(t, "--depth") {
            row("maxDepth", 2, "diff snapshot --depth", "diff snapshot --depth <n>")
        } else {
            None
        }
    } else if sub == 1 {
        if str_eq(t, "-b") || str_eq(t, "--baseline") {
            row("baseline", 1, "diff screenshot --baseline", "diff screenshot --baseline <file>")
        } else if str_eq(t, "-o") || str_eq(t, "--output") {
            row("output", 1, "diff screenshot --output", "diff screenshot --output <file>")
        } else if str_eq(t, "-t") || str_eq(t, "--threshold") {
            row("threshold", 3, "diff screenshot --threshold", "diff screenshot --threshold <0-1>")
        } else if str_eq(t, "-s") || str_eq(t, "--selector") {
            row("selector", 1, "diff screenshot --selector", "diff screenshot --selector <sel>")
        } else if str_eq(t, "--full") {
            row("fullPage", 0, "", "")
        } else {
            None
        }
    } else {
        if str_eq(t, "--screenshot") {
            row("screenshot", 0, "", "")
        } else if str_eq(t, "--full") {
            row("fullPage", 0, "", "")
        } else if str_eq(t, "--wait-until") {
            row(
                "waitUntil",
                1,
                "diff url --wait-until",
                "diff url <url1> <url2> --wait-until <load|domcontentloaded|networkidle>",
            )
        } else if str_eq(t, "-s") || str_eq(t, "--selector") {
            row("selector", 1, "diff url --selector", "diff url <url1> <url2> --selector <sel>")
        } else if str_eq(t, "-c") || str_eq(t, "--compact") {
            row("compact", 0, "", "")
        } else if str_eq(t, "-d") || str_eq(t, "--depth") {
            row("maxDepth", 2, "diff url --depth", "diff url <url1> <url2> --depth <n>")
        } else {
            None
        }
    }
}

/// The usage line of each `diff` subcommand.
pub open spec fn diff_usage(sub: int) -> Seq<char> {
    if sub == 0 {
        "diff snapshot [--baseline <file>] [--selector <sel>] [--compact] [--depth <n>]"@
    } else if sub == 1 {
        "diff screenshot --baseline <file> [--output <file>] [--threshold <0-1>] [--selector <sel>] [--full]"@
    } else {
        "diff url <url1> <url2> [--screenshot] [--full] [--wait-until <strategy>] [--selector <sel>] [--compact] [--depth <n>]"@
    }
}

fn diff_usage_of(sub: u8) -> (r: &'static str)
    ensures
        r@ == diff_usage(sub as int),
{
    if sub == 0 {
        "diff snapshot [--baseline <file>] [--selector <sel>] [--compact] [--depth <n>]"
    } else if sub == 1 {
        "diff screenshot --baseline <file> [--output <file>] [--threshold <0-1>] [--selector <sel>] [--full]"
    } else {
        "diff url <url1> <url2> [--screenshot] [--full] [--wait-until <strategy>] [--selector <sel>] [--compact] [--depth <n>]"
    }
}

/// The value `v` of a flag of kind `kind` for field `key`, set on `e`.
pub open spec fn diff_value(
    e: EnvelopeModel,
    key: Seq<char>,
    kind: Kind,
    usage: Seq<char>,
    v: Seq<char>,
) -> Outcome {
    if kind == 2 {
        match int_within(v, false, 0, u32::MAX as int) {
            Some(n) => Ok(with(e, key, ValueModel::Int(n))),
            None => Err(invalid("Depth must be a non-negative integer, got: "@ + v, usage)),
        }
    } else if kind == 3 {
        match unit_reading(v) {
            UnitReading::Within => Ok(with(e, key, ValueModel::Decimal(v))),
            UnitReading::OutOfRange => Err(invalid("Threshold must be between 0 and 1, got "@ + v, usage)),
            UnitReading::Malformed => Err(invalid("Invalid threshold value: "@ + v, usage)),
        }
    } else {
        Ok(with(e, key, text(v)))
    }
}

/// The options of `diff` subcommand `sub` read from index `i` on, applied
/// to `e`.
pub open spec fn diff_scan(sub: int, r: Seq<Seq<char>>, i: int, e: EnvelopeModel) -> Outcome
    decreases r.len() - i,
{
    if i < 0 || i >= r.len() {
        Ok(e)
    } else {
        let t = r[i];
        match diff_flag(sub, t) {
            None => if has_prefix(t, "-"@) {
                Err(invalid("Unknown flag: "@ + t, diff_usage(sub)))
            } else {
                Err(invalid("Unexpected argument: "@ + t, diff_usage(sub)))
            },
            Some((key, kind, ctx, usage)) => if kind == 0 {
                diff_scan(sub, r, i + 1, with(e, key, ValueModel::Bool(true)))
            } else if i + 1 >= r.len() {
                Err(missing(ctx, usage))
            } else {
                match diff_value(e, key, kind, usage, r[i + 1]) {
                    Ok(e2) => diff_scan(sub, r, i + 2, e2),
                    Err(x) => Err(x),
                }
            },
        }
    }
}

fn set_value(e: &mut Envelope, key: &str, kind: u8, usage: &str, v: &str) -> (res: Result<(), ParseError>)
    ensures
        match diff_value(old(e)@, key@, kind as int, usage@, v@) {
            Ok(e2) => res is Ok && final(e)@ == e2,
            Err(x) => res matches Err(y) && y@ == x,
        },
{
    if kind == 2 {
        match parse_uint(v, u32::MAX as u64) {
            Some(n) => {
                e.set(key, Value::Int(n as i128));
                Ok(())
            },
            None => Err(invalid_value(prefixed("Depth must be a non-negative integer, got: ", v), usage)),
        }
    } else if kind == 3 {
        match read_unit_fraction(v) {
            UnitReading::Within => {
                e.set(key, Value::Decimal(owned(v)));
                Ok(())
            },
            UnitReading::OutOfRange => Err(
                invalid_value(prefixed("Threshold must be between 0 and 1, got ", v), usage),
            ),
            UnitReading::Malformed => Err(invalid_value(prefixed("Invalid threshold value: ", v), usage)),
        }
    } else {
        e.set_text(key, v);
        Ok(())
    }
}

/// Applies the options of `diff` subcommand `sub` from index `start` on.
fn scan_options(sub: u8, rest: &Vec<String>, start: usize, e: &mut Envelope) -> (res: Result<(), ParseError>)
    ensures
        match diff_scan(sub as int, views(rest@), start as int, old(e)@) {
            Ok(e2) => res is Ok && final(e)@ == e2,
            Err(x) => res matches Err(y) && y@ == x,
        },
{
    let ghost r = views(rest@);
    let ghost e0 = e@;
    let n = rest.len();
    let mut i: usize = start;
    while i < n
        invariant
            n == rest@.len(),
            r == views(rest@),
            start <= i,
            e0 == old(e)@,
            diff_scan(sub as int, r, i as int, e@) == diff_scan(sub as int, r, start as int, e0),
        decreases n - i,
    {
        let t = rest[i].as_str();
        match diff_flag_of(sub, t) {
            None => {
                if starts_with(t, "-") {
                    return Err(invalid_value(prefixed("Unknown flag: ", t), diff_usage_of(sub)));
                } else {
                    return Err(invalid_value(prefixed("Unexpected argument: ", t), diff_usage_of(sub)));
                }
            },
            Some((key, kind, ctx, usage)) => {
                if kind == 0 {
                    e.set(key, Value::Bool(true));
                    i += 1;
                } else if i + 1 >= n {
                    return Err(missing_args(ctx, usage));
                } else {
                    match set_value(e, key, kind, usage, rest[i + 1].as_str()) {
                        Ok(()) => {
                            i += 2;
                        },
                        Err(x) => {
                            return Err(x);
                        },
                    }
                }
            },
        }
    }
    Ok(())
}

pub open spec fn with_full(e: EnvelopeModel, f: FlagsModel) -> EnvelopeModel {
    if f.full {
        with(e, "fullPage"@, ValueModel::Bool(true))
    } else {
        e
    }
}

pub open spec fn diff_spec(r: Seq<Seq<char>>, id: Seq<char>, f: FlagsModel) -> Outcome {
    if r.len() == 0 {
        Err(missing("diff"@, "diff <snapshot|screenshot|url>"@))
    } else if r[0] == "snapshot"@ {
        diff_scan(0, r, 1, bare(id, "diff_snapshot"@))
    } else if r[0] == "screenshot"@ {
        match diff_scan(1, r, 1, bare(id, "diff_screenshot"@)) {
            Ok(e) => {
                let e2 = with_full(e, f);
                if key_index(e2.fields, "baseline"@) < e2.fields.len() {
                    Ok(e2)
                } else {
                    Err(missing("diff screenshot"@, "diff screenshot --baseline <file>"@))
                }
            },
            Err(x) => Err(x),
        }
    } else if r[0] == "url"@ {
        if r.len() < 3 {
            Err(missing("diff url"@, "diff url <url1> <url2>"@))
        } else {
            match diff_scan(2, r, 3, env2(id, "diff_url"@, "url1"@, r[1], "url2"@, r[2])) {
                Ok(e) => Ok(with_full(e, f)),
                Err(x) => Err(x),
            }
        }
    } else {
        Err(unknown(r[0], seq!["snapshot"@, "screenshot"@, "url"@]))
    }
}

fn add_full(e: &mut Envelope, f: &Flags)
    ensures
        final(e)@ == with_full(old(e)@, f@),
{
    if f.full {
        e.set("fullPage", Value::Bool(true));
    }
}

/// `diff snapshot|screenshot|url ...`.
pub fn parse_diff(rest: &Vec<String>, id: &str, f: &Flags) -> (res: Result<Envelope, ParseError>)
    ensures
        outcome(res) == diff_spec(views(rest@), id@, f@),
{
    let n = rest.len();
    if n == 0 {
        return Err(missing_args("diff", "diff <snapshot|screenshot|url>"));
    }
    let sub = rest[0].as_str();
    if str_eq(sub, "snapshot") {
        let mut e = Envelope::new(id, "diff_snapshot");
        match scan_options(0, rest, 1, &mut e) {
            Ok(()) => Ok(e),
            Err(x) => Err(x),
        }
    } else if str_eq(sub, "screenshot") {
        let mut e = Envelope::new(id, "diff_screenshot");
        match scan_options(1, rest, 1, &mut e) {
            Ok(()) => {
                add_full(&mut e, f);
                if e.has_key("baseline") {
                    Ok(e)
                } else {
                    Err(missing_args("diff screenshot", "diff screenshot --baseline <file>"))
                }
            },
            Err(x) => Err(x),
        }
    } else if str_eq(sub, "url") {
        if n < 3 {
            return Err(missing_args("diff url", "diff url <url1> <url2>"));
        }
        let mut e = make2(id, "diff_url", "url1", rest[1].as_str(), "url2", rest[2].as_str());
        match scan_options(2, rest, 3, &mut e) {
            Ok(()) => {
                add_full(&mut e, f);
                Ok(e)
            },
            Err(x) => Err(x),
        }
    } else {
        let mut valid: Vec<String> = Vec::new();
        push_word(&mut valid, "snapshot");
        push_word(&mut valid, "screenshot");
        push_word(&mut valid, "url");
        assert(views(valid@) =~= seq!["snapshot"@, "screenshot"@, "url"@]);
        Err(unknown_subcommand(sub, valid))
    }
}

} // verus!
