//! Waiting, screenshots, snapshots, script evaluation and attaching to a
//! running browser.
use vstd::prelude::*;
use vstd::utf8::{valid_utf8, decode_utf8};
use crate::command::{Outcome, outcome, env1, pos_of, find_pos, make1};
use crate::envelope::{Envelope, EnvelopeModel, Value, ValueModel, bare, with, text};
use crate::error::{ParseError, missing, invalid, missing_args, invalid_value};
use crate::external::{base64_decoded, decode_base64, utf8_text};
use crate::flags::{Flags, FlagsModel};
use crate::numbers::{int_within, parse_int, parse_uint, decimal_of, push_decimal};
use crate::actions::i32_of;
use crate::text::{views, joined, has_prefix, has_suffix, starts_with, ends_with, contains_char, owned, prefixed, join_from, str_eq};

verus! {

pub open spec fn u64_of(s: Seq<char>) -> Option<int> {
    int_within(s, false, 0, u64::MAX as int)
}

/// The field after the flag at `p`, where it is followed by a value.
pub open spec fn flag_value_spec(
    r: Seq<Seq<char>>,
    p: int,
    id: Seq<char>,
    action: Seq<char>,
    key: Seq<char>,
    context: Seq<char>,
    usage: Seq<char>,
) -> Outcome {
    if p + 1 < r.len() {
        Ok(env1(id, action, key, r[p + 1]))
    } else {
        Err(missing(context, usage))
    }
}

pub open spec fn download_wait_spec(r: Seq<Seq<char>>, pd: int, id: Seq<char>) -> EnvelopeModel {
    let e = bare(id, "waitfordownload"@);
    let e2 = if pd + 1 < r.len() && !has_prefix(r[pd + 1], "--"@) {
        with(e, "path"@, text(r[pd + 1]))
    } else {
        e
    };
    let pt = pos_of(r, "--timeout"@, "--timeout"@);
    if pt + 1 < r.len() && u64_of(r[pt + 1]) is Some {
        with(e2, "timeout"@, ValueModel::Int(u64_of(r[pt + 1])->0))
    } else {
        e2
    }
}

pub open spec fn wait_spec(r: Seq<Seq<char>>, id: Seq<char>) -> Outcome {
    let pu = pos_of(r, "--url"@, "-u"@);
    let pl = pos_of(r, "--load"@, "-l"@);
    let pf = pos_of(r, "--fn"@, "-f"@);
    let pt = pos_of(r, "--text"@, "-t"@);
    let pd = pos_of(r, "--download"@, "-d"@);
    if pu < r.len() {
        flag_value_spec(r, pu, id, "waitforurl"@, "url"@, "wait --url"@, "wait --url <pattern>"@)
    } else if pl < r.len() {
        flag_value_spec(
            r,
            pl,
            id,
            "waitforloadstate"@,
            "state"@,
            "wait --load"@,
            "wait --load <state>"@,
        )
    } else if pf < r.len() {
        flag_value_spec(
            r,
            pf,
            id,
            "waitforfunction"@,
            "expression"@,
            "wait --fn"@,
            "wait --fn <expression>"@,
        )
    } else if pt < r.len() {
        if pt + 1 < r.len() {
            Ok(env1(id, "wait"@, "selector"@, "text="@ + r[pt + 1]))
        } else {
            Err(missing("wait --text"@, "wait --text <text>"@))
        }
    } else if pd < r.len() {
        Ok(download_wait_spec(r, pd, id))
    } else if r.len() > 0 {
        if u64_of(r[0]) is Some {
            Ok(with(bare(id, "wait"@), "timeout"@, ValueModel::Int(u64_of(r[0])->0)))
        } else {
            Ok(env1(id, "wait"@, "selector"@, r[0]))
        }
    } else {
        Err(missing("wait"@, "wait <selector|ms|--url|--load|--fn|--text>"@))
    }
}

fn flag_value(
    rest: &Vec<String>,
    p: usize,
    id: &str,
    action: &str,
    key: &str,
    context: &str,
    usage: &str,
) -> (res: Result<Envelope, ParseError>)
    requires
        p < rest@.len(),
    ensures
        outcome(res) == flag_value_spec(views(rest@), p as int, id@, action@, key@, context@, usage@),
{
    if p < rest.len() - 1 {
        Ok(make1(id, action, key, rest[p + 1].as_str()))
    } else {
        Err(missing_args(context, usage))
    }
}

fn download_wait(rest: &Vec<String>, pd: usize, id: &str) -> (e: Envelope)
    requires
        pd < rest@.len(),
    ensures
        e@ == download_wait_spec(views(rest@), pd as int, id@),
{
    let n = rest.len();
    let mut e = Envelope::new(id, "waitfordownload");
    if pd < n - 1 && !starts_with(rest[pd + 1].as_str(), "--") {
        e.set_text("path", rest[pd + 1].as_str());
    }
    let pt = find_pos(rest, "--timeout", "--timeout");
    if pt < n && pt < n - 1 {
        match parse_uint(rest[pt + 1].as_str(), u64::MAX) {
            Some(v) => e.set("timeout", Value::Int(v as i128)),
            None => {},
        }
    }
    e
}

/// `wait`: for a URL pattern, a load state, a function, a text, a
/// download, a number of milliseconds, or a selector.
pub fn wait(rest: &Vec<String>, id: &str) -> (res: Result<Envelope, ParseError>)
    ensures
        outcome(res) == wait_spec(views(rest@), id@),
{
    let n = rest.len();
    let pu = find_pos(rest, "--url", "-u");
    if pu < n {
        return flag_value(rest, pu, id, "waitforurl", "url", "wait --url", "wait --url <pattern>");
    }
    let pl = find_pos(rest, "--load", "-l");
    if pl < n {
        return flag_value(
            rest,
            pl,
            id,
            "waitforloadstate",
            "state",
            "wait --load",
            "wait --load <state>",
        );
    }
    let pf = find_pos(rest, "--fn", "-f");
    if pf < n {
        return flag_value(
            rest,
            pf,
            id,
            "waitforfunction",
            "expression",
            "wait --fn",
            "wait --fn <expression>",
        );
    }
    let pt = find_pos(rest, "--text", "-t");
    if pt < n {
        if pt + 1 < n {
            let sel = prefixed("text=", rest[pt + 1].as_str());
            return Ok(make1(id, "wait", "selector", sel.as_str()));
        } else {
            return Err(missing_args("wait --text", "wait --text <text>"));
        }
    }
    let pd = find_pos(rest, "--download", "-d");
    if pd < n {
        return Ok(download_wait(rest, pd, id));
    }
    if n > 0 {
        match parse_uint(rest[0].as_str(), u64::MAX) {
            Some(v) => {
                let mut e = Envelope::new(id, "wait");
                e.set("timeout", Value::Int(v as i128));
                Ok(e)
            },
            None => Ok(make1(id, "wait", "selector", rest[0].as_str())),
        }
    } else {
        Err(missing_args("wait", "wait <selector|ms|--url|--load|--fn|--text>"))
    }
}

/// A lone screenshot argument names a file where it is a relative path,
/// holds a `/` or ends with an image extension, and does not look like a
/// selector (`.`, `#` or `@` first, unless it is a relative path).
pub open spec fn names_file(t: Seq<char>) -> bool {
    let relative = has_prefix(t, "./"@) || has_prefix(t, "../"@);
    let selector = !relative && (has_prefix(t, "."@) || has_prefix(t, "#"@) || has_prefix(t, "@"@));
    let image = has_suffix(t, ".png"@) || has_suffix(t, ".jpg"@) || has_suffix(t, ".jpeg"@)
        || has_suffix(t, ".webp"@);
    !selector && (relative || t.contains('/') || image)
}

/// Whether a lone screenshot argument names a file rather than a selector.
pub fn is_file_target(t: &str) -> (r: bool)
    ensures
        r == names_file(t@),
{
    let relative = starts_with(t, "./") || starts_with(t, "../");
    let selector = !relative && (starts_with(t, ".") || starts_with(t, "#") || starts_with(t, "@"));
    let image = ends_with(t, ".png") || ends_with(t, ".jpg") || ends_with(t, ".jpeg") || ends_with(
        t,
        ".webp",
    );
    !selector && (relative || contains_char(t, '/') || image)
}

pub open spec fn opt_text(o: Option<Seq<char>>) -> ValueModel {
    match o {
        Some(t) => ValueModel::Text(t),
        None => ValueModel::Null,
    }
}

/// The selector and the file of a screenshot.
pub open spec fn screenshot_targets(r: Seq<Seq<char>>) -> (Option<Seq<char>>, Option<Seq<char>>) {
    if r.len() >= 2 {
        (Some(r[0]), Some(r[1]))
    } else if r.len() == 1 {
        if names_file(r[0]) {
            (None, Some(r[0]))
        } else {
            (Some(r[0]), None)
        }
    } else {
        (None, None)
    }
}

pub open spec fn screenshot_spec(r: Seq<Seq<char>>, id: Seq<char>, f: FlagsModel) -> Outcome {
    let (sel, path) = screenshot_targets(r);
    Ok(
        with(
            with(
                with(with(bare(id, "screenshot"@), "path"@, opt_text(path)), "selector"@, opt_text(sel)),
                "fullPage"@,
                ValueModel::Bool(f.full),
            ),
            "annotate"@,
            ValueModel::Bool(f.annotate),
        ),
    )
}

fn opt_value(o: Option<&str>) -> (v: Value)
    ensures
        v@ == opt_text(
            match o {
                Some(s) => Some(s@),
                None => None,
            },
        ),
{
    match o {
        Some(s) => Value::Text(owned(s)),
        None => Value::Null,
    }
}

/// `screenshot [selector] [path]`.
pub fn screenshot(rest: &Vec<String>, id: &str, f: &Flags) -> (res: Result<Envelope, ParseError>)
    ensures
        outcome(res) == screenshot_spec(views(rest@), id@, f@),
{
    let n = rest.len();
    let (sel, path): (Option<&str>, Option<&str>) = if n >= 2 {
        (Some(rest[0].as_str()), Some(rest[1].as_str()))
    } else if n == 1 {
        if is_file_target(rest[0].as_str()) {
            (None, Some(rest[0].as_str()))
        } else {
            (Some(rest[0].as_str()), None)
        }
    } else {
        (None, None)
    };
    let mut e = Envelope::new(id, "screenshot");
    e.set("path", opt_value(path));
    e.set("selector", opt_value(sel));
    e.set("fullPage", Value::Bool(f.full));
    e.set("annotate", Value::Bool(f.annotate));
    Ok(e)
}

/// The snapshot options read from index `i` on, applied to `e`.
pub open spec fn snapshot_scan(r: Seq<Seq<char>>, i: int, e: EnvelopeModel) -> EnvelopeModel
    decreases r.len() - i,
{
    if i < 0 || i >= r.len() {
        e
    } else {
        let t = r[i];
        if t == "-i"@ || t == "--interactive"@ {
            snapshot_scan(r, i + 1, with(e, "interactive"@, ValueModel::Bool(true)))
        } else if t == "-c"@ || t == "--compact"@ {
            snapshot_scan(r, i + 1, with(e, "compact"@, ValueModel::Bool(true)))
        } else if t == "-C"@ || t == "--cursor"@ {
            snapshot_scan(r, i + 1, with(e, "cursor"@, ValueModel::Bool(true)))
        } else if (t == "-d"@ || t == "--depth"@) && i + 1 < r.len() && i32_of(r[i + 1]) is Some {
            snapshot_scan(r, i + 2, with(e, "maxDepth"@, ValueModel::Int(i32_of(r[i + 1])->0)))
        } else if (t == "-s"@ || t == "--selector"@) && i + 1 < r.len() {
            snapshot_scan(r, i + 2, with(e, "selector"@, text(r[i + 1])))
        } else {
            snapshot_scan(r, i + 1, e)
        }
    }
}

/// `snapshot [-i] [-c] [-C] [-d <depth>] [-s <selector>]`; other arguments
/// are passed over.
pub fn snapshot(rest: &Vec<String>, id: &str) -> (res: Result<Envelope, ParseError>)
    ensures
        outcome(res) == Ok::<EnvelopeModel, crate::error::ParseErrorModel>(
            snapshot_scan(views(rest@), 0, bare(id@, "snapshot"@)),
        ),
{
    let ghost r = views(rest@);
    let mut e = Envelope::new(id, "snapshot");
    let n = rest.len();
    let mut i: usize = 0;
    while i < n
        invariant
            n == rest@.len(),
            r == views(rest@),
            i <= n,
            snapshot_scan(r, i as int, e@) == snapshot_scan(r, 0, bare(id@, "snapshot"@)),
        decreases n - i,
    {
        let t = rest[i].as_str();
        let depth = str_eq(t, "-d") || str_eq(t, "--depth");
        let selector = str_eq(t, "-s") || str_eq(t, "--selector");
        if str_eq(t, "-i") || str_eq(t, "--interactive") {
            e.set("interactive", Value::Bool(true));
            i += 1;
        } else if str_eq(t, "-c") || str_eq(t, "--compact") {
            e.set("compact", Value::Bool(true));
            i += 1;
        } else if str_eq(t, "-C") || str_eq(t, "--cursor") {
            e.set("cursor", Value::Bool(true));
            i += 1;
        } else if depth && i + 1 < n {
            match parse_int(rest[i + 1].as_str(), i32::MIN as i64, i32::MAX as i64) {
                Some(v) => {
                    e.set("maxDepth", Value::Int(v as i128));
                    i += 2;
                },
                None => {
                    proof {
                        reveal_strlit("-d");
                        reveal_strlit("--depth");
                        reveal_strlit("-s");
                        reveal_strlit("--selector");
                        assert("-d"@[1] != "-s"@[1]);
                        assert("-d"@.len() != "--selector"@.len());
                        assert("--depth"@.len() != "-s"@.len());
                        assert("--depth"@[2] != "--selector"@[2]);
                    }
                    i += 1;
                },
            }
        } else if selector && i + 1 < n {
            e.set_text("selector", rest[i + 1].as_str());
            i += 2;
        } else {
            i += 1;
        }
    }
    Ok(e)
}

/// `eval --stdin ...`: the script comes from standard input.
pub open spec fn reads_stdin(args: Seq<Seq<char>>) -> bool {
    args.len() >= 2 && args[0] == "eval"@ && args[1] == "--stdin"@
}

pub open spec fn eval_spec(r: Seq<Seq<char>>, id: Seq<char>, input: Seq<char>) -> Outcome {
    let usage = "eval -b <base64-encoded-script>"@;
    if r.len() > 0 && (r[0] == "-b"@ || r[0] == "--base64"@) {
        match base64_decoded(joined(r.subrange(1, r.len() as int), " "@)) {
            None => Err(invalid("Invalid base64 encoding"@, usage)),
            Some(b) => if valid_utf8(b) {
                Ok(env1(id, "evaluate"@, "script"@, decode_utf8(b)))
            } else {
                Err(invalid("Base64 decoded to invalid UTF-8"@, usage))
            },
        }
    } else if r.len() > 0 && r[0] == "--stdin"@ {
        Ok(env1(id, "evaluate"@, "script"@, input))
    } else {
        Ok(env1(id, "evaluate"@, "script"@, joined(r, " "@)))
    }
}

/// `eval <script...>`, `eval -b <base64>`, `eval --stdin` (with `input`
/// holding what standard input gave).
pub fn eval(rest: &Vec<String>, id: &str, input: &str) -> (res: Result<Envelope, ParseError>)
    ensures
        outcome(res) == eval_spec(views(rest@), id@, input@),
{
    let n = rest.len();
    let usage = "eval -b <base64-encoded-script>";
    if n > 0 && (str_eq(rest[0].as_str(), "-b") || str_eq(rest[0].as_str(), "--base64")) {
        let raw = join_from(rest, 1, " ");
        match decode_base64(raw.as_str()) {
            None => Err(invalid_value(owned("Invalid base64 encoding"), usage)),
            Some(b) => match utf8_text(b) {
                Some(s) => Ok(make1(id, "evaluate", "script", s.as_str())),
                None => Err(invalid_value(owned("Base64 decoded to invalid UTF-8"), usage)),
            },
        }
    } else if n > 0 && str_eq(rest[0].as_str(), "--stdin") {
        Ok(make1(id, "evaluate", "script", input))
    } else {
        let s = join_from(rest, 0, " ");
        assert(views(rest@).subrange(0, n as int) =~= views(rest@));
        Ok(make1(id, "evaluate", "script", s.as_str()))
    }
}

pub open spec fn connect_spec(r: Seq<Seq<char>>, id: Seq<char>) -> Outcome {
    let usage = "connect <port|url>"@;
    if r.len() == 0 {
        Err(missing("connect"@, usage))
    } else {
        let ep = r[0];
        if has_prefix(ep, "ws://"@) || has_prefix(ep, "wss://"@) || has_prefix(ep, "http://"@)
            || has_prefix(ep, "https://"@) {
            Ok(env1(id, "launch"@, "cdpUrl"@, ep))
        } else {
            match int_within(ep, false, 0, u32::MAX as int) {
                Some(p) => if p == 0 {
                    Err(invalid("Invalid port: port must be greater than 0"@, usage))
                } else if p > 65535 {
                    Err(
                        invalid(
                            "Invalid port: "@ + decimal_of(p as nat)
                                + " is out of range (valid range: 1-65535)"@,
                            usage,
                        ),
                    )
                } else {
                    Ok(with(bare(id, "launch"@), "cdpPort"@, ValueModel::Int(p)))
                },
                None => Err(
                    invalid(
                        "Invalid value: '"@ + ep + "' is not a valid port number or URL"@,
                        usage,
                    ),
                ),
            }
        }
    }
}

/// `connect <port|url>`: a WebSocket or HTTP URL, or a port in 1..=65535.
pub fn connect(rest: &Vec<String>, id: &str) -> (res: Result<Envelope, ParseError>)
    ensures
        outcome(res) == connect_spec(views(rest@), id@),
{
    let usage = "connect <port|url>";
    if rest.len() == 0 {
        return Err(missing_args("connect", usage));
    }
    let ep = rest[0].as_str();
    if starts_with(ep, "ws://") || starts_with(ep, "wss://") || starts_with(ep, "http://")
        || starts_with(ep, "https://") {
        return Ok(make1(id, "launch", "cdpUrl", ep));
    }
    match parse_uint(ep, u32::MAX as u64) {
        Some(p) => {
            if p == 0 {
                Err(invalid_value(owned("Invalid port: port must be greater than 0"), usage))
            } else if p > 65535 {
                let mut m = owned("Invalid port: ");
                push_decimal(&mut m, p);
                m.append(" is out of range (valid range: 1-65535)");
                Err(invalid_value(m, usage))
            } else {
                let mut e = Envelope::new(id, "launch");
                e.set("cdpPort", Value::Int(p as i128));
                Ok(e)
            }
        },
        None => {
            let mut m = prefixed("Invalid value: '", ep);
            m.append("' is not a valid port number or URL");
            Err(invalid_value(m, usage))
        },
    }
}

} // verus!
