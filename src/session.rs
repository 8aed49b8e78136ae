//! Cookies, tabs, windows, frames, dialogs, tracing, recording, console
//! buffers, saved state and the touch commands.
use vstd::prelude::*;
use crate::command::{Outcome, outcome, env1, env2, pos_of, find_pos, has_arg, make1, make2};
use crate::envelope::{
    Envelope, EnvelopeModel, Value, ValueModel, Scalar, ScalarModel, Entry, bare, with, text, put,
    record_view, key_index,
};
use crate::error::{
    ParseError, ParseErrorModel, missing, invalid, missing_args, invalid_value, unknown_subcommand,
};
use crate::numbers::{int_within, parse_int, parse_uint};
use crate::actions::i32_of;
use crate::text::{
    views, has_prefix, starts_with, owned, prefixed, str_eq, comma_pieces,
    split_commas,
};

verus! {

/// A list of words, as the `valid_options` of an error.
pub fn push_word(v: &mut Vec<String>, w: &str)
    ensures
        views(final(v)@) == views(old(v)@).push(w@),
{
    let s = owned(w);
    v.push(s);
    assert(views(final(v)@) =~= views(old(v)@).push(w@));
}

pub open spec fn unknown(sub: Seq<char>, valid: Seq<Seq<char>>) -> ParseErrorModel {
    ParseErrorModel::UnknownSubcommand { subcommand: sub, valid_options: valid }
}

/// Sets `key` of a record, replacing an earlier value of that key.
pub fn record_set(rec: &mut Vec<Entry>, key: &str, value: Scalar)
    ensures
        record_view(final(rec)@) == put(record_view(old(rec)@), key@, value@),
{
    let ghost fs = record_view(rec@);
    let n = rec.len();
    let mut i: usize = 0;
    while i < n
        invariant
            n == rec@.len(),
            fs == record_view(rec@),
            rec@ == old(rec)@,
            i <= n,
            forall|j: int| 0 <= j < i ==> fs[j].0 != key@,
        decreases n - i,
    {
        if str_eq(rec[i].key.as_str(), key) {
            proof {
                lemma_record_key_index(fs, key@, i as int);
            }
            let ghost vv = value@;
            rec.set(i, Entry { key: owned(key), value });
            assert(record_view(rec@) =~= fs.update(i as int, (key@, vv)));
            return;
        }
        i += 1;
    }
    proof {
        lemma_record_key_index(fs, key@, n as int);
    }
    let ghost vv = value@;
    rec.push(Entry { key: owned(key), value });
    assert(record_view(rec@) =~= fs.push((key@, vv)));
}

proof fn lemma_record_key_index(fs: Seq<(Seq<char>, ScalarModel)>, k: Seq<char>, i: int)
    requires
        0 <= i <= fs.len(),
        forall|j: int| 0 <= j < i ==> fs[j].0 != k,
        i == fs.len() || fs[i].0 == k,
    ensures
        key_index(fs, k) == i,
    decreases fs.len(),
{
    if fs.len() > 0 && i > 0 {
        let t = fs.drop_first();
        assert forall|j: int| 0 <= j < i - 1 implies t[j].0 != k by {
            assert(t[j] == fs[j + 1]);
        }
        lemma_record_key_index(t, k, i - 1);
    }
}

pub type Record = Seq<(Seq<char>, ScalarModel)>;

pub open spec fn cookie_text(c: Record, k: Seq<char>, v: Seq<char>) -> Record {
    put(c, k, ScalarModel::Text(v))
}

/// The cookie options read from index `i` on, applied to the cookie `c`.
pub open spec fn cookie_scan(r: Seq<Seq<char>>, i: int, c: Record) -> Result<Record, ParseErrorModel>
    decreases r.len() - i,
{
    if i < 0 || i >= r.len() {
        Ok(c)
    } else {
        let t = r[i];
        let more = i + 1 < r.len();
        if t == "--url"@ {
            if more {
                cookie_scan(r, i + 2, cookie_text(c, "url"@, r[i + 1]))
            } else {
                Err(missing("cookies set --url"@, "--url <url>"@))
            }
        } else if t == "--domain"@ {
            if more {
                cookie_scan(r, i + 2, cookie_text(c, "domain"@, r[i + 1]))
            } else {
                Err(missing("cookies set --domain"@, "--domain <domain>"@))
            }
        } else if t == "--path"@ {
            if more {
                cookie_scan(r, i + 2, cookie_text(c, "path"@, r[i + 1]))
            } else {
                Err(missing("cookies set --path"@, "--path <path>"@))
            }
        } else if t == "--httpOnly"@ {
            cookie_scan(r, i + 1, put(c, "httpOnly"@, ScalarModel::Bool(true)))
        } else if t == "--secure"@ {
            cookie_scan(r, i + 1, put(c, "secure"@, ScalarModel::Bool(true)))
        } else if t == "--sameSite"@ {
            if !more {
                Err(missing("cookies set --sameSite"@, "--sameSite <Strict|Lax|None>"@))
            } else if r[i + 1] == "Strict"@ || r[i + 1] == "Lax"@ || r[i + 1] == "None"@ {
                cookie_scan(r, i + 2, cookie_text(c, "sameSite"@, r[i + 1]))
            } else {
                Err(invalid("Invalid sameSite value: "@ + r[i + 1], "--sameSite <Strict|Lax|None>"@))
            }
        } else if t == "--expires"@ {
            if !more {
                Err(missing("cookies set --expires"@, "--expires <timestamp>"@))
            } else if int_within(r[i + 1], true, i64::MIN as int, i64::MAX as int) is Some {
                cookie_scan(
                    r,
                    i + 2,
                    put(
                        c,
                        "expires"@,
                        ScalarModel::Int(
                            int_within(r[i + 1], true, i64::MIN as int, i64::MAX as int)->0,
                        ),
                    ),
                )
            } else {
                Err(invalid("Invalid timestamp: "@ + r[i + 1], "--expires <timestamp>"@))
            }
        } else {
            cookie_scan(r, i + 1, c)
        }
    }
}

pub open spec fn cookies_set_usage() -> Seq<char> {
    "cookies set <name> <value> [--url <url>] [--domain <domain>] [--path <path>] [--httpOnly] [--secure] [--sameSite <Strict|Lax|None>] [--expires <timestamp>]"@
}

pub open spec fn cookies_spec(r: Seq<Seq<char>>, id: Seq<char>) -> Outcome {
    let op = if r.len() > 0 {
        r[0]
    } else {
        "get"@
    };
    if op == "set"@ {
        if r.len() < 3 {
            Err(missing("cookies set"@, cookies_set_usage()))
        } else {
            let c0 = cookie_text(cookie_text(Seq::empty(), "name"@, r[1]), "value"@, r[2]);
            match cookie_scan(r, 3, c0) {
                Ok(c) => Ok(with(bare(id, "cookies_set"@), "cookies"@, ValueModel::Records(seq![c]))),
                Err(e) => Err(e),
            }
        }
    } else if op == "clear"@ {
        Ok(bare(id, "cookies_clear"@))
    } else {
        Ok(bare(id, "cookies_get"@))
    }
}

/// Reads the cookie options from index 3 on into `rec`.
fn cookie_options(r: &Vec<String>, rec: &mut Vec<Entry>) -> (res: Result<(), ParseError>)
    ensures
        match cookie_scan(views(r@), 3, record_view(old(rec)@)) {
            Ok(c) => res is Ok && record_view(final(rec)@) == c,
            Err(e) => res matches Err(x) && x@ == e,
        },
{
    let ghost v = views(r@);
    let n = r.len();
    let mut i: usize = 3;
    while i < n
        invariant
            n == r@.len(),
            v == views(r@),
            3 <= i,
            cookie_scan(v, i as int, record_view(rec@)) == cookie_scan(v, 3, record_view(old(rec)@)),
        decreases n - i,
    {
        let t = r[i].as_str();
        let more = i < n - 1;
        if str_eq(t, "--url") {
            if !more {
                return Err(missing_args("cookies set --url", "--url <url>"));
            }
            record_set(rec, "url", Scalar::Text(r[i + 1].clone()));
            i += 2;
        } else if str_eq(t, "--domain") {
            if !more {
                return Err(missing_args("cookies set --domain", "--domain <domain>"));
            }
            record_set(rec, "domain", Scalar::Text(r[i + 1].clone()));
            i += 2;
        } else if str_eq(t, "--path") {
            if !more {
                return Err(missing_args("cookies set --path", "--path <path>"));
            }
            record_set(rec, "path", Scalar::Text(r[i + 1].clone()));
            i += 2;
        } else if str_eq(t, "--httpOnly") {
            record_set(rec, "httpOnly", Scalar::Bool(true));
            i += 1;
        } else if str_eq(t, "--secure") {
            record_set(rec, "secure", Scalar::Bool(true));
            i += 1;
        } else if str_eq(t, "--sameSite") {
            if !more {
                return Err(missing_args("cookies set --sameSite", "--sameSite <Strict|Lax|None>"));
            }
            let v = r[i + 1].as_str();
            if str_eq(v, "Strict") || str_eq(v, "Lax") || str_eq(v, "None") {
                record_set(rec, "sameSite", Scalar::Text(r[i + 1].clone()));
                i += 2;
            } else {
                return Err(
                    invalid_value(prefixed("Invalid sameSite value: ", v), "--sameSite <Strict|Lax|None>"),
                );
            }
        } else if str_eq(t, "--expires") {
            if !more {
                return Err(missing_args("cookies set --expires", "--expires <timestamp>"));
            }
            match parse_int(r[i + 1].as_str(), i64::MIN, i64::MAX) {
                Some(x) => {
                    record_set(rec, "expires", Scalar::Int(x));
                    i += 2;
                },
                None => {
                    return Err(
                        invalid_value(
                            prefixed("Invalid timestamp: ", r[i + 1].as_str()),
                            "--expires <timestamp>",
                        ),
                    );
                },
            }
        } else {
            i += 1;
        }
    }
    Ok(())
}

/// `cookies [get]`, `cookies clear`, `cookies set <name> <value> [options]`.
pub fn cookies(rest: &Vec<String>, id: &str) -> (res: Result<Envelope, ParseError>)
    ensures
        outcome(res) == cookies_spec(views(rest@), id@),
{
    let n = rest.len();
    let is_set = n > 0 && str_eq(rest[0].as_str(), "set");
    let is_clear = n > 0 && str_eq(rest[0].as_str(), "clear");
    proof {
        reveal_strlit("get");
        reveal_strlit("set");
        reveal_strlit("clear");
        assert("get"@[0] != "set"@[0]);
        assert("get"@[0] != "clear"@[0]);
        assert("get"@ != "set"@);
        assert("get"@ != "clear"@);
    }
    if is_set {
        if n < 3 {
            return Err(
                missing_args(
                    "cookies set",
                    "cookies set <name> <value> [--url <url>] [--domain <domain>] [--path <path>] [--httpOnly] [--secure] [--sameSite <Strict|Lax|None>] [--expires <timestamp>]",
                ),
            );
        }
        let mut rec: Vec<Entry> = Vec::new();
        assert(record_view(rec@) =~= Seq::empty());
        record_set(&mut rec, "name", Scalar::Text(rest[1].clone()));
        record_set(&mut rec, "value", Scalar::Text(rest[2].clone()));
        match cookie_options(rest, &mut rec) {
            Ok(()) => {
                let ghost c = record_view(rec@);
                let mut e = Envelope::new(id, "cookies_set");
                let mut list: Vec<Vec<Entry>> = Vec::new();
                list.push(rec);
                let v = Value::Records(list);
                assert(v@ == ValueModel::Records(seq![c])) by {
                    assert(list@.map_values(|x: Vec<Entry>| record_view(x@)) =~= seq![c]);
                }
                e.set("cookies", v);
                Ok(e)
            },
            Err(x) => Err(x),
        }
    } else if is_clear {
        Ok(Envelope::new(id, "cookies_clear"))
    } else {
        Ok(Envelope::new(id, "cookies_get"))
    }
}

pub open spec fn tab_spec(r: Seq<Seq<char>>, id: Seq<char>) -> Outcome {
    if r.len() > 0 && r[0] == "new"@ {
        if r.len() > 1 {
            Ok(env1(id, "tab_new"@, "url"@, r[1]))
        } else {
            Ok(bare(id, "tab_new"@))
        }
    } else if r.len() > 0 && r[0] == "list"@ {
        Ok(bare(id, "tab_list"@))
    } else if r.len() > 0 && r[0] == "close"@ {
        if r.len() > 1 && i32_of(r[1]) is Some {
            Ok(with(bare(id, "tab_close"@), "index"@, ValueModel::Int(i32_of(r[1])->0)))
        } else {
            Ok(bare(id, "tab_close"@))
        }
    } else if r.len() > 0 && i32_of(r[0]) is Some {
        Ok(with(bare(id, "tab_switch"@), "index"@, ValueModel::Int(i32_of(r[0])->0)))
    } else {
        Ok(bare(id, "tab_list"@))
    }
}

fn read_i32(s: &str) -> (r: Option<i32>)
    ensures
        match i32_of(s@) {
            Some(v) => r == Some(v as i32),
            None => r is None,
        },
{
    match parse_int(s, i32::MIN as i64, i32::MAX as i64) {
        Some(v) => Some(v as i32),
        None => None,
    }
}

/// `tab [new [url] | list | close [index] | <index>]`.
pub fn tab(rest: &Vec<String>, id: &str) -> (res: Result<Envelope, ParseError>)
    ensures
        outcome(res) == tab_spec(views(rest@), id@),
{
    let n = rest.len();
    if n > 0 && str_eq(rest[0].as_str(), "new") {
        if n > 1 {
            Ok(make1(id, "tab_new", "url", rest[1].as_str()))
        } else {
            Ok(Envelope::new(id, "tab_new"))
        }
    } else if n > 0 && str_eq(rest[0].as_str(), "list") {
        Ok(Envelope::new(id, "tab_list"))
    } else if n > 0 && str_eq(rest[0].as_str(), "close") {
        let mut e = Envelope::new(id, "tab_close");
        if n > 1 {
            match read_i32(rest[1].as_str()) {
                Some(v) => e.set("index", Value::Int(v as i128)),
                None => {},
            }
        }
        Ok(e)
    } else {
        let idx = if n > 0 {
            read_i32(rest[0].as_str())
        } else {
            None
        };
        match idx {
            Some(v) => {
                let mut e = Envelope::new(id, "tab_switch");
                e.set("index", Value::Int(v as i128));
                Ok(e)
            },
            None => Ok(Envelope::new(id, "tab_list")),
        }
    }
}

pub open spec fn window_spec(r: Seq<Seq<char>>, id: Seq<char>) -> Outcome {
    if r.len() == 0 {
        Err(missing("window"@, "window <new>"@))
    } else if r[0] == "new"@ {
        Ok(bare(id, "window_new"@))
    } else {
        Err(unknown(r[0], seq!["new"@]))
    }
}

/// `window new`.
pub fn window(rest: &Vec<String>, id: &str) -> (res: Result<Envelope, ParseError>)
    ensures
        outcome(res) == window_spec(views(rest@), id@),
{
    if rest.len() == 0 {
        return Err(missing_args("window", "window <new>"));
    }
    if str_eq(rest[0].as_str(), "new") {
        return Ok(Envelope::new(id, "window_new"));
    }
    let mut valid: Vec<String> = Vec::new();
    push_word(&mut valid, "new");
    assert(views(valid@) =~= seq!["new"@]);
    Err(unknown_subcommand(rest[0].as_str(), valid))
}

pub open spec fn frame_spec(r: Seq<Seq<char>>, id: Seq<char>) -> Outcome {
    if r.len() > 0 && r[0] == "main"@ {
        Ok(bare(id, "mainframe"@))
    } else if r.len() == 0 {
        Err(missing("frame"@, "frame <selector|main>"@))
    } else {
        Ok(env1(id, "frame"@, "selector"@, r[0]))
    }
}

/// `frame <selector|main>`.
pub fn frame(rest: &Vec<String>, id: &str) -> (res: Result<Envelope, ParseError>)
    ensures
        outcome(res) == frame_spec(views(rest@), id@),
{
    if rest.len() > 0 && str_eq(rest[0].as_str(), "main") {
        Ok(Envelope::new(id, "mainframe"))
    } else if rest.len() == 0 {
        Err(missing_args("frame", "frame <selector|main>"))
    } else {
        Ok(make1(id, "frame", "selector", rest[0].as_str()))
    }
}

pub open spec fn dialog_spec(r: Seq<Seq<char>>, id: Seq<char>) -> Outcome {
    if r.len() == 0 {
        Err(missing("dialog"@, "dialog <accept|dismiss> [text]"@))
    } else if r[0] == "accept"@ {
        let e = env1(id, "dialog"@, "response"@, "accept"@);
        if r.len() > 1 {
            Ok(with(e, "promptText"@, text(r[1])))
        } else {
            Ok(e)
        }
    } else {
        Err(unknown(r[0], seq!["accept"@, "dismiss"@]))
    }
}

/// `dialog accept [text]`.
pub fn dialog(rest: &Vec<String>, id: &str) -> (res: Result<Envelope, ParseError>)
    ensures
        outcome(res) == dialog_spec(views(rest@), id@),
{
    if rest.len() == 0 {
        return Err(missing_args("dialog", "dialog <accept|dismiss> [text]"));
    }
    if str_eq(rest[0].as_str(), "accept") {
        let mut e = make1(id, "dialog", "response", "accept");
        if rest.len() > 1 {
            e.set_text("promptText", rest[1].as_str());
        }
        return Ok(e);
    }
    let mut valid: Vec<String> = Vec::new();
    push_word(&mut valid, "accept");
    push_word(&mut valid, "dismiss");
    assert(views(valid@) =~= seq!["accept"@, "dismiss"@]);
    Err(unknown_subcommand(rest[0].as_str(), valid))
}

/// An envelope with an optional `path` from the second argument.
pub open spec fn with_path(r: Seq<Seq<char>>, e: EnvelopeModel) -> EnvelopeModel {
    if r.len() > 1 {
        with(e, "path"@, text(r[1]))
    } else {
        e
    }
}

pub open spec fn trace_spec(r: Seq<Seq<char>>, id: Seq<char>) -> Outcome {
    if r.len() == 0 {
        Err(missing("trace"@, "trace <start|stop> [path]"@))
    } else if r[0] == "start"@ {
        Ok(bare(id, "trace_start"@))
    } else if r[0] == "stop"@ {
        Ok(with_path(r, bare(id, "trace_stop"@)))
    } else {
        Err(unknown(r[0], seq!["start"@, "stop"@]))
    }
}

fn start_stop() -> (v: Vec<String>)
    ensures
        views(v@) == seq!["start"@, "stop"@],
{
    let mut valid: Vec<String> = Vec::new();
    push_word(&mut valid, "start");
    push_word(&mut valid, "stop");
    assert(views(valid@) =~= seq!["start"@, "stop"@]);
    valid
}

fn add_path(rest: &Vec<String>, e: &mut Envelope)
    ensures
        final(e)@ == with_path(views(rest@), old(e)@),
{
    if rest.len() > 1 {
        e.set_text("path", rest[1].as_str());
    }
}

/// `trace start`, `trace stop [path]`.
pub fn trace(rest: &Vec<String>, id: &str) -> (res: Result<Envelope, ParseError>)
    ensures
        outcome(res) == trace_spec(views(rest@), id@),
{
    if rest.len() == 0 {
        return Err(missing_args("trace", "trace <start|stop> [path]"));
    }
    if str_eq(rest[0].as_str(), "start") {
        return Ok(Envelope::new(id, "trace_start"));
    }
    if str_eq(rest[0].as_str(), "stop") {
        let mut e = Envelope::new(id, "trace_stop");
        add_path(rest, &mut e);
        return Ok(e);
    }
    Err(unknown_subcommand(rest[0].as_str(), start_stop()))
}

pub open spec fn profiler_spec(r: Seq<Seq<char>>, id: Seq<char>) -> Outcome {
    if r.len() == 0 {
        Err(missing("profiler"@, "profiler <start|stop> [options]"@))
    } else if r[0] == "start"@ {
        let p = pos_of(r, "--categories"@, "--categories"@);
        if p < r.len() {
            if p + 1 < r.len() {
                Ok(
                    with(
                        bare(id, "profiler_start"@),
                        "categories"@,
                        ValueModel::TextList(comma_pieces(r[p + 1])),
                    ),
                )
            } else {
                Err(missing("profiler start --categories"@, "--categories <list>"@))
            }
        } else {
            Ok(bare(id, "profiler_start"@))
        }
    } else if r[0] == "stop"@ {
        Ok(with_path(r, bare(id, "profiler_stop"@)))
    } else {
        Err(unknown(r[0], seq!["start"@, "stop"@]))
    }
}

/// `profiler start [--categories <list>]`, `profiler stop [path]`.
pub fn profiler(rest: &Vec<String>, id: &str) -> (res: Result<Envelope, ParseError>)
    ensures
        outcome(res) == profiler_spec(views(rest@), id@),
{
    let n = rest.len();
    if n == 0 {
        return Err(missing_args("profiler", "profiler <start|stop> [options]"));
    }
    if str_eq(rest[0].as_str(), "start") {
        let mut e = Envelope::new(id, "profiler_start");
        let p = find_pos(rest, "--categories", "--categories");
        if p < n {
            if p < n - 1 {
                e.set("categories", Value::TextList(split_commas(rest[p + 1].as_str())));
            } else {
                return Err(missing_args("profiler start --categories", "--categories <list>"));
            }
        }
        return Ok(e);
    }
    if str_eq(rest[0].as_str(), "stop") {
        let mut e = Envelope::new(id, "profiler_stop");
        add_path(rest, &mut e);
        return Ok(e);
    }
    Err(unknown_subcommand(rest[0].as_str(), start_stop()))
}

/// A recording's start page: kept where it starts with `http`, else
/// prefixed with `https://`.
pub open spec fn record_url(u: Seq<char>) -> Seq<char> {
    if has_prefix(u, "http"@) {
        u
    } else {
        "https://"@ + u
    }
}

pub open spec fn record_start_spec(r: Seq<Seq<char>>, id: Seq<char>, restart: bool) -> Outcome {
    let (ctx, usage, action) = if restart {
        ("record restart"@, "record restart <output.webm> [url]"@, "recording_restart"@)
    } else {
        ("record start"@, "record start <output.webm> [url]"@, "recording_start"@)
    };
    if r.len() < 2 {
        Err(missing(ctx, usage))
    } else if r.len() > 2 {
        Ok(env2(id, action, "path"@, r[1], "url"@, record_url(r[2])))
    } else {
        Ok(env1(id, action, "path"@, r[1]))
    }
}

pub open spec fn record_spec(r: Seq<Seq<char>>, id: Seq<char>) -> Outcome {
    if r.len() == 0 {
        Err(missing("record"@, "record <start|stop|restart> [path] [url]"@))
    } else if r[0] == "start"@ {
        record_start_spec(r, id, false)
    } else if r[0] == "stop"@ {
        Ok(bare(id, "recording_stop"@))
    } else if r[0] == "restart"@ {
        record_start_spec(r, id, true)
    } else {
        Err(unknown(r[0], seq!["start"@, "stop"@, "restart"@]))
    }
}

fn record_start(rest: &Vec<String>, id: &str, restart: bool) -> (res: Result<Envelope, ParseError>)
    ensures
        outcome(res) == record_start_spec(views(rest@), id@, restart),
{
    let (ctx, usage, action) = if restart {
        ("record restart", "record restart <output.webm> [url]", "recording_restart")
    } else {
        ("record start", "record start <output.webm> [url]", "recording_start")
    };
    let n = rest.len();
    if n < 2 {
        return Err(missing_args(ctx, usage));
    }
    if n > 2 {
        let u = rest[2].as_str();
        let url = if starts_with(u, "http") {
            owned(u)
        } else {
            prefixed("https://", u)
        };
        Ok(make2(id, action, "path", rest[1].as_str(), "url", url.as_str()))
    } else {
        Ok(make1(id, action, "path", rest[1].as_str()))
    }
}

/// `record start|restart <file> [url]`, `record stop`.
pub fn record(rest: &Vec<String>, id: &str) -> (res: Result<Envelope, ParseError>)
    ensures
        outcome(res) == record_spec(views(rest@), id@),
{
    if rest.len() == 0 {
        return Err(missing_args("record", "record <start|stop|restart> [path] [url]"));
    }
    let sub = rest[0].as_str();
    if str_eq(sub, "start") {
        return record_start(rest, id, false);
    }
    if str_eq(sub, "stop") {
        return Ok(Envelope::new(id, "recording_stop"));
    }
    if str_eq(sub, "restart") {
        return record_start(rest, id, true);
    }
    let mut valid: Vec<String> = Vec::new();
    push_word(&mut valid, "start");
    push_word(&mut valid, "stop");
    push_word(&mut valid, "restart");
    assert(views(valid@) =~= seq!["start"@, "stop"@, "restart"@]);
    Err(unknown_subcommand(sub, valid))
}

pub open spec fn buffer_spec(cmd: Seq<char>, r: Seq<Seq<char>>, id: Seq<char>) -> Outcome {
    Ok(with(bare(id, cmd), "clear"@, ValueModel::Bool(r.contains("--clear"@))))
}

/// `console [--clear]` and `errors [--clear]`.
pub fn buffer(cmd: &str, rest: &Vec<String>, id: &str) -> (res: Result<Envelope, ParseError>)
    ensures
        outcome(res) == buffer_spec(cmd@, views(rest@), id@),
{
    let mut e = Envelope::new(id, cmd);
    e.set("clear", Value::Bool(has_arg(rest, "--clear")));
    Ok(e)
}

pub open spec fn swipe_spec(r: Seq<Seq<char>>, id: Seq<char>) -> Outcome {
    let usage = "swipe <up|down|left|right> [distance]"@;
    if r.len() == 0 {
        Err(missing("swipe"@, usage))
    } else if !(r[0] == "up"@ || r[0] == "down"@ || r[0] == "left"@ || r[0] == "right"@) {
        Err(invalid("Invalid swipe direction: "@ + r[0], usage))
    } else {
        let e = env1(id, "swipe"@, "direction"@, r[0]);
        if r.len() > 1 && int_within(r[1], false, 0, u32::MAX as int) is Some {
            Ok(with(e, "distance"@, ValueModel::Int(int_within(r[1], false, 0, u32::MAX as int)->0)))
        } else {
            Ok(e)
        }
    }
}

/// `swipe <up|down|left|right> [distance]`.
pub fn swipe(rest: &Vec<String>, id: &str) -> (res: Result<Envelope, ParseError>)
    ensures
        outcome(res) == swipe_spec(views(rest@), id@),
{
    let usage = "swipe <up|down|left|right> [distance]";
    if rest.len() == 0 {
        return Err(missing_args("swipe", usage));
    }
    let d = rest[0].as_str();
    if !(str_eq(d, "up") || str_eq(d, "down") || str_eq(d, "left") || str_eq(d, "right")) {
        return Err(invalid_value(prefixed("Invalid swipe direction: ", d), usage));
    }
    let mut e = make1(id, "swipe", "direction", d);
    if rest.len() > 1 {
        match parse_uint(rest[1].as_str(), u32::MAX as u64) {
            Some(v) => e.set("distance", Value::Int(v as i128)),
            None => {},
        }
    }
    Ok(e)
}

pub open spec fn device_spec(r: Seq<Seq<char>>, id: Seq<char>) -> Outcome {
    if r.len() == 0 || r[0] == "list"@ {
        Ok(bare(id, "device_list"@))
    } else {
        Err(unknown(r[0], seq!["list"@]))
    }
}

/// `device [list]`.
pub fn device(rest: &Vec<String>, id: &str) -> (res: Result<Envelope, ParseError>)
    ensures
        outcome(res) == device_spec(views(rest@), id@),
{
    if rest.len() == 0 || str_eq(rest[0].as_str(), "list") {
        return Ok(Envelope::new(id, "device_list"));
    }
    let mut valid: Vec<String> = Vec::new();
    push_word(&mut valid, "list");
    assert(views(valid@) =~= seq!["list"@]);
    Err(unknown_subcommand(rest[0].as_str(), valid))
}

} // verus!
