//! Navigation and the element actions: the verbs that take a selector, a
//! key or a path, and the few with extra arguments.
use vstd::prelude::*;
use crate::command::{Outcome, outcome, env1, env2, has_arg, make1, make2};
use crate::envelope::{Envelope, EnvelopeModel, Value, ValueModel, with, text};
use crate::error::{ParseError, missing, invalid, missing_args, invalid_value};
use crate::external::{is_json_document, json_parses};
use crate::flags::{Flags, FlagsModel};
use crate::numbers::{int_within, parse_int};
use crate::text::{
    views, joined, has_prefix, lowercase_of, to_lowercase, starts_with, owned, prefixed, join_from,
    tail_from, str_eq,
};

verus! {

/// Schemes that a navigation target keeps as it is.
pub open spec fn has_scheme(lower: Seq<char>) -> bool {
    has_prefix(lower, "http://"@) || has_prefix(lower, "https://"@) || has_prefix(lower, "about:"@)
        || has_prefix(lower, "data:"@) || has_prefix(lower, "file:"@)
}

/// A navigation target: kept where it names a scheme (in any case),
/// otherwise prefixed with `https://`.
pub open spec fn normalized_url(url: Seq<char>) -> Seq<char> {
    if has_scheme(lowercase_of(url)) {
        url
    } else {
        "https://"@ + url
    }
}

/// Normalises a navigation target.
pub fn normalize_url(url: &str) -> (r: String)
    ensures
        r@ == normalized_url(url@),
{
    let lower = to_lowercase(url);
    let l = lower.as_str();
    if starts_with(l, "http://") || starts_with(l, "https://") || starts_with(l, "about:")
        || starts_with(l, "data:") || starts_with(l, "file:") {
        owned(url)
    } else {
        prefixed("https://", url)
    }
}

pub open spec fn nav_spec(cmd: Seq<char>, r: Seq<Seq<char>>, id: Seq<char>, f: FlagsModel) -> Outcome {
    if r.len() == 0 {
        Err(missing(cmd, "open <url>"@))
    } else {
        let e = env1(id, "navigate"@, "url"@, normalized_url(r[0]));
        match f.headers {
            Some(h) => if !is_json_document(h) {
                Err(invalid("Invalid JSON for --headers: "@ + h, "open <url> --headers '{\"Key\": \"Value\"}'"@))
            } else {
                Ok(device_spec(with(e, "headers"@, ValueModel::Json(h)), f))
            },
            None => Ok(device_spec(e, f)),
        }
    }
}

/// The iOS device, where the provider is `ios` and a device is named.
pub open spec fn device_spec(e: EnvelopeModel, f: FlagsModel) -> EnvelopeModel {
    if f.provider == Some("ios"@) && f.device is Some {
        with(e, "iosDevice"@, text(f.device->0))
    } else {
        e
    }
}

fn add_device(e: &mut Envelope, f: &Flags)
    ensures
        final(e)@ == device_spec(old(e)@, f@),
{
    match &f.provider {
        Some(p) => {
            if str_eq(p.as_str(), "ios") {
                match &f.device {
                    Some(d) => e.set_text("iosDevice", d.as_str()),
                    None => {},
                }
            }
        },
        None => {},
    }
}

/// `open`, `goto`, `navigate`.
pub fn navigate(cmd: &str, rest: &Vec<String>, id: &str, f: &Flags) -> (res: Result<Envelope, ParseError>)
    ensures
        outcome(res) == nav_spec(cmd@, views(rest@), id@, f@),
{
    if rest.len() == 0 {
        return Err(missing_args(cmd, "open <url>"));
    }
    let url = normalize_url(rest[0].as_str());
    let mut e = make1(id, "navigate", "url", url.as_str());
    match &f.headers {
        Some(h) => {
            if !json_parses(h.as_str()) {
                return Err(
                    invalid_value(
                        prefixed("Invalid JSON for --headers: ", h.as_str()),
                        "open <url> --headers '{\"Key\": \"Value\"}'",
                    ),
                );
            }
            e.set("headers", Value::Json(owned(h.as_str())));
        },
        None => {},
    }
    add_device(&mut e, f);
    Ok(e)
}

/// The verbs that take one argument into one field: the error context, the
/// usage, the action and the field.
pub open spec fn single_table(cmd: Seq<char>) -> Option<(Seq<char>, Seq<char>, Seq<char>, Seq<char>)> {
    if cmd == "dblclick"@ {
        Some(("dblclick"@, "dblclick <selector>"@, "dblclick"@, "selector"@))
    } else if cmd == "hover"@ {
        Some(("hover"@, "hover <selector>"@, "hover"@, "selector"@))
    } else if cmd == "focus"@ {
        Some(("focus"@, "focus <selector>"@, "focus"@, "selector"@))
    } else if cmd == "check"@ {
        Some(("check"@, "check <selector>"@, "check"@, "selector"@))
    } else if cmd == "uncheck"@ {
        Some(("uncheck"@, "uncheck <selector>"@, "uncheck"@, "selector"@))
    } else if cmd == "press"@ || cmd == "key"@ {
        Some(("press"@, "press <key>"@, "press"@, "key"@))
    } else if cmd == "keydown"@ {
        Some(("keydown"@, "keydown <key>"@, "keydown"@, "key"@))
    } else if cmd == "keyup"@ {
        Some(("keyup"@, "keyup <key>"@, "keyup"@, "key"@))
    } else if cmd == "scrollintoview"@ || cmd == "scrollinto"@ {
        Some(("scrollintoview"@, "scrollintoview <selector>"@, "scrollintoview"@, "selector"@))
    } else if cmd == "pdf"@ {
        Some(("pdf"@, "pdf <path>"@, "pdf"@, "path"@))
    } else if cmd == "highlight"@ {
        Some(("highlight"@, "highlight <selector>"@, "highlight"@, "selector"@))
    } else if cmd == "tap"@ {
        Some(("tap"@, "tap <selector>"@, "tap"@, "selector"@))
    } else {
        None
    }
}

/// Looks `cmd` up in `single_table`.
pub fn single_of(cmd: &str) -> (r: Option<(&'static str, &'static str, &'static str, &'static str)>)
    ensures
        match r {
            Some(t) => single_table(cmd@) == Some((t.0@, t.1@, t.2@, t.3@)),
            None => single_table(cmd@) is None,
        },
{
    if str_eq(cmd, "dblclick") {
        Some(("dblclick", "dblclick <selector>", "dblclick", "selector"))
    } else if str_eq(cmd, "hover") {
        Some(("hover", "hover <selector>", "hover", "selector"))
    } else if str_eq(cmd, "focus") {
        Some(("focus", "focus <selector>", "focus", "selector"))
    } else if str_eq(cmd, "check") {
        Some(("check", "check <selector>", "check", "selector"))
    } else if str_eq(cmd, "uncheck") {
        Some(("uncheck", "uncheck <selector>", "uncheck", "selector"))
    } else if str_eq(cmd, "press") || str_eq(cmd, "key") {
        Some(("press", "press <key>", "press", "key"))
    } else if str_eq(cmd, "keydown") {
        Some(("keydown", "keydown <key>", "keydown", "key"))
    } else if str_eq(cmd, "keyup") {
        Some(("keyup", "keyup <key>", "keyup", "key"))
    } else if str_eq(cmd, "scrollintoview") || str_eq(cmd, "scrollinto") {
        Some(("scrollintoview", "scrollintoview <selector>", "scrollintoview", "selector"))
    } else if str_eq(cmd, "pdf") {
        Some(("pdf", "pdf <path>", "pdf", "path"))
    } else if str_eq(cmd, "highlight") {
        Some(("highlight", "highlight <selector>", "highlight", "selector"))
    } else if str_eq(cmd, "tap") {
        Some(("tap", "tap <selector>", "tap", "selector"))
    } else {
        None
    }
}

pub open spec fn single_spec(
    t: (Seq<char>, Seq<char>, Seq<char>, Seq<char>),
    r: Seq<Seq<char>>,
    id: Seq<char>,
) -> Outcome {
    if r.len() == 0 {
        Err(missing(t.0, t.1))
    } else {
        Ok(env1(id, t.2, t.3, r[0]))
    }
}

/// A verb of `single_table`.
pub fn single(
    t: (&'static str, &'static str, &'static str, &'static str),
    rest: &Vec<String>,
    id: &str,
) -> (res: Result<Envelope, ParseError>)
    ensures
        outcome(res) == single_spec((t.0@, t.1@, t.2@, t.3@), views(rest@), id@),
{
    if rest.len() == 0 {
        Err(missing_args(t.0, t.1))
    } else {
        Ok(make1(id, t.2, t.3, rest[0].as_str()))
    }
}

/// The verbs that take no argument, with their actions.
pub open spec fn plain_table(cmd: Seq<char>) -> Option<Seq<char>> {
    if cmd == "back"@ {
        Some("back"@)
    } else if cmd == "forward"@ {
        Some("forward"@)
    } else if cmd == "reload"@ {
        Some("reload"@)
    } else if cmd == "close"@ || cmd == "quit"@ || cmd == "exit"@ {
        Some("close"@)
    } else {
        None
    }
}

/// Looks `cmd` up in `plain_table`.
pub fn plain_of(cmd: &str) -> (r: Option<&'static str>)
    ensures
        match r {
            Some(a) => plain_table(cmd@) == Some(a@),
            None => plain_table(cmd@) is None,
        },
{
    if str_eq(cmd, "back") {
        Some("back")
    } else if str_eq(cmd, "forward") {
        Some("forward")
    } else if str_eq(cmd, "reload") {
        Some("reload")
    } else if str_eq(cmd, "close") || str_eq(cmd, "quit") || str_eq(cmd, "exit") {
        Some("close")
    } else {
        None
    }
}

/// Index of the first argument other than `x` (the length where there is none).
pub open spec fn pos_other(r: Seq<Seq<char>>, x: Seq<char>) -> int
    decreases r.len(),
{
    if r.len() == 0 {
        0
    } else if r[0] != x {
        0
    } else {
        1 + pos_other(r.drop_first(), x)
    }
}

proof fn lemma_pos_other(r: Seq<Seq<char>>, x: Seq<char>, i: int)
    requires
        0 <= i <= r.len(),
        forall|j: int| 0 <= j < i ==> r[j] == x,
        i == r.len() || r[i] != x,
    ensures
        pos_other(r, x) == i,
    decreases r.len(),
{
    if r.len() > 0 && i > 0 {
        let t = r.drop_first();
        assert forall|j: int| 0 <= j < i - 1 implies t[j] == x by {
            assert(t[j] == r[j + 1]);
        }
        lemma_pos_other(t, x, i - 1);
    }
}

/// The index of the first argument other than `x`.
pub fn first_other(rest: &Vec<String>, x: &str) -> (r: usize)
    ensures
        r as int == pos_other(views(rest@), x@),
        r <= rest@.len(),
{
    let n = rest.len();
    let mut i: usize = 0;
    while i < n
        invariant
            n == rest@.len(),
            i <= n,
            forall|j: int| 0 <= j < i ==> rest@[j]@ == x@,
        decreases n - i,
    {
        if !str_eq(rest[i].as_str(), x) {
            proof {
                lemma_pos_other(views(rest@), x@, i as int);
            }
            return i;
        }
        i += 1;
    }
    proof {
        lemma_pos_other(views(rest@), x@, n as int);
    }
    n
}

pub open spec fn click_spec(r: Seq<Seq<char>>, id: Seq<char>) -> Outcome {
    let p = pos_other(r, "--new-tab"@);
    if p >= r.len() {
        Err(missing("click"@, "click <selector> [--new-tab]"@))
    } else if r.contains("--new-tab"@) {
        Ok(with(env1(id, "click"@, "selector"@, r[p]), "newTab"@, ValueModel::Bool(true)))
    } else {
        Ok(env1(id, "click"@, "selector"@, r[p]))
    }
}

/// `click <selector> [--new-tab]`.
pub fn click(rest: &Vec<String>, id: &str) -> (res: Result<Envelope, ParseError>)
    ensures
        outcome(res) == click_spec(views(rest@), id@),
{
    let new_tab = has_arg(rest, "--new-tab");
    let n = rest.len();
    let i = first_other(rest, "--new-tab");
    if i >= n {
        return Err(missing_args("click", "click <selector> [--new-tab]"));
    }
    let mut e = make1(id, "click", "selector", rest[i].as_str());
    if new_tab {
        e.set("newTab", Value::Bool(true));
    }
    Ok(e)
}

/// The arguments from index 1 on, joined by single spaces.
pub open spec fn rest_text(r: Seq<Seq<char>>) -> Seq<char> {
    joined(r.subrange(1, r.len() as int), " "@)
}

pub open spec fn fill_spec(cmd: Seq<char>, r: Seq<Seq<char>>, id: Seq<char>) -> Outcome {
    if cmd == "fill"@ {
        if r.len() == 0 {
            Err(missing("fill"@, "fill <selector> <text>"@))
        } else {
            Ok(env2(id, "fill"@, "selector"@, r[0], "value"@, rest_text(r)))
        }
    } else {
        if r.len() == 0 {
            Err(missing("type"@, "type <selector> <text>"@))
        } else {
            Ok(env2(id, "type"@, "selector"@, r[0], "text"@, rest_text(r)))
        }
    }
}

/// `fill <selector> <text...>` and `type <selector> <text...>`.
pub fn fill_or_type(cmd: &str, rest: &Vec<String>, id: &str) -> (res: Result<Envelope, ParseError>)
    ensures
        outcome(res) == fill_spec(cmd@, views(rest@), id@),
{
    let is_fill = str_eq(cmd, "fill");
    if rest.len() == 0 {
        if is_fill {
            return Err(missing_args("fill", "fill <selector> <text>"));
        } else {
            return Err(missing_args("type", "type <selector> <text>"));
        }
    }
    let t = join_from(rest, 1, " ");
    if is_fill {
        Ok(make2(id, "fill", "selector", rest[0].as_str(), "value", t.as_str()))
    } else {
        Ok(make2(id, "type", "selector", rest[0].as_str(), "text", t.as_str()))
    }
}

pub open spec fn select_spec(r: Seq<Seq<char>>, id: Seq<char>) -> Outcome {
    if r.len() < 2 {
        Err(missing("select"@, "select <selector> <value...>"@))
    } else if r.len() == 2 {
        Ok(env2(id, "select"@, "selector"@, r[0], "values"@, r[1]))
    } else {
        Ok(
            with(
                env1(id, "select"@, "selector"@, r[0]),
                "values"@,
                ValueModel::TextList(r.subrange(1, r.len() as int)),
            ),
        )
    }
}

/// `select <selector> <value...>`: one value as text, several as a list.
pub fn select(rest: &Vec<String>, id: &str) -> (res: Result<Envelope, ParseError>)
    ensures
        outcome(res) == select_spec(views(rest@), id@),
{
    if rest.len() < 2 {
        return Err(missing_args("select", "select <selector> <value...>"));
    }
    if rest.len() == 2 {
        return Ok(make2(id, "select", "selector", rest[0].as_str(), "values", rest[1].as_str()));
    }
    let mut e = make1(id, "select", "selector", rest[0].as_str());
    e.set("values", Value::TextList(tail_from(rest, 1)));
    Ok(e)
}

pub open spec fn pair_table(cmd: Seq<char>) -> (Seq<char>, Seq<char>, Seq<char>) {
    if cmd == "drag"@ {
        ("drag <source> <target>"@, "source"@, "target"@)
    } else {
        ("download <selector> <path>"@, "selector"@, "path"@)
    }
}

pub open spec fn pair_spec(cmd: Seq<char>, r: Seq<Seq<char>>, id: Seq<char>) -> Outcome {
    let t = pair_table(cmd);
    if r.len() < 2 {
        Err(missing(cmd, t.0))
    } else {
        Ok(env2(id, cmd, t.1, r[0], t.2, r[1]))
    }
}

/// `drag <source> <target>` and `download <selector> <path>`.
pub fn pair(cmd: &str, rest: &Vec<String>, id: &str) -> (res: Result<Envelope, ParseError>)
    ensures
        outcome(res) == pair_spec(cmd@, views(rest@), id@),
{
    let (usage, k1, k2) = if str_eq(cmd, "drag") {
        ("drag <source> <target>", "source", "target")
    } else {
        ("download <selector> <path>", "selector", "path")
    };
    if rest.len() < 2 {
        return Err(missing_args(cmd, usage));
    }
    Ok(make2(id, cmd, k1, rest[0].as_str(), k2, rest[1].as_str()))
}

pub open spec fn upload_spec(r: Seq<Seq<char>>, id: Seq<char>) -> Outcome {
    if r.len() == 0 {
        Err(missing("upload"@, "upload <selector> <files...>"@))
    } else {
        Ok(
            with(
                env1(id, "upload"@, "selector"@, r[0]),
                "files"@,
                ValueModel::TextList(r.subrange(1, r.len() as int)),
            ),
        )
    }
}

/// `upload <selector> <files...>`.
pub fn upload(rest: &Vec<String>, id: &str) -> (res: Result<Envelope, ParseError>)
    ensures
        outcome(res) == upload_spec(views(rest@), id@),
{
    if rest.len() == 0 {
        return Err(missing_args("upload", "upload <selector> <files...>"));
    }
    let mut e = make1(id, "upload", "selector", rest[0].as_str());
    e.set("files", Value::TextList(tail_from(rest, 1)));
    Ok(e)
}

pub open spec fn i32_of(s: Seq<char>) -> Option<int> {
    int_within(s, true, i32::MIN as int, i32::MAX as int)
}

pub open spec fn scroll_spec(r: Seq<Seq<char>>, id: Seq<char>) -> Outcome {
    let dir = if r.len() > 0 {
        r[0]
    } else {
        "down"@
    };
    let amount = if r.len() > 1 && i32_of(r[1]) is Some {
        i32_of(r[1])->0
    } else {
        300
    };
    Ok(with(env1(id, "scroll"@, "direction"@, dir), "amount"@, ValueModel::Int(amount)))
}

/// `scroll [direction] [amount]`: down by 300 by default.
pub fn scroll(rest: &Vec<String>, id: &str) -> (res: Result<Envelope, ParseError>)
    ensures
        outcome(res) == scroll_spec(views(rest@), id@),
{
    let mut e = if rest.len() > 0 {
        make1(id, "scroll", "direction", rest[0].as_str())
    } else {
        make1(id, "scroll", "direction", "down")
    };
    let mut amount: i128 = 300;
    if rest.len() > 1 {
        match parse_int(rest[1].as_str(), i32::MIN as i64, i32::MAX as i64) {
            Some(v) => {
                amount = v as i128;
            },
            None => {},
        }
    }
    e.set("amount", Value::Int(amount));
    Ok(e)
}

} // verus!
