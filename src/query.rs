//! `get`, `is` and `find`: reading from the page and locating elements.
use vstd::prelude::*;
use crate::command::{Outcome, outcome, env1, env2, pos_of, find_pos, has_arg, make1, make2};
use crate::envelope::{Envelope, EnvelopeModel, Value, ValueModel, bare, with, text};
use crate::error::{ParseError, missing, invalid, missing_args, invalid_value, unknown_subcommand};
use crate::numbers::parse_int;
use crate::actions::i32_of;
use crate::page::opt_text;
use crate::session::{push_word, unknown};
use crate::text::{views, joined, prefixed, str_eq, join_from};

verus! {

/// The `get` subcommands that read from one selector: action and usage.
pub open spec fn get_table(sub: Seq<char>) -> Option<(Seq<char>, Seq<char>)> {
    if sub == "text"@ {
        Some(("gettext"@, "get text <selector>"@))
    } else if sub == "html"@ {
        Some(("innerhtml"@, "get html <selector>"@))
    } else if sub == "value"@ {
        Some(("inputvalue"@, "get value <selector>"@))
    } else if sub == "count"@ {
        Some(("count"@, "get count <selector>"@))
    } else if sub == "box"@ {
        Some(("boundingbox"@, "get box <selector>"@))
    } else if sub == "styles"@ {
        Some(("styles"@, "get styles <selector>"@))
    } else {
        None
    }
}

fn get_of(sub: &str) -> (r: Option<(&'static str, &'static str)>)
    ensures
        match r {
            Some(t) => get_table(sub@) == Some((t.0@, t.1@)),
            None => get_table(sub@) is None,
        },
{
    if str_eq(sub, "text") {
        Some(("gettext", "get text <selector>"))
    } else if str_eq(sub, "html") {
        Some(("innerhtml", "get html <selector>"))
    } else if str_eq(sub, "value") {
        Some(("inputvalue", "get value <selector>"))
    } else if str_eq(sub, "count") {
        Some(("count", "get count <selector>"))
    } else if str_eq(sub, "box") {
        Some(("boundingbox", "get box <selector>"))
    } else if str_eq(sub, "styles") {
        Some(("styles", "get styles <selector>"))
    } else {
        None
    }
}

pub open spec fn get_words() -> Seq<Seq<char>> {
    seq!["text"@, "html"@, "value"@, "attr"@, "url"@, "title"@, "count"@, "box"@, "styles"@]
}

pub open spec fn get_spec(r: Seq<Seq<char>>, id: Seq<char>) -> Outcome {
    if r.len() == 0 {
        Err(missing("get"@, "get <text|html|value|attr|url|title|count|box|styles> [args...]"@))
    } else {
        let sub = r[0];
        match get_table(sub) {
            Some((action, usage)) => if r.len() < 2 {
                Err(missing("get "@ + sub, usage))
            } else {
                Ok(env1(id, action, "selector"@, r[1]))
            },
            None => if sub == "attr"@ {
                if r.len() < 3 {
                    Err(missing("get attr"@, "get attr <selector> <attribute>"@))
                } else {
                    Ok(env2(id, "getattribute"@, "selector"@, r[1], "attribute"@, r[2]))
                }
            } else if sub == "url"@ {
                Ok(bare(id, "url"@))
            } else if sub == "title"@ {
                Ok(bare(id, "title"@))
            } else {
                Err(unknown(sub, get_words()))
            },
        }
    }
}

/// `get <text|html|value|attr|url|title|count|box|styles> [args]`.
pub fn parse_get(rest: &Vec<String>, id: &str) -> (res: Result<Envelope, ParseError>)
    ensures
        outcome(res) == get_spec(views(rest@), id@),
{
    let n = rest.len();
    if n == 0 {
        return Err(
            missing_args("get", "get <text|html|value|attr|url|title|count|box|styles> [args...]"),
        );
    }
    let sub = rest[0].as_str();
    match get_of(sub) {
        Some((action, usage)) => {
            if n < 2 {
                let ctx = prefixed("get ", sub);
                Err(missing_args(ctx.as_str(), usage))
            } else {
                Ok(make1(id, action, "selector", rest[1].as_str()))
            }
        },
        None => {
            if str_eq(sub, "attr") {
                if n < 3 {
                    Err(missing_args("get attr", "get attr <selector> <attribute>"))
                } else {
                    Ok(
                        make2(
                            id,
                            "getattribute",
                            "selector",
                            rest[1].as_str(),
                            "attribute",
                            rest[2].as_str(),
                        ),
                    )
                }
            } else if str_eq(sub, "url") {
                Ok(Envelope::new(id, "url"))
            } else if str_eq(sub, "title") {
                Ok(Envelope::new(id, "title"))
            } else {
                let mut valid: Vec<String> = Vec::new();
                push_word(&mut valid, "text");
                push_word(&mut valid, "html");
                push_word(&mut valid, "value");
                push_word(&mut valid, "attr");
                push_word(&mut valid, "url");
                push_word(&mut valid, "title");
                push_word(&mut valid, "count");
                push_word(&mut valid, "box");
                push_word(&mut valid, "styles");
                assert(views(valid@) =~= get_words());
                Err(unknown_subcommand(sub, valid))
            }
        },
    }
}

/// The `is` states: action.
pub open spec fn is_table(sub: Seq<char>) -> Option<Seq<char>> {
    if sub == "visible"@ {
        Some("isvisible"@)
    } else if sub == "enabled"@ {
        Some("isenabled"@)
    } else if sub == "checked"@ {
        Some("ischecked"@)
    } else {
        None
    }
}

pub open spec fn is_spec(r: Seq<Seq<char>>, id: Seq<char>) -> Outcome {
    if r.len() == 0 {
        Err(missing("is"@, "is <visible|enabled|checked> <selector>"@))
    } else {
        match is_table(r[0]) {
            Some(action) => if r.len() < 2 {
                Err(missing("is "@ + r[0], "is "@ + r[0] + " <selector>"@))
            } else {
                Ok(env1(id, action, "selector"@, r[1]))
            },
            None => Err(unknown(r[0], seq!["visible"@, "enabled"@, "checked"@])),
        }
    }
}

/// `is <visible|enabled|checked> <selector>`.
pub fn parse_is(rest: &Vec<String>, id: &str) -> (res: Result<Envelope, ParseError>)
    ensures
        outcome(res) == is_spec(views(rest@), id@),
{
    let n = rest.len();
    if n == 0 {
        return Err(missing_args("is", "is <visible|enabled|checked> <selector>"));
    }
    let sub = rest[0].as_str();
    let action = if str_eq(sub, "visible") {
        "isvisible"
    } else if str_eq(sub, "enabled") {
        "isenabled"
    } else if str_eq(sub, "checked") {
        "ischecked"
    } else {
        let mut valid: Vec<String> = Vec::new();
        push_word(&mut valid, "visible");
        push_word(&mut valid, "enabled");
        push_word(&mut valid, "checked");
        assert(views(valid@) =~= seq!["visible"@, "enabled"@, "checked"@]);
        return Err(unknown_subcommand(sub, valid));
    };
    if n < 2 {
        let ctx = prefixed("is ", sub);
        let mut usage = prefixed("is ", sub);
        usage.append(" <selector>");
        return Err(missing_args(ctx.as_str(), usage.as_str()));
    }
    Ok(make1(id, action, "selector", rest[1].as_str()))
}

/// The `find` locators other than `nth`, by code 0 to 8: usage, action,
/// the field that holds the value, whether `exact` and a fill value apply.
pub open spec fn locator_table(loc: Seq<char>) -> Option<(Seq<char>, Seq<char>, Seq<char>, bool, bool, int)> {
    if loc == "role"@ {
        Some(("find role <role> [action] [--name <name>] [--exact]"@, "getbyrole"@, "role"@, true, true, 0))
    } else if loc == "text"@ {
        Some(("find text <text> [action] [--exact]"@, "getbytext"@, "text"@, true, false, 1))
    } else if loc == "label"@ {
        Some(("find label <label> [action] [text] [--exact]"@, "getbylabel"@, "label"@, true, true, 2))
    } else if loc == "placeholder"@ {
        Some(
            (
                "find placeholder <text> [action] [text] [--exact]"@,
                "getbyplaceholder"@,
                "placeholder"@,
                true,
                true,
                3,
            ),
        )
    } else if loc == "alt"@ {
        Some(("find alt <text> [action] [--exact]"@, "getbyalttext"@, "text"@, true, false, 4))
    } else if loc == "title"@ {
        Some(("find title <text> [action] [--exact]"@, "getbytitle"@, "text"@, true, false, 5))
    } else if loc == "testid"@ {
        Some(("find testid <id> [action] [text]"@, "getbytestid"@, "testId"@, false, true, 6))
    } else if loc == "first"@ {
        Some(("find first <selector> [action] [text]"@, "nth"@, "selector"@, false, true, 7))
    } else if loc == "last"@ {
        Some(("find last <selector> [action] [text]"@, "nth"@, "selector"@, false, true, 8))
    } else {
        None
    }
}

fn locator_of(loc: &str) -> (r: Option<(&'static str, &'static str, &'static str, bool, bool, u8)>)
    ensures
        match r {
            Some(t) => locator_table(loc@) == Some((t.0@, t.1@, t.2@, t.3, t.4, t.5 as int)),
            None => locator_table(loc@) is None,
        },
{
    if str_eq(loc, "role") {
        Some(("find role <role> [action] [--name <name>] [--exact]", "getbyrole", "role", true, true, 0))
    } else if str_eq(loc, "text") {
        Some(("find text <text> [action] [--exact]", "getbytext", "text", true, false, 1))
    } else if str_eq(loc, "label") {
        Some(("find label <label> [action] [text] [--exact]", "getbylabel", "label", true, true, 2))
    } else if str_eq(loc, "placeholder") {
        Some(
            (
                "find placeholder <text> [action] [text] [--exact]",
                "getbyplaceholder",
                "placeholder",
                true,
                true,
                3,
            ),
        )
    } else if str_eq(loc, "alt") {
        Some(("find alt <text> [action] [--exact]", "getbyalttext", "text", true, false, 4))
    } else if str_eq(loc, "title") {
        Some(("find title <text> [action] [--exact]", "getbytitle", "text", true, false, 5))
    } else if str_eq(loc, "testid") {
        Some(("find testid <id> [action] [text]", "getbytestid", "testId", false, true, 6))
    } else if str_eq(loc, "first") {
        Some(("find first <selector> [action] [text]", "nth", "selector", false, true, 7))
    } else if str_eq(loc, "last") {
        Some(("find last <selector> [action] [text]", "nth", "selector", false, true, 8))
    } else {
        None
    }
}

/// The argument at `i`, or `click` where there is none.
pub open spec fn subaction_at(r: Seq<Seq<char>>, i: int) -> Seq<char> {
    if i < r.len() {
        r[i]
    } else {
        "click"@
    }
}

/// The arguments from `i` on, joined by spaces, where there are any.
pub open spec fn fill_from(r: Seq<Seq<char>>, i: int) -> Option<Seq<char>> {
    if r.len() > i {
        Some(joined(r.subrange(i, r.len() as int), " "@))
    } else {
        None
    }
}

pub open spec fn with_fill(e: EnvelopeModel, fill: Option<Seq<char>>) -> EnvelopeModel {
    match fill {
        Some(v) => with(e, "value"@, text(v)),
        None => e,
    }
}

/// The envelope of a locator of `locator_table`.
pub open spec fn locator_env(
    t: (Seq<char>, Seq<char>, Seq<char>, bool, bool, int),
    r: Seq<Seq<char>>,
    id: Seq<char>,
) -> EnvelopeModel {
    let e0 = env1(id, t.1, t.2, r[1]);
    let e1 = if t.5 == 7 {
        with(e0, "index"@, ValueModel::Int(0))
    } else if t.5 == 8 {
        with(e0, "index"@, ValueModel::Int(-1))
    } else {
        e0
    };
    let e2 = with(e1, "subaction"@, text(subaction_at(r, 2)));
    let pn = pos_of(r, "--name"@, "--name"@);
    let e3 = if t.5 == 0 {
        with(e2, "name"@, opt_text(if pn + 1 < r.len() { Some(r[pn + 1]) } else { None }))
    } else {
        e2
    };
    let e4 = if t.3 {
        with(e3, "exact"@, ValueModel::Bool(r.contains("--exact"@)))
    } else {
        e3
    };
    if t.4 {
        with_fill(e4, fill_from(r, 3))
    } else {
        e4
    }
}

pub open spec fn nth_usage() -> Seq<char> {
    "find nth <index> <selector> [action] [text]"@
}

pub open spec fn find_words() -> Seq<Seq<char>> {
    seq![
        "role"@,
        "text"@,
        "label"@,
        "placeholder"@,
        "alt"@,
        "title"@,
        "testid"@,
        "first"@,
        "last"@,
        "nth"@,
    ]
}

pub open spec fn find_spec(r: Seq<Seq<char>>, id: Seq<char>) -> Outcome {
    if r.len() == 0 {
        Err(missing("find"@, "find <locator> <value> [action] [text]"@))
    } else {
        let loc = r[0];
        match locator_table(loc) {
            Some(t) => if r.len() < 2 {
                Err(missing("find "@ + loc, t.0))
            } else {
                Ok(locator_env(t, r, id))
            },
            None => if loc == "nth"@ {
                if r.len() < 2 {
                    Err(missing("find nth"@, nth_usage()))
                } else if i32_of(r[1]) is None {
                    Err(invalid("Invalid index: "@ + r[1], nth_usage()))
                } else if r.len() < 3 {
                    Err(missing("find nth"@, nth_usage()))
                } else {
                    Ok(
                        with_fill(
                            with(
                                with(
                                    env1(id, "nth"@, "selector"@, r[2]),
                                    "index"@,
                                    ValueModel::Int(i32_of(r[1])->0),
                                ),
                                "subaction"@,
                                text(subaction_at(r, 3)),
                            ),
                            fill_from(r, 4),
                        ),
                    )
                }
            } else {
                Err(unknown(loc, find_words()))
            },
        }
    }
}

fn add_fill(e: &mut Envelope, rest: &Vec<String>, from: usize)
    ensures
        final(e)@ == with_fill(old(e)@, fill_from(views(rest@), from as int)),
{
    if rest.len() > from {
        let v = join_from(rest, from, " ");
        e.set_text("value", v.as_str());
    }
}

fn subaction(rest: &Vec<String>, i: usize) -> (r: &str)
    ensures
        r@ == subaction_at(views(rest@), i as int),
{
    if i < rest.len() {
        rest[i].as_str()
    } else {
        "click"
    }
}

fn locator(
    t: (&'static str, &'static str, &'static str, bool, bool, u8),
    rest: &Vec<String>,
    id: &str,
) -> (e: Envelope)
    requires
        rest@.len() >= 2,
    ensures
        e@ == locator_env((t.0@, t.1@, t.2@, t.3, t.4, t.5 as int), views(rest@), id@),
{
    let mut e = make1(id, t.1, t.2, rest[1].as_str());
    if t.5 == 7 {
        e.set("index", Value::Int(0));
    } else if t.5 == 8 {
        e.set("index", Value::Int(-1));
    }
    e.set_text("subaction", subaction(rest, 2));
    if t.5 == 0 {
        let pn = find_pos(rest, "--name", "--name");
        if pn < rest.len() - 1 {
            e.set_text("name", rest[pn + 1].as_str());
        } else {
            e.set("name", Value::Null);
        }
    }
    if t.3 {
        e.set("exact", Value::Bool(has_arg(rest, "--exact")));
    }
    if t.4 {
        add_fill(&mut e, rest, 3);
    }
    e
}

/// `find <locator> <value> [action] [text...]` and
/// `find nth <index> <selector> [action] [text...]`.
pub fn parse_find(rest: &Vec<String>, id: &str) -> (res: Result<Envelope, ParseError>)
    ensures
        outcome(res) == find_spec(views(rest@), id@),
{
    let n = rest.len();
    if n == 0 {
        return Err(missing_args("find", "find <locator> <value> [action] [text]"));
    }
    let loc = rest[0].as_str();
    match locator_of(loc) {
        Some(t) => {
            if n < 2 {
                let ctx = prefixed("find ", loc);
                Err(missing_args(ctx.as_str(), t.0))
            } else {
                Ok(locator(t, rest, id))
            }
        },
        None => {
            if str_eq(loc, "nth") {
                if n < 2 {
                    return Err(missing_args("find nth", "find nth <index> <selector> [action] [text]"));
                }
                match parse_int(rest[1].as_str(), i32::MIN as i64, i32::MAX as i64) {
                    Some(k) => {
                        if n < 3 {
                            return Err(
                                missing_args("find nth", "find nth <index> <selector> [action] [text]"),
                            );
                        }
                        let mut e = make1(id, "nth", "selector", rest[2].as_str());
                        e.set("index", Value::Int(k as i128));
                        e.set_text("subaction", subaction(rest, 3));
                        add_fill(&mut e, rest, 4);
                        Ok(e)
                    },
                    None => Err(
                        invalid_value(
                            prefixed("Invalid index: ", rest[1].as_str()),
                            "find nth <index> <selector> [action] [text]",
                        ),
                    ),
                }
            } else {
                let mut valid: Vec<String> = Vec::new();
                push_word(&mut valid, "role");
                push_word(&mut valid, "text");
                push_word(&mut valid, "label");
                push_word(&mut valid, "placeholder");
                push_word(&mut valid, "alt");
                push_word(&mut valid, "title");
                push_word(&mut valid, "testid");
                push_word(&mut valid, "first");
                push_word(&mut valid, "last");
                push_word(&mut valid, "nth");
                assert(views(valid@) =~= find_words());
                Err(unknown_subcommand(loc, valid))
            }
        },
    }
}

} // verus!
