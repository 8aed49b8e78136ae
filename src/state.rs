//! `state`: saving, loading, listing, clearing, showing, cleaning and
//! renaming saved browser state.
use vstd::prelude::*;
use vstd::string::*;
use crate::command::{Outcome, outcome, env1, env2, make1, make2};
use crate::envelope::{Envelope, Value, ValueModel, bare, with, text};
use crate::error::{
    ParseError, ParseErrorModel, missing, missing_args, unknown_subcommand, valid_session_name,
    is_valid_session_name,
};
use crate::numbers::{int_within, parse_int};
use crate::session::{push_word, unknown};
use crate::text::{views, has_prefix, has_suffix, starts_with, ends_with, owned, str_eq};

verus! {

/// `--all` and the session name among the arguments from `i` on: the last
/// argument that does not start with `-` names the session.
pub open spec fn clear_scan(r: Seq<Seq<char>>, i: int, all: bool, name: Option<Seq<char>>) -> (bool, Option<Seq<char>>)
    decreases r.len() - i,
{
    if i < 0 || i >= r.len() {
        (all, name)
    } else if r[i] == "--all"@ || r[i] == "-a"@ {
        clear_scan(r, i + 1, true, name)
    } else if !has_prefix(r[i], "-"@) {
        clear_scan(r, i + 1, all, Some(r[i]))
    } else {
        clear_scan(r, i + 1, all, name)
    }
}

pub open spec fn state_clear_spec(r: Seq<Seq<char>>, id: Seq<char>) -> Outcome {
    let (all, name) = clear_scan(r, 1, false, None);
    if name is Some && !valid_session_name(name->0) {
        Err(ParseErrorModel::InvalidSessionName { name: name->0 })
    } else {
        let e = bare(id, "state_clear"@);
        let e2 = if all {
            with(e, "all"@, ValueModel::Bool(true))
        } else {
            e
        };
        match name {
            Some(s) => Ok(with(e2, "sessionName"@, text(s))),
            None => Ok(e2),
        }
    }
}

fn state_clear(rest: &Vec<String>, id: &str) -> (res: Result<Envelope, ParseError>)
    ensures
        outcome(res) == state_clear_spec(views(rest@), id@),
{
    let ghost r = views(rest@);
    let n = rest.len();
    let mut all = false;
    let mut name: Option<usize> = None;
    let mut i: usize = 1;
    while i < n
        invariant
            n == rest@.len(),
            r == views(rest@),
            1 <= i,
            match name {
                Some(k) => k < n,
                None => true,
            },
            clear_scan(r, i as int, all, match name {
                Some(k) => Some(r[k as int]),
                None => None,
            }) == clear_scan(r, 1, false, None),
        decreases n - i,
    {
        let t = rest[i].as_str();
        if str_eq(t, "--all") || str_eq(t, "-a") {
            all = true;
        } else if !starts_with(t, "-") {
            name = Some(i);
        }
        i += 1;
    }
    match name {
        Some(k) => {
            if !is_valid_session_name(rest[k].as_str()) {
                return Err(ParseError::InvalidSessionName { name: rest[k].clone() });
            }
        },
        None => {},
    }
    let mut e = Envelope::new(id, "state_clear");
    if all {
        e.set("all", Value::Bool(true));
    }
    match name {
        Some(k) => e.set_text("sessionName", rest[k].as_str()),
        None => {},
    }
    Ok(e)
}

/// The `--older-than` days among the arguments from `i` on: the value after
/// the last such flag, `None` where it does not read as an integer.
pub open spec fn days_scan(r: Seq<Seq<char>>, i: int, cur: Option<int>) -> Option<int>
    decreases r.len() - i,
{
    if i < 0 || i >= r.len() {
        cur
    } else if r[i] == "--older-than"@ && i + 1 < r.len() {
        days_scan(r, i + 2, int_within(r[i + 1], true, i64::MIN as int, i64::MAX as int))
    } else {
        days_scan(r, i + 1, cur)
    }
}

pub open spec fn state_clean_spec(r: Seq<Seq<char>>, id: Seq<char>) -> Outcome {
    match days_scan(r, 1, None) {
        Some(d) => Ok(with(bare(id, "state_clean"@), "days"@, ValueModel::Int(d))),
        None => Err(missing("state clean"@, "state clean --older-than <days>"@)),
    }
}

fn state_clean(rest: &Vec<String>, id: &str) -> (res: Result<Envelope, ParseError>)
    ensures
        outcome(res) == state_clean_spec(views(rest@), id@),
{
    let ghost r = views(rest@);
    let n = rest.len();
    let mut days: Option<i64> = None;
    let mut i: usize = 1;
    while i < n
        invariant
            n == rest@.len(),
            r == views(rest@),
            1 <= i,
            days_scan(r, i as int, match days {
                Some(d) => Some(d as int),
                None => None,
            }) == days_scan(r, 1, None),
        decreases n - i,
    {
        if str_eq(rest[i].as_str(), "--older-than") && i < n - 1 {
            days = parse_int(rest[i + 1].as_str(), i64::MIN, i64::MAX);
            i += 2;
        } else {
            i += 1;
        }
    }
    match days {
        Some(d) => {
            let mut e = Envelope::new(id, "state_clean");
            e.set("days", Value::Int(d as i128));
            Ok(e)
        },
        None => Err(missing_args("state clean", "state clean --older-than <days>")),
    }
}

/// `s` without any number of trailing `.json`.
pub open spec fn strip_json(s: Seq<char>) -> Seq<char>
    decreases s.len(),
{
    if s.len() >= 5 && s.subrange(s.len() - 5, s.len() as int) == ".json"@ {
        strip_json(s.subrange(0, s.len() - 5))
    } else {
        s
    }
}

/// Removes every trailing `.json` from a session name.
pub fn trim_json(s: &str) -> (r: String)
    ensures
        r@ == strip_json(s@),
{
    proof {
        reveal_strlit(".json");
    }
    let mut cur = owned(s);
    let mut more = ends_with(cur.as_str(), ".json");
    while more
        invariant
            strip_json(cur@) == strip_json(s@),
            more == has_suffix(cur@, ".json"@),
            ".json"@.len() == 5,
        decreases cur@.len(),
    {
        let n = cur.as_str().unicode_len();
        let next = owned(cur.as_str().substring_char(0, n - 5));
        cur = next;
        more = ends_with(cur.as_str(), ".json");
    }
    cur
}

pub open spec fn state_rename_spec(r: Seq<Seq<char>>, id: Seq<char>) -> Outcome {
    if r.len() < 3 {
        Err(missing("state rename"@, "state rename <old-name> <new-name>"@))
    } else {
        let old_name = strip_json(r[1]);
        let new_name = strip_json(r[2]);
        if !valid_session_name(old_name) {
            Err(ParseErrorModel::InvalidSessionName { name: old_name })
        } else if !valid_session_name(new_name) {
            Err(ParseErrorModel::InvalidSessionName { name: new_name })
        } else {
            Ok(env2(id, "state_rename"@, "oldName"@, old_name, "newName"@, new_name))
        }
    }
}

fn state_rename(rest: &Vec<String>, id: &str) -> (res: Result<Envelope, ParseError>)
    ensures
        outcome(res) == state_rename_spec(views(rest@), id@),
{
    if rest.len() < 3 {
        return Err(missing_args("state rename", "state rename <old-name> <new-name>"));
    }
    let old_name = trim_json(rest[1].as_str());
    let new_name = trim_json(rest[2].as_str());
    if !is_valid_session_name(old_name.as_str()) {
        return Err(ParseError::InvalidSessionName { name: old_name });
    }
    if !is_valid_session_name(new_name.as_str()) {
        return Err(ParseError::InvalidSessionName { name: new_name });
    }
    Ok(make2(id, "state_rename", "oldName", old_name.as_str(), "newName", new_name.as_str()))
}

pub open spec fn state_words() -> Seq<Seq<char>> {
    seq!["save"@, "load"@, "list"@, "clear"@, "show"@, "clean"@, "rename"@]
}

/// A subcommand that takes one argument into one field.
pub open spec fn state_one(
    r: Seq<Seq<char>>,
    id: Seq<char>,
    ctx: Seq<char>,
    usage: Seq<char>,
    action: Seq<char>,
    key: Seq<char>,
) -> Outcome {
    if r.len() < 2 {
        Err(missing(ctx, usage))
    } else {
        Ok(env1(id, action, key, r[1]))
    }
}

pub open spec fn state_spec(r: Seq<Seq<char>>, id: Seq<char>) -> Outcome {
    if r.len() == 0 {
        Err(missing("state"@, "state <save|load|list|clear|show|clean|rename> ..."@))
    } else if r[0] == "save"@ {
        state_one(r, id, "state save"@, "state save <path>"@, "state_save"@, "path"@)
    } else if r[0] == "load"@ {
        state_one(r, id, "state load"@, "state load <path>"@, "state_load"@, "path"@)
    } else if r[0] == "list"@ {
        Ok(bare(id, "state_list"@))
    } else if r[0] == "clear"@ {
        state_clear_spec(r, id)
    } else if r[0] == "show"@ {
        state_one(r, id, "state show"@, "state show <filename>"@, "state_show"@, "filename"@)
    } else if r[0] == "clean"@ {
        state_clean_spec(r, id)
    } else if r[0] == "rename"@ {
        state_rename_spec(r, id)
    } else {
        Err(unknown(r[0], state_words()))
    }
}

fn state_one_of(
    rest: &Vec<String>,
    id: &str,
    ctx: &str,
    usage: &str,
    action: &str,
    key: &str,
) -> (res: Result<Envelope, ParseError>)
    ensures
        outcome(res) == state_one(views(rest@), id@, ctx@, usage@, action@, key@),
{
    if rest.len() < 2 {
        Err(missing_args(ctx, usage))
    } else {
        Ok(make1(id, action, key, rest[1].as_str()))
    }
}

/// `state <save|load|list|clear|show|clean|rename> ...`.
pub fn state(rest: &Vec<String>, id: &str) -> (res: Result<Envelope, ParseError>)
    ensures
        outcome(res) == state_spec(views(rest@), id@),
{
    if rest.len() == 0 {
        return Err(missing_args("state", "state <save|load|list|clear|show|clean|rename> ..."));
    }
    let sub = rest[0].as_str();
    if str_eq(sub, "save") {
        state_one_of(rest, id, "state save", "state save <path>", "state_save", "path")
    } else if str_eq(sub, "load") {
        state_one_of(rest, id, "state load", "state load <path>", "state_load", "path")
    } else if str_eq(sub, "list") {
        Ok(Envelope::new(id, "state_list"))
    } else if str_eq(sub, "clear") {
        state_clear(rest, id)
    } else if str_eq(sub, "show") {
        state_one_of(rest, id, "state show", "state show <filename>", "state_show", "filename")
    } else if str_eq(sub, "clean") {
        state_clean(rest, id)
    } else if str_eq(sub, "rename") {
        state_rename(rest, id)
    } else {
        let mut valid: Vec<String> = Vec::new();
        push_word(&mut valid, "save");
        push_word(&mut valid, "load");
        push_word(&mut valid, "list");
        push_word(&mut valid, "clear");
        push_word(&mut valid, "show");
        push_word(&mut valid, "clean");
        push_word(&mut valid, "rename");
        assert(views(valid@) =~= state_words());
        Err(unknown_subcommand(sub, valid))
    }
}

} // verus!
