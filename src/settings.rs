//! `mouse`, `set`, `network` and `storage`.
use vstd::prelude::*;
use crate::command::{Outcome, outcome, env1, env2, pos_of, find_pos, has_arg, make1, make2};
use crate::envelope::{Envelope, EnvelopeModel, Value, ValueModel, bare, with, text};
use crate::error::{ParseError, missing, invalid, missing_args, invalid_value, unknown_subcommand};
use crate::external::{is_json_document, json_parses};
use crate::numbers::{parse_int, is_float, read_unit_fraction, UnitReading};
use crate::actions::i32_of;
use crate::page::opt_text;
use crate::session::{push_word, unknown};
use crate::text::{views, prefixed, str_eq};

verus! {

fn read_i32(rest: &Vec<String>, i: usize) -> (r: Option<i128>)
    ensures
        match (if i < rest@.len() { i32_of(rest@[i as int]@) } else { None }) {
            Some(v) => r == Some(v as i128),
            None => r is None,
        },
{
    if i < rest.len() {
        match parse_int(rest[i].as_str(), i32::MIN as i64, i32::MAX as i64) {
            Some(v) => Some(v as i128),
            None => None,
        }
    } else {
        None
    }
}

/// The integer at `i`, where there is one that reads as an `i32`.
pub open spec fn i32_at(r: Seq<Seq<char>>, i: int) -> Option<int> {
    if 0 <= i < r.len() {
        i32_of(r[i])
    } else {
        None
    }
}

pub open spec fn pair_i32_spec(
    r: Seq<Seq<char>>,
    id: Seq<char>,
    ctx: Seq<char>,
    usage: Seq<char>,
    action: Seq<char>,
    k1: Seq<char>,
    k2: Seq<char>,
) -> Outcome {
    if r.len() < 3 {
        Err(missing(ctx, usage))
    } else if i32_at(r, 1) is None {
        Err(invalid("Invalid number: "@ + r[1], usage))
    } else if i32_at(r, 2) is None {
        Err(invalid("Invalid number: "@ + r[2], usage))
    } else {
        Ok(
            with(
                with(bare(id, action), k1, ValueModel::Int(i32_at(r, 1)->0)),
                k2,
                ValueModel::Int(i32_at(r, 2)->0),
            ),
        )
    }
}

fn pair_i32(
    rest: &Vec<String>,
    id: &str,
    ctx: &str,
    usage: &str,
    action: &str,
    k1: &str,
    k2: &str,
) -> (res: Result<Envelope, ParseError>)
    ensures
        outcome(res) == pair_i32_spec(views(rest@), id@, ctx@, usage@, action@, k1@, k2@),
{
    if rest.len() < 3 {
        return Err(missing_args(ctx, usage));
    }
    let a = match read_i32(rest, 1) {
        Some(a) => a,
        None => return Err(invalid_value(prefixed("Invalid number: ", rest[1].as_str()), usage)),
    };
    let b = match read_i32(rest, 2) {
        Some(b) => b,
        None => return Err(invalid_value(prefixed("Invalid number: ", rest[2].as_str()), usage)),
    };
    let mut e = Envelope::new(id, action);
    e.set(k1, Value::Int(a));
    e.set(k2, Value::Int(b));
    Ok(e)
}

pub open spec fn button_at(r: Seq<Seq<char>>) -> Seq<char> {
    if r.len() > 1 {
        r[1]
    } else {
        "left"@
    }
}

pub open spec fn mouse_spec(r: Seq<Seq<char>>, id: Seq<char>) -> Outcome {
    if r.len() == 0 {
        Err(missing("mouse"@, "mouse <move|down|up|wheel> [args...]"@))
    } else if r[0] == "move"@ {
        pair_i32_spec(r, id, "mouse move"@, "mouse move <x> <y>"@, "mousemove"@, "x"@, "y"@)
    } else if r[0] == "down"@ {
        Ok(env1(id, "mousedown"@, "button"@, button_at(r)))
    } else if r[0] == "up"@ {
        Ok(env1(id, "mouseup"@, "button"@, button_at(r)))
    } else if r[0] == "wheel"@ {
        let dy = if i32_at(r, 1) is Some {
            i32_at(r, 1)->0
        } else {
            100
        };
        let dx = if i32_at(r, 2) is Some {
            i32_at(r, 2)->0
        } else {
            0
        };
        Ok(with(with(bare(id, "wheel"@), "deltaX"@, ValueModel::Int(dx)), "deltaY"@, ValueModel::Int(dy)))
    } else {
        Err(unknown(r[0], seq!["move"@, "down"@, "up"@, "wheel"@]))
    }
}

/// `mouse move <x> <y>`, `mouse down|up [button]`, `mouse wheel [dy] [dx]`.
pub fn parse_mouse(rest: &Vec<String>, id: &str) -> (res: Result<Envelope, ParseError>)
    ensures
        outcome(res) == mouse_spec(views(rest@), id@),
{
    if rest.len() == 0 {
        return Err(missing_args("mouse", "mouse <move|down|up|wheel> [args...]"));
    }
    let sub = rest[0].as_str();
    if str_eq(sub, "move") {
        pair_i32(rest, id, "mouse move", "mouse move <x> <y>", "mousemove", "x", "y")
    } else if str_eq(sub, "down") || str_eq(sub, "up") {
        let action = if str_eq(sub, "down") {
            "mousedown"
        } else {
            "mouseup"
        };
        if rest.len() > 1 {
            Ok(make1(id, action, "button", rest[1].as_str()))
        } else {
            Ok(make1(id, action, "button", "left"))
        }
    } else if str_eq(sub, "wheel") {
        let dy = match read_i32(rest, 1) {
            Some(v) => v,
            None => 100,
        };
        let dx = match read_i32(rest, 2) {
            Some(v) => v,
            None => 0,
        };
        let mut e = Envelope::new(id, "wheel");
        e.set("deltaX", Value::Int(dx));
        e.set("deltaY", Value::Int(dy));
        Ok(e)
    } else {
        let mut valid: Vec<String> = Vec::new();
        push_word(&mut valid, "move");
        push_word(&mut valid, "down");
        push_word(&mut valid, "up");
        push_word(&mut valid, "wheel");
        assert(views(valid@) =~= seq!["move"@, "down"@, "up"@, "wheel"@]);
        Err(unknown_subcommand(sub, valid))
    }
}

pub open spec fn set_words() -> Seq<Seq<char>> {
    seq![
        "viewport"@,
        "device"@,
        "geo"@,
        "geolocation"@,
        "offline"@,
        "headers"@,
        "credentials"@,
        "auth"@,
        "media"@,
    ]
}

pub open spec fn media_spec(r: Seq<Seq<char>>, id: Seq<char>) -> EnvelopeModel {
    let color = if r.contains("dark"@) {
        "dark"@
    } else if r.contains("light"@) {
        "light"@
    } else {
        "no-preference"@
    };
    let reduced = if r.contains("reduced-motion"@) {
        "reduce"@
    } else {
        "no-preference"@
    };
    env2(id, "emulatemedia"@, "colorScheme"@, color, "reducedMotion"@, reduced)
}

pub open spec fn set_spec(r: Seq<Seq<char>>, id: Seq<char>) -> Outcome {
    if r.len() == 0 {
        Err(missing("set"@, "set <viewport|device|geo|offline|headers|credentials|media> [args...]"@))
    } else {
        let sub = r[0];
        if sub == "viewport"@ {
            pair_i32_spec(
                r,
                id,
                "set viewport"@,
                "set viewport <width> <height>"@,
                "viewport"@,
                "width"@,
                "height"@,
            )
        } else if sub == "device"@ {
            if r.len() < 2 {
                Err(missing("set device"@, "set device <name>"@))
            } else {
                Ok(env1(id, "device"@, "device"@, r[1]))
            }
        } else if sub == "geo"@ || sub == "geolocation"@ {
            if r.len() < 3 {
                Err(missing("set geo"@, "set geo <latitude> <longitude>"@))
            } else if !is_float(r[1]) {
                Err(invalid("Invalid number: "@ + r[1], "set geo <latitude> <longitude>"@))
            } else if !is_float(r[2]) {
                Err(invalid("Invalid number: "@ + r[2], "set geo <latitude> <longitude>"@))
            } else {
                Ok(
                    with(
                        with(bare(id, "geolocation"@), "latitude"@, ValueModel::Decimal(r[1])),
                        "longitude"@,
                        ValueModel::Decimal(r[2]),
                    ),
                )
            }
        } else if sub == "offline"@ {
            let off = if r.len() > 1 {
                r[1] != "off"@ && r[1] != "false"@
            } else {
                true
            };
            Ok(with(bare(id, "offline"@), "offline"@, ValueModel::Bool(off)))
        } else if sub == "headers"@ {
            if r.len() < 2 {
                Err(missing("set headers"@, "set headers <json>"@))
            } else if !is_json_document(r[1]) {
                Err(invalid("Invalid JSON for headers: "@ + r[1], "set headers <json> (must be valid JSON object)"@))
            } else {
                Ok(with(bare(id, "headers"@), "headers"@, ValueModel::Json(r[1])))
            }
        } else if sub == "credentials"@ || sub == "auth"@ {
            if r.len() < 3 {
                Err(missing("set credentials"@, "set credentials <username> <password>"@))
            } else {
                Ok(env2(id, "credentials"@, "username"@, r[1], "password"@, r[2]))
            }
        } else if sub == "media"@ {
            Ok(media_spec(r, id))
        } else {
            Err(unknown(sub, set_words()))
        }
    }
}

fn float_ok(s: &str) -> (r: bool)
    ensures
        r == is_float(s@),
{
    match read_unit_fraction(s) {
        UnitReading::Malformed => false,
        _ => true,
    }
}

/// `set viewport|device|geo|offline|headers|credentials|media ...`.
pub fn parse_set(rest: &Vec<String>, id: &str) -> (res: Result<Envelope, ParseError>)
    ensures
        outcome(res) == set_spec(views(rest@), id@),
{
    let n = rest.len();
    if n == 0 {
        return Err(
            missing_args("set", "set <viewport|device|geo|offline|headers|credentials|media> [args...]"),
        );
    }
    let sub = rest[0].as_str();
    if str_eq(sub, "viewport") {
        pair_i32(
            rest,
            id,
            "set viewport",
            "set viewport <width> <height>",
            "viewport",
            "width",
            "height",
        )
    } else if str_eq(sub, "device") {
        if n < 2 {
            Err(missing_args("set device", "set device <name>"))
        } else {
            Ok(make1(id, "device", "device", rest[1].as_str()))
        }
    } else if str_eq(sub, "geo") || str_eq(sub, "geolocation") {
        if n < 3 {
            Err(missing_args("set geo", "set geo <latitude> <longitude>"))
        } else if !float_ok(rest[1].as_str()) {
            Err(invalid_value(prefixed("Invalid number: ", rest[1].as_str()), "set geo <latitude> <longitude>"))
        } else if !float_ok(rest[2].as_str()) {
            Err(invalid_value(prefixed("Invalid number: ", rest[2].as_str()), "set geo <latitude> <longitude>"))
        } else {
            let mut e = Envelope::new(id, "geolocation");
            e.set("latitude", Value::Decimal(rest[1].clone()));
            e.set("longitude", Value::Decimal(rest[2].clone()));
            Ok(e)
        }
    } else if str_eq(sub, "offline") {
        let off = if n > 1 {
            !str_eq(rest[1].as_str(), "off") && !str_eq(rest[1].as_str(), "false")
        } else {
            true
        };
        let mut e = Envelope::new(id, "offline");
        e.set("offline", Value::Bool(off));
        Ok(e)
    } else if str_eq(sub, "headers") {
        if n < 2 {
            Err(missing_args("set headers", "set headers <json>"))
        } else if !json_parses(rest[1].as_str()) {
            Err(
                invalid_value(
                    prefixed("Invalid JSON for headers: ", rest[1].as_str()),
                    "set headers <json> (must be valid JSON object)",
                ),
            )
        } else {
            let mut e = Envelope::new(id, "headers");
            e.set("headers", Value::Json(rest[1].clone()));
            Ok(e)
        }
    } else if str_eq(sub, "credentials") || str_eq(sub, "auth") {
        if n < 3 {
            Err(missing_args("set credentials", "set credentials <username> <password>"))
        } else {
            Ok(make2(id, "credentials", "username", rest[1].as_str(), "password", rest[2].as_str()))
        }
    } else if str_eq(sub, "media") {
        let color = if has_arg(rest, "dark") {
            "dark"
        } else if has_arg(rest, "light") {
            "light"
        } else {
            "no-preference"
        };
        let reduced = if has_arg(rest, "reduced-motion") {
            "reduce"
        } else {
            "no-preference"
        };
        Ok(make2(id, "emulatemedia", "colorScheme", color, "reducedMotion", reduced))
    } else {
        let mut valid: Vec<String> = Vec::new();
        push_word(&mut valid, "viewport");
        push_word(&mut valid, "device");
        push_word(&mut valid, "geo");
        push_word(&mut valid, "geolocation");
        push_word(&mut valid, "offline");
        push_word(&mut valid, "headers");
        push_word(&mut valid, "credentials");
        push_word(&mut valid, "auth");
        push_word(&mut valid, "media");
        assert(views(valid@) =~= set_words());
        Err(unknown_subcommand(sub, valid))
    }
}

/// The argument after the first `flag`, where there is one.
pub open spec fn after_flag(r: Seq<Seq<char>>, flag: Seq<char>) -> Option<Seq<char>> {
    let p = pos_of(r, flag, flag);
    if p + 1 < r.len() {
        Some(r[p + 1])
    } else {
        None
    }
}

fn after_flag_of<'a>(rest: &'a Vec<String>, flag: &str) -> (r: Option<&'a str>)
    ensures
        match r {
            Some(s) => after_flag(views(rest@), flag@) == Some(s@),
            None => after_flag(views(rest@), flag@) is None,
        },
{
    let p = find_pos(rest, flag, flag);
    if p < rest.len() && p < rest.len() - 1 {
        Some(rest[p + 1].as_str())
    } else {
        None
    }
}

pub open spec fn network_spec(r: Seq<Seq<char>>, id: Seq<char>) -> Outcome {
    if r.len() == 0 {
        Err(missing("network"@, "network <route|unroute|requests> [args...]"@))
    } else if r[0] == "route"@ {
        if r.len() < 2 {
            Err(missing("network route"@, "network route <url> [--abort|--body <json>]"@))
        } else {
            Ok(
                with(
                    with(env1(id, "route"@, "url"@, r[1]), "abort"@, ValueModel::Bool(r.contains("--abort"@))),
                    "body"@,
                    opt_text(after_flag(r, "--body"@)),
                ),
            )
        }
    } else if r[0] == "unroute"@ {
        if r.len() > 1 {
            Ok(env1(id, "unroute"@, "url"@, r[1]))
        } else {
            Ok(bare(id, "unroute"@))
        }
    } else if r[0] == "requests"@ {
        let e = with(bare(id, "requests"@), "clear"@, ValueModel::Bool(r.contains("--clear"@)));
        match after_flag(r, "--filter"@) {
            Some(f) => Ok(with(e, "filter"@, text(f))),
            None => Ok(e),
        }
    } else {
        Err(unknown(r[0], seq!["route"@, "unroute"@, "requests"@]))
    }
}

/// `network route <url> [--abort] [--body <json>]`, `network unroute [url]`,
/// `network requests [--clear] [--filter <text>]`.
pub fn parse_network(rest: &Vec<String>, id: &str) -> (res: Result<Envelope, ParseError>)
    ensures
        outcome(res) == network_spec(views(rest@), id@),
{
    let n = rest.len();
    if n == 0 {
        return Err(missing_args("network", "network <route|unroute|requests> [args...]"));
    }
    let sub = rest[0].as_str();
    if str_eq(sub, "route") {
        if n < 2 {
            return Err(missing_args("network route", "network route <url> [--abort|--body <json>]"));
        }
        let mut e = make1(id, "route", "url", rest[1].as_str());
        e.set("abort", Value::Bool(has_arg(rest, "--abort")));
        match after_flag_of(rest, "--body") {
            Some(b) => e.set_text("body", b),
            None => e.set("body", Value::Null),
        }
        Ok(e)
    } else if str_eq(sub, "unroute") {
        if n > 1 {
            Ok(make1(id, "unroute", "url", rest[1].as_str()))
        } else {
            Ok(Envelope::new(id, "unroute"))
        }
    } else if str_eq(sub, "requests") {
        let mut e = Envelope::new(id, "requests");
        e.set("clear", Value::Bool(has_arg(rest, "--clear")));
        match after_flag_of(rest, "--filter") {
            Some(f) => e.set_text("filter", f),
            None => {},
        }
        Ok(e)
    } else {
        let mut valid: Vec<String> = Vec::new();
        push_word(&mut valid, "route");
        push_word(&mut valid, "unroute");
        push_word(&mut valid, "requests");
        assert(views(valid@) =~= seq!["route"@, "unroute"@, "requests"@]);
        Err(unknown_subcommand(sub, valid))
    }
}

pub open spec fn storage_spec(r: Seq<Seq<char>>, id: Seq<char>) -> Outcome {
    if r.len() == 0 {
        Err(missing("storage"@, "storage <local|session> [get|set|clear] [key] [value]"@))
    } else if r[0] == "local"@ || r[0] == "session"@ {
        let t = r[0];
        if r.len() > 1 && r[1] == "set"@ {
            if r.len() < 4 {
                Err(missing("storage "@ + t + " set"@, "storage <local|session> set <key> <value>"@))
            } else {
                Ok(with(env2(id, "storage_set"@, "type"@, t, "key"@, r[2]), "value"@, text(r[3])))
            }
        } else if r.len() > 1 && r[1] == "clear"@ {
            Ok(env1(id, "storage_clear"@, "type"@, t))
        } else if r.len() > 2 {
            Ok(env2(id, "storage_get"@, "type"@, t, "key"@, r[2]))
        } else {
            Ok(env1(id, "storage_get"@, "type"@, t))
        }
    } else {
        Err(unknown(r[0], seq!["local"@, "session"@]))
    }
}

/// `storage <local|session> [get [key] | set <key> <value> | clear]`.
pub fn parse_storage(rest: &Vec<String>, id: &str) -> (res: Result<Envelope, ParseError>)
    ensures
        outcome(res) == storage_spec(views(rest@), id@),
{
    let n = rest.len();
    if n == 0 {
        return Err(missing_args("storage", "storage <local|session> [get|set|clear] [key] [value]"));
    }
    let t = rest[0].as_str();
    if str_eq(t, "local") || str_eq(t, "session") {
        if n > 1 && str_eq(rest[1].as_str(), "set") {
            if n < 4 {
                let mut ctx = prefixed("storage ", t);
                ctx.append(" set");
                return Err(missing_args(ctx.as_str(), "storage <local|session> set <key> <value>"));
            }
            let mut e = make2(id, "storage_set", "type", t, "key", rest[2].as_str());
            e.set_text("value", rest[3].as_str());
            Ok(e)
        } else if n > 1 && str_eq(rest[1].as_str(), "clear") {
            Ok(make1(id, "storage_clear", "type", t))
        } else if n > 2 {
            Ok(make2(id, "storage_get", "type", t, "key", rest[2].as_str()))
        } else {
            Ok(make1(id, "storage_get", "type", t))
        }
    } else {
        let mut valid: Vec<String> = Vec::new();
        push_word(&mut valid, "local");
        push_word(&mut valid, "session");
        assert(views(valid@) =~= seq!["local"@, "session"@]);
        Err(unknown_subcommand(t, valid))
    }
}

} // verus!
