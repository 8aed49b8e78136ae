//! The command compiler: from an argument vector (command word first) and
//! the resolved options to an action envelope or a parse error.
use vstd::prelude::*;
use crate::actions::{
    nav_spec, navigate, normalized_url, device_spec as nav_device, plain_table, plain_of,
    single_table, single_of, single_spec, single,
    click_spec, click, fill_spec, fill_or_type, select_spec, select, pair_spec, pair, upload_spec,
    upload, scroll_spec, scroll,
};
use crate::command::{Outcome, outcome, env1};
use crate::diff::{parse_diff, diff_spec};
use crate::envelope::{Envelope, EnvelopeModel, ValueModel, bare, with, key_index};
use crate::error::{ParseError, ParseErrorModel, missing, missing_args};
use crate::external::{clock_micros, stdin_lines};
use crate::flags::{Flags, FlagsModel};
use crate::numbers::{decimal_of, push_decimal};
use crate::page::{
    wait_spec, wait, screenshot_spec, screenshot, snapshot_scan, snapshot, eval_spec, eval,
    connect_spec, connect, reads_stdin, names_file, screenshot_targets, opt_text,
};
use crate::query::{parse_get, get_spec, parse_is, is_spec, parse_find, find_spec};
use crate::session::{
    cookies_spec, cookies, tab_spec, tab, window_spec, window, frame_spec, frame, dialog_spec,
    dialog, trace_spec, trace, profiler_spec, profiler, record_spec, record, buffer_spec, buffer,
    swipe_spec, swipe, device_spec, device,
};
use crate::settings::{
    parse_mouse, mouse_spec, parse_set, set_spec, parse_network, network_spec, parse_storage,
    storage_spec,
};
use crate::state::{state, state_spec};
use crate::text::{views, owned, str_eq, tail_from, join_from};

verus! {

/// Which handler a command word selects: 0 for an unknown word.
pub open spec fn verb_code(cmd: Seq<char>) -> int {
    if cmd == "open"@ || cmd == "goto"@ || cmd == "navigate"@ {
        1
    } else if plain_table(cmd) is Some {
        2
    } else if single_table(cmd) is Some {
        3
    } else if cmd == "click"@ {
        4
    } else if cmd == "fill"@ || cmd == "type"@ {
        5
    } else if cmd == "select"@ {
        6
    } else if cmd == "drag"@ || cmd == "download"@ {
        7
    } else if cmd == "upload"@ {
        8
    } else if cmd == "scroll"@ {
        9
    } else if cmd == "wait"@ {
        10
    } else if cmd == "screenshot"@ {
        11
    } else if cmd == "snapshot"@ {
        12
    } else if cmd == "eval"@ {
        13
    } else if cmd == "connect"@ {
        14
    } else if cmd == "get"@ {
        20
    } else if cmd == "is"@ {
        21
    } else if cmd == "find"@ {
        22
    } else if cmd == "mouse"@ {
        23
    } else if cmd == "set"@ {
        24
    } else if cmd == "network"@ {
        25
    } else if cmd == "storage"@ {
        26
    } else if cmd == "cookies"@ {
        27
    } else if cmd == "tab"@ {
        28
    } else if cmd == "window"@ {
        29
    } else if cmd == "frame"@ {
        30
    } else if cmd == "dialog"@ {
        31
    } else if cmd == "trace"@ {
        32
    } else if cmd == "profiler"@ {
        33
    } else if cmd == "record"@ {
        34
    } else if cmd == "console"@ || cmd == "errors"@ {
        35
    } else if cmd == "state"@ {
        36
    } else if cmd == "swipe"@ {
        37
    } else if cmd == "device"@ {
        38
    } else if cmd == "diff"@ {
        39
    } else {
        0
    }
}

/// The handler code of a command word (see `verb_code`).
pub fn verb_code_of(cmd: &str) -> (r: u8)
    ensures
        r as int == verb_code(cmd@),
{
    if str_eq(cmd, "open") || str_eq(cmd, "goto") || str_eq(cmd, "navigate") {
        1
    } else if plain_of(cmd).is_some() {
        2
    } else if single_of(cmd).is_some() {
        3
    } else if str_eq(cmd, "click") {
        4
    } else if str_eq(cmd, "fill") || str_eq(cmd, "type") {
        5
    } else if str_eq(cmd, "select") {
        6
    } else if str_eq(cmd, "drag") || str_eq(cmd, "download") {
        7
    } else if str_eq(cmd, "upload") {
        8
    } else if str_eq(cmd, "scroll") {
        9
    } else if str_eq(cmd, "wait") {
        10
    } else if str_eq(cmd, "screenshot") {
        11
    } else if str_eq(cmd, "snapshot") {
        12
    } else if str_eq(cmd, "eval") {
        13
    } else if str_eq(cmd, "connect") {
        14
    } else if str_eq(cmd, "get") {
        20
    } else if str_eq(cmd, "is") {
        21
    } else if str_eq(cmd, "find") {
        22
    } else if str_eq(cmd, "mouse") {
        23
    } else if str_eq(cmd, "set") {
        24
    } else if str_eq(cmd, "network") {
        25
    } else if str_eq(cmd, "storage") {
        26
    } else if str_eq(cmd, "cookies") {
        27
    } else if str_eq(cmd, "tab") {
        28
    } else if str_eq(cmd, "window") {
        29
    } else if str_eq(cmd, "frame") {
        30
    } else if str_eq(cmd, "dialog") {
        31
    } else if str_eq(cmd, "trace") {
        32
    } else if str_eq(cmd, "profiler") {
        33
    } else if str_eq(cmd, "record") {
        34
    } else if str_eq(cmd, "console") || str_eq(cmd, "errors") {
        35
    } else if str_eq(cmd, "state") {
        36
    } else if str_eq(cmd, "swipe") {
        37
    } else if str_eq(cmd, "device") {
        38
    } else if str_eq(cmd, "diff") {
        39
    } else {
        0
    }
}

/// What the command `cmd` with arguments `r` compiles to.
pub open spec fn dispatch(cmd: Seq<char>, r: Seq<Seq<char>>, id: Seq<char>, f: FlagsModel, input: Seq<char>) -> Outcome {
    let c = verb_code(cmd);
    if c == 1 {
        nav_spec(cmd, r, id, f)
    } else if c == 2 {
        Ok(bare(id, plain_table(cmd)->0))
    } else if c == 3 {
        single_spec(single_table(cmd)->0, r, id)
    } else if c == 4 {
        click_spec(r, id)
    } else if c == 5 {
        fill_spec(cmd, r, id)
    } else if c == 6 {
        select_spec(r, id)
    } else if c == 7 {
        pair_spec(cmd, r, id)
    } else if c == 8 {
        upload_spec(r, id)
    } else if c == 9 {
        scroll_spec(r, id)
    } else if c == 10 {
        wait_spec(r, id)
    } else if c == 11 {
        screenshot_spec(r, id, f)
    } else if c == 12 {
        Ok(snapshot_scan(r, 0, bare(id, "snapshot"@)))
    } else if c == 13 {
        eval_spec(r, id, input)
    } else if c == 14 {
        connect_spec(r, id)
    } else if c == 20 {
        get_spec(r, id)
    } else if c == 21 {
        is_spec(r, id)
    } else if c == 22 {
        find_spec(r, id)
    } else if c == 23 {
        mouse_spec(r, id)
    } else if c == 24 {
        set_spec(r, id)
    } else if c == 25 {
        network_spec(r, id)
    } else if c == 26 {
        storage_spec(r, id)
    } else if c == 27 {
        cookies_spec(r, id)
    } else if c == 28 {
        tab_spec(r, id)
    } else if c == 29 {
        window_spec(r, id)
    } else if c == 30 {
        frame_spec(r, id)
    } else if c == 31 {
        dialog_spec(r, id)
    } else if c == 32 {
        trace_spec(r, id)
    } else if c == 33 {
        profiler_spec(r, id)
    } else if c == 34 {
        record_spec(r, id)
    } else if c == 35 {
        buffer_spec(cmd, r, id)
    } else if c == 36 {
        state_spec(r, id)
    } else if c == 37 {
        swipe_spec(r, id)
    } else if c == 38 {
        device_spec(r, id)
    } else if c == 39 {
        diff_spec(r, id, f)
    } else {
        Err(ParseErrorModel::UnknownCommand { command: cmd })
    }
}

/// What an argument vector compiles to, given the options, the request id
/// and (for `eval --stdin`) the text read from standard input.
pub open spec fn compile_spec(a: Seq<Seq<char>>, f: FlagsModel, id: Seq<char>, input: Seq<char>) -> Outcome {
    if a.len() == 0 {
        Err(missing(""@, "<command> [args...]"@))
    } else {
        dispatch(a[0], a.subrange(1, a.len() as int), id, f, input)
    }
}

fn dispatch_of(cmd: &str, rest: &Vec<String>, id: &str, f: &Flags, input: &str) -> (res: Result<Envelope, ParseError>)
    ensures
        outcome(res) == dispatch(cmd@, views(rest@), id@, f@, input@),
{
    let c = verb_code_of(cmd);
    if c == 1 {
        navigate(cmd, rest, id, f)
    } else if c == 2 {
        match plain_of(cmd) {
            Some(action) => Ok(Envelope::new(id, action)),
            None => Err(ParseError::UnknownCommand { command: owned(cmd) }),
        }
    } else if c == 3 {
        match single_of(cmd) {
            Some(t) => single(t, rest, id),
            None => Err(ParseError::UnknownCommand { command: owned(cmd) }),
        }
    } else if c == 4 {
        click(rest, id)
    } else if c == 5 {
        fill_or_type(cmd, rest, id)
    } else if c == 6 {
        select(rest, id)
    } else if c == 7 {
        pair(cmd, rest, id)
    } else if c == 8 {
        upload(rest, id)
    } else if c == 9 {
        scroll(rest, id)
    } else if c == 10 {
        wait(rest, id)
    } else if c == 11 {
        screenshot(rest, id, f)
    } else if c == 12 {
        snapshot(rest, id)
    } else if c == 13 {
        eval(rest, id, input)
    } else if c == 14 {
        connect(rest, id)
    } else if c == 20 {
        parse_get(rest, id)
    } else if c == 21 {
        parse_is(rest, id)
    } else if c == 22 {
        parse_find(rest, id)
    } else if c == 23 {
        parse_mouse(rest, id)
    } else if c == 24 {
        parse_set(rest, id)
    } else if c == 25 {
        parse_network(rest, id)
    } else if c == 26 {
        parse_storage(rest, id)
    } else if c == 27 {
        cookies(rest, id)
    } else if c == 28 {
        tab(rest, id)
    } else if c == 29 {
        window(rest, id)
    } else if c == 30 {
        frame(rest, id)
    } else if c == 31 {
        dialog(rest, id)
    } else if c == 32 {
        trace(rest, id)
    } else if c == 33 {
        profiler(rest, id)
    } else if c == 34 {
        record(rest, id)
    } else if c == 35 {
        buffer(cmd, rest, id)
    } else if c == 36 {
        state(rest, id)
    } else if c == 37 {
        swipe(rest, id)
    } else if c == 38 {
        device(rest, id)
    } else if c == 39 {
        parse_diff(rest, id, f)
    } else {
        Err(ParseError::UnknownCommand { command: owned(cmd) })
    }
}

/// Compiles an argument vector with a given request id and standard-input
/// text; the same arguments always give the same result.
pub fn compile(args: &Vec<String>, flags: &Flags, id: &str, input: &str) -> (res: Result<Envelope, ParseError>)
    ensures
        outcome(res) == compile_spec(views(args@), flags@, id@, input@),
{
    if args.len() == 0 {
        return Err(missing_args("", "<command> [args...]"));
    }
    let rest = tail_from(args, 1);
    dispatch_of(args[0].as_str(), &rest, id, flags, input)
}

/// Compiling is a function of its inputs: the same argument vector, options,
/// id and input give the same envelope or the same error.
pub proof fn compile_is_deterministic(
    a: Seq<Seq<char>>,
    f: FlagsModel,
    id: Seq<char>,
    input: Seq<char>,
    r1: Outcome,
    r2: Outcome,
)
    requires
        r1 == compile_spec(a, f, id, input),
        r2 == compile_spec(a, f, id, input),
    ensures
        r1 == r2,
{
}

/// The handlers that need at least one argument after the command word.
pub open spec fn needs_argument(c: int) -> bool {
    c == 1 || c == 3 || (4 <= c <= 8) || c == 10 || c == 14 || (20 <= c <= 26) || (29 <= c <= 34)
        || c == 36 || c == 37 || c == 39
}

/// The context that a missing-argument error of command `cmd` names: the
/// command word itself, or for an alias the word it stands for.
pub open spec fn verb_context(cmd: Seq<char>) -> Seq<char> {
    if verb_code(cmd) == 3 {
        (single_table(cmd)->0).0
    } else {
        cmd
    }
}

/// A command that needs an argument, given none, fails with
/// `MissingArguments` naming that command.
pub proof fn missing_argument_reported(cmd: Seq<char>, f: FlagsModel, id: Seq<char>, input: Seq<char>)
    requires
        needs_argument(verb_code(cmd)),
    ensures
        compile_spec(seq![cmd], f, id, input) matches Err(ParseErrorModel::MissingArguments { context, usage })
            && context == verb_context(cmd),
{
    let a = seq![cmd];
    let r = a.subrange(1, 1);
    assert(r =~= Seq::<Seq<char>>::empty());
    assert(a[0] == cmd);
}

/// `open`, `goto` and `navigate` with a target and no `--headers`: the
/// envelope navigates to the target, kept where it names a scheme (in any
/// case) and otherwise prefixed with `https://`.
pub proof fn open_normalizes_url(cmd: Seq<char>, u: Seq<char>, f: FlagsModel, id: Seq<char>, input: Seq<char>)
    requires
        cmd == "open"@ || cmd == "goto"@ || cmd == "navigate"@,
        f.headers is None,
    ensures
        compile_spec(seq![cmd, u], f, id, input) matches Ok(e) && e.action == "navigate"@
            && e.fields[0] == ("url"@, ValueModel::Text(normalized_url(u))),
{
    reveal_strlit("url");
    reveal_strlit("iosDevice");
    assert("url"@.len() != "iosDevice"@.len());
    let a = seq![cmd, u];
    assert(a[0] == cmd);
    assert(a.subrange(1, 2) =~= seq![u]);
    assert(verb_code(cmd) == 1);
    let r = seq![u];
    assert(compile_spec(a, f, id, input) == dispatch(cmd, r, id, f, input));
    assert(dispatch(cmd, r, id, f, input) == nav_spec(cmd, r, id, f));
    let e = env1(id, "navigate"@, "url"@, normalized_url(u));
    assert(key_index(bare(id, "navigate"@).fields, "url"@) == 0);
    assert(e.fields =~= seq![("url"@, ValueModel::Text(normalized_url(u)))]);
    assert(nav_spec(cmd, r, id, f) == Ok::<EnvelopeModel, ParseErrorModel>(nav_device(e, f)));
    assert(key_index(e.fields, "iosDevice"@) == 1 + key_index(e.fields.drop_first(), "iosDevice"@));
    assert(key_index(e.fields.drop_first(), "iosDevice"@) == 0);
    assert(nav_device(e, f).fields[0] == e.fields[0]);
}

proof fn lemma_screenshot_code()
    ensures
        verb_code("screenshot"@) == 11,
{
    reveal_strlit("open");
    reveal_strlit("goto");
    reveal_strlit("navigate");
    reveal_strlit("back");
    reveal_strlit("forward");
    reveal_strlit("reload");
    reveal_strlit("close");
    reveal_strlit("quit");
    reveal_strlit("exit");
    reveal_strlit("dblclick");
    reveal_strlit("hover");
    reveal_strlit("focus");
    reveal_strlit("check");
    reveal_strlit("uncheck");
    reveal_strlit("press");
    reveal_strlit("key");
    reveal_strlit("keydown");
    reveal_strlit("keyup");
    reveal_strlit("scrollintoview");
    reveal_strlit("scrollinto");
    reveal_strlit("pdf");
    reveal_strlit("highlight");
    reveal_strlit("tap");
    reveal_strlit("click");
    reveal_strlit("fill");
    reveal_strlit("type");
    reveal_strlit("select");
    reveal_strlit("drag");
    reveal_strlit("download");
    reveal_strlit("upload");
    reveal_strlit("scroll");
    reveal_strlit("wait");
    reveal_strlit("screenshot");
    assert("screenshot"@.len() != "open"@.len());
    assert("screenshot"@.len() != "goto"@.len());
    assert("screenshot"@.len() != "navigate"@.len());
    assert("screenshot"@.len() != "back"@.len());
    assert("screenshot"@.len() != "forward"@.len());
    assert("screenshot"@.len() != "reload"@.len());
    assert("screenshot"@.len() != "close"@.len());
    assert("screenshot"@.len() != "quit"@.len());
    assert("screenshot"@.len() != "exit"@.len());
    assert("screenshot"@.len() != "dblclick"@.len());
    assert("screenshot"@.len() != "hover"@.len());
    assert("screenshot"@.len() != "focus"@.len());
    assert("screenshot"@.len() != "check"@.len());
    assert("screenshot"@.len() != "uncheck"@.len());
    assert("screenshot"@.len() != "press"@.len());
    assert("screenshot"@.len() != "key"@.len());
    assert("screenshot"@.len() != "keydown"@.len());
    assert("screenshot"@.len() != "keyup"@.len());
    assert("screenshot"@.len() != "scrollintoview"@.len());
    assert("screenshot"@[3] != "scrollinto"@[3]);
    assert("screenshot"@.len() != "pdf"@.len());
    assert("screenshot"@.len() != "highlight"@.len());
    assert("screenshot"@.len() != "tap"@.len());
    assert("screenshot"@.len() != "click"@.len());
    assert("screenshot"@.len() != "fill"@.len());
    assert("screenshot"@.len() != "type"@.len());
    assert("screenshot"@.len() != "select"@.len());
    assert("screenshot"@.len() != "drag"@.len());
    assert("screenshot"@.len() != "download"@.len());
    assert("screenshot"@.len() != "upload"@.len());
    assert("screenshot"@.len() != "scroll"@.len());
    assert("screenshot"@.len() != "wait"@.len());
}

/// `screenshot` with one argument: the argument is the file where
/// `names_file` holds of it (a relative path, or a `/` or an image
/// extension on a word that does not look like a selector), and the
/// selector otherwise; the other target is null.
pub proof fn screenshot_single_target(t: Seq<char>, f: FlagsModel, id: Seq<char>, input: Seq<char>)
    ensures
        compile_spec(seq!["screenshot"@, t], f, id, input) matches Ok(e) && e.action == "screenshot"@
            && e.fields[0] == ("path"@, if names_file(t) {
                ValueModel::Text(t)
            } else {
                ValueModel::Null
            }) && e.fields[1] == ("selector"@, if names_file(t) {
                ValueModel::Null
            } else {
                ValueModel::Text(t)
            }),
{
    lemma_screenshot_code();
    reveal_strlit("path");
    reveal_strlit("selector");
    reveal_strlit("fullPage");
    reveal_strlit("annotate");
    assert("path"@.len() != "selector"@.len());
    assert("path"@.len() != "fullPage"@.len());
    assert("path"@.len() != "annotate"@.len());
    assert("selector"@[0] != "fullPage"@[0]);
    assert("selector"@[0] != "annotate"@[0]);
    assert("fullPage"@[0] != "annotate"@[0]);
    let a = seq!["screenshot"@, t];
    assert(a[0] == "screenshot"@);
    assert(a.subrange(1, 2) =~= seq![t]);
    let r = seq![t];
    assert(compile_spec(a, f, id, input) == dispatch("screenshot"@, r, id, f, input));
    assert(dispatch("screenshot"@, r, id, f, input) == screenshot_spec(r, id, f));
    let (sel, path) = screenshot_targets(r);
    let e0 = bare(id, "screenshot"@);
    let e1 = with(e0, "path"@, opt_text(path));
    assert(key_index(e0.fields, "path"@) == 0);
    assert(e1.fields =~= seq![("path"@, opt_text(path))]);
    let e2 = with(e1, "selector"@, opt_text(sel));
    assert(key_index(e1.fields.drop_first(), "selector"@) == 0);
    assert(key_index(e1.fields, "selector"@) == 1);
    assert(e2.fields =~= seq![("path"@, opt_text(path)), ("selector"@, opt_text(sel))]);
    let e3 = with(e2, "fullPage"@, ValueModel::Bool(f.full));
    assert(key_index(e2.fields.drop_first().drop_first(), "fullPage"@) == 0);
    assert(key_index(e2.fields.drop_first(), "fullPage"@) == 1);
    assert(key_index(e2.fields, "fullPage"@) == 2);
    assert(e3.fields =~= e2.fields.push(("fullPage"@, ValueModel::Bool(f.full))));
    let e4 = with(e3, "annotate"@, ValueModel::Bool(f.annotate));
    let f3 = e3.fields;
    assert(key_index(f3.drop_first().drop_first().drop_first(), "annotate"@) == 0);
    assert(key_index(f3.drop_first().drop_first(), "annotate"@) == 1);
    assert(key_index(f3.drop_first(), "annotate"@) == 2);
    assert(key_index(f3, "annotate"@) == 3);
    assert(e4.fields =~= f3.push(("annotate"@, ValueModel::Bool(f.annotate))));
    assert(screenshot_spec(r, id, f) == Ok::<EnvelopeModel, ParseErrorModel>(e4));
}

/// Whether the command reads its script from standard input.
pub fn wants_stdin(args: &Vec<String>) -> (r: bool)
    ensures
        r == reads_stdin(views(args@)),
{
    args.len() >= 2 && str_eq(args[0].as_str(), "eval") && str_eq(args[1].as_str(), "--stdin")
}

/// Whether `--annotate` was given for a command that ignores it.
pub fn annotate_ignored(args: &Vec<String>, flags: &Flags) -> (r: bool)
    ensures
        r == (args@.len() > 0 && flags.cli_annotate && args@[0]@ != "screenshot"@),
{
    args.len() > 0 && flags.cli_annotate && !str_eq(args[0].as_str(), "screenshot")
}

/// The request id for a clock reading in microseconds: `r` followed by the
/// reading modulo one million.
pub fn id_of_micros(t: u128) -> (r: String)
    ensures
        r@ == seq!['r'] + decimal_of((t % 1000000) as nat),
{
    let m = (t % 1000000) as u64;
    let mut r = owned("r");
    proof {
        reveal_strlit("r");
    }
    push_decimal(&mut r, m);
    assert(r@ == seq!['r'] + decimal_of(m as nat));
    r
}

/// A request id from the current time (see `id_of_micros`); a clock set
/// before the epoch reads as zero.
pub fn gen_id() -> (r: String)
    ensures
        exists|n: nat| n < 1000000 && r@ == seq!['r'] + decimal_of(n),
{
    let t = match clock_micros() {
        Some(t) => t,
        None => 0,
    };
    id_of_micros(t)
}

/// Compiles an argument vector with a fresh request id, reading standard
/// input where the command asks for it (`eval --stdin`).
pub fn parse_command(args: &Vec<String>, flags: &Flags) -> (res: Result<Envelope, ParseError>)
    ensures
        exists|id: Seq<char>, input: Seq<char>|
            #[trigger] compile_spec(views(args@), flags@, id, input) == outcome(res) && (!reads_stdin(
                views(args@),
            ) ==> input.len() == 0),
{
    let id = gen_id();
    let input = if wants_stdin(args) {
        let lines = stdin_lines();
        join_from(&lines, 0, "\n")
    } else {
        String::new()
    };
    let res = compile(args, flags, id.as_str(), input.as_str());
    assert(compile_spec(views(args@), flags@, id@, input@) == outcome(res));
    res
}

} // verus!
