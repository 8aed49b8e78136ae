//! Resolution of the run's options from the command line, an environment
//! snapshot and a configuration document; and the removal of the global
//! options from the argument vector before a command is compiled.
use vstd::prelude::*;
use vstd::string::*;
use crate::config::{Config, either};
use crate::text::{lowercase_of, to_lowercase, str_eq, views, comma_pieces, list_items, split_list, owned};

verus! {

/// The resolved options of one run.
pub struct Flags {
    pub json: bool,
    pub full: bool,
    pub headed: bool,
    pub debug: bool,
    pub session: String,
    pub headers: Option<String>,
    pub executable_path: Option<String>,
    pub cdp: Option<String>,
    pub extensions: Vec<String>,
    pub profile: Option<String>,
    pub state: Option<String>,
    pub proxy: Option<String>,
    pub proxy_bypass: Option<String>,
    pub args: Option<String>,
    pub user_agent: Option<String>,
    pub provider: Option<String>,
    pub ignore_https_errors: bool,
    pub allow_file_access: bool,
    pub device: Option<String>,
    pub auto_connect: bool,
    pub session_name: Option<String>,
    pub annotate: bool,
    pub color_scheme: Option<String>,
    /// Which launch options were given on the command line itself.
    pub cli_executable_path: bool,
    pub cli_extensions: bool,
    pub cli_profile: bool,
    pub cli_state: bool,
    pub cli_args: bool,
    pub cli_user_agent: bool,
    pub cli_proxy: bool,
    pub cli_proxy_bypass: bool,
    pub cli_allow_file_access: bool,
    pub cli_annotate: bool,
}

pub struct FlagsModel {
    pub json: bool,
    pub full: bool,
    pub headed: bool,
    pub debug: bool,
    pub session: Seq<char>,
    pub headers: Option<Seq<char>>,
    pub executable_path: Option<Seq<char>>,
    pub cdp: Option<Seq<char>>,
    pub extensions: Seq<Seq<char>>,
    pub profile: Option<Seq<char>>,
    pub state: Option<Seq<char>>,
    pub proxy: Option<Seq<char>>,
    pub proxy_bypass: Option<Seq<char>>,
    pub args: Option<Seq<char>>,
    pub user_agent: Option<Seq<char>>,
    pub provider: Option<Seq<char>>,
    pub ignore_https_errors: bool,
    pub allow_file_access: bool,
    pub device: Option<Seq<char>>,
    pub auto_connect: bool,
    pub session_name: Option<Seq<char>>,
    pub annotate: bool,
    pub color_scheme: Option<Seq<char>>,
    pub cli_executable_path: bool,
    pub cli_extensions: bool,
    pub cli_profile: bool,
    pub cli_state: bool,
    pub cli_args: bool,
    pub cli_user_agent: bool,
    pub cli_proxy: bool,
    pub cli_proxy_bypass: bool,
    pub cli_allow_file_access: bool,
    pub cli_annotate: bool,
}

pub open spec fn opt_view(o: Option<String>) -> Option<Seq<char>> {
    match o {
        Some(s) => Some(s@),
        None => None,
    }
}

/// The paths of a list of extensions.
#[verifier::opaque]
pub open spec fn ext_model(v: Seq<String>) -> Seq<Seq<char>> {
    views(v)
}

impl View for Flags {
    type V = FlagsModel;

    open spec fn view(&self) -> FlagsModel {
        FlagsModel {
            json: self.json,
            full: self.full,
            headed: self.headed,
            debug: self.debug,
            session: self.session@,
            headers: opt_view(self.headers),
            executable_path: opt_view(self.executable_path),
            cdp: opt_view(self.cdp),
            extensions: ext_model(self.extensions@),
            profile: opt_view(self.profile),
            state: opt_view(self.state),
            proxy: opt_view(self.proxy),
            proxy_bypass: opt_view(self.proxy_bypass),
            args: opt_view(self.args),
            user_agent: opt_view(self.user_agent),
            provider: opt_view(self.provider),
            ignore_https_errors: self.ignore_https_errors,
            allow_file_access: self.allow_file_access,
            device: opt_view(self.device),
            auto_connect: self.auto_connect,
            session_name: opt_view(self.session_name),
            annotate: self.annotate,
            color_scheme: opt_view(self.color_scheme),
            cli_executable_path: self.cli_executable_path,
            cli_extensions: self.cli_extensions,
            cli_profile: self.cli_profile,
            cli_state: self.cli_state,
            cli_args: self.cli_args,
            cli_user_agent: self.cli_user_agent,
            cli_proxy: self.cli_proxy,
            cli_proxy_bypass: self.cli_proxy_bypass,
            cli_allow_file_access: self.cli_allow_file_access,
            cli_annotate: self.cli_annotate,
        }
    }
}

/// The environment variables that bear on the options, as read once at the
/// start of a run.
pub struct EnvSnapshot {
    pub session: Option<String>,
    pub json: Option<String>,
    pub full: Option<String>,
    pub headed: Option<String>,
    pub debug: Option<String>,
    pub executable_path: Option<String>,
    pub extensions: Option<String>,
    pub profile: Option<String>,
    pub state: Option<String>,
    pub proxy: Option<String>,
    pub proxy_bypass: Option<String>,
    pub args: Option<String>,
    pub user_agent: Option<String>,
    pub provider: Option<String>,
    pub ignore_https_errors: Option<String>,
    pub allow_file_access: Option<String>,
    pub ios_device: Option<String>,
    pub auto_connect: Option<String>,
    pub session_name: Option<String>,
    pub annotate: Option<String>,
    pub color_scheme: Option<String>,
    pub config: Option<String>,
}

impl Default for EnvSnapshot {
    fn default() -> (r: EnvSnapshot)
        ensures
            r.session is None,
            r.json is None,
            r.full is None,
            r.headed is None,
            r.debug is None,
            r.executable_path is None,
            r.extensions is None,
            r.profile is None,
            r.state is None,
            r.proxy is None,
            r.proxy_bypass is None,
            r.args is None,
            r.user_agent is None,
            r.provider is None,
            r.ignore_https_errors is None,
            r.allow_file_access is None,
            r.ios_device is None,
            r.auto_connect is None,
            r.session_name is None,
            r.annotate is None,
            r.color_scheme is None,
            r.config is None,
    {
        EnvSnapshot {
            session: None,
            json: None,
            full: None,
            headed: None,
            debug: None,
            executable_path: None,
            extensions: None,
            profile: None,
            state: None,
            proxy: None,
            proxy_bypass: None,
            args: None,
            user_agent: None,
            provider: None,
            ignore_https_errors: None,
            allow_file_access: None,
            ios_device: None,
            auto_connect: None,
            session_name: None,
            annotate: None,
            color_scheme: None,
            config: None,
        }
    }
}

/// A boolean environment variable is set unless it is absent, empty, or
/// `0`, `false` or `no` in any case.
pub open spec fn env_truthy(v: Option<String>) -> bool {
    match v {
        Some(s) => {
            let l = lowercase_of(s@);
            !(l == "0"@ || l == "false"@ || l == "no"@ || l.len() == 0)
        },
        None => false,
    }
}

/// A boolean option: from its environment variable where that is set,
/// else from the configuration, else `false`.
pub open spec fn env_over_config(v: Option<String>, c: Option<bool>) -> bool {
    if v is Some {
        env_truthy(v)
    } else {
        c == Some(true)
    }
}

fn bool_setting(v: &Option<String>, c: Option<bool>) -> (r: bool)
    ensures
        r == env_over_config(*v, c),
{
    match v {
        Some(_) => is_truthy(v),
        None => c == Some(true),
    }
}

/// Whether a boolean environment variable is set.
pub fn is_truthy(v: &Option<String>) -> (r: bool)
    ensures
        r == env_truthy(*v),
{
    match v {
        Some(s) => {
            let l = to_lowercase(s.as_str());
            let ls = l.as_str();
            !(str_eq(ls, "0") || str_eq(ls, "false") || str_eq(ls, "no") || ls.unicode_len() == 0)
        },
        None => false,
    }
}

fn clone_opt(o: &Option<String>) -> (r: Option<String>)
    ensures
        r == *o,
{
    match o {
        Some(s) => Some(s.clone()),
        None => None,
    }
}

/// Extensions come from the environment's comma-separated list where it
/// names any; otherwise from the configuration.
pub open spec fn extensions_spec(env: Option<String>, c: Option<Vec<String>>) -> Seq<Seq<char>> {
    let from_env = match env {
        Some(s) => list_items(comma_pieces(s@)),
        None => Seq::empty(),
    };
    if from_env.len() > 0 {
        from_env
    } else {
        match c {
            Some(v) => views(v@),
            None => Seq::empty(),
        }
    }
}

/// The options before the command line is read: each from its environment
/// variable where that is set, else from the configuration, else a default.
pub open spec fn base_spec(env: EnvSnapshot, c: Config) -> FlagsModel {
    FlagsModel {
        json: env_over_config(env.json, c.json),
        full: env_over_config(env.full, c.full),
        headed: env_over_config(env.headed, c.headed),
        debug: env_over_config(env.debug, c.debug),
        session: match either(env.session, c.session) {
            Some(s) => s@,
            None => "default"@,
        },
        headers: opt_view(c.headers),
        executable_path: opt_view(either(env.executable_path, c.executable_path)),
        cdp: opt_view(c.cdp),
        extensions: extensions_spec(env.extensions, c.extensions),
        profile: opt_view(either(env.profile, c.profile)),
        state: opt_view(either(env.state, c.state)),
        proxy: opt_view(either(env.proxy, c.proxy)),
        proxy_bypass: opt_view(either(env.proxy_bypass, c.proxy_bypass)),
        args: opt_view(either(env.args, c.args)),
        user_agent: opt_view(either(env.user_agent, c.user_agent)),
        provider: opt_view(either(env.provider, c.provider)),
        ignore_https_errors: env_over_config(env.ignore_https_errors, c.ignore_https_errors),
        allow_file_access: env_over_config(env.allow_file_access, c.allow_file_access),
        device: opt_view(either(env.ios_device, c.device)),
        auto_connect: env_over_config(env.auto_connect, c.auto_connect),
        session_name: opt_view(either(env.session_name, c.session_name)),
        annotate: env_over_config(env.annotate, c.annotate),
        color_scheme: opt_view(either(env.color_scheme, c.color_scheme)),
        cli_executable_path: false,
        cli_extensions: false,
        cli_profile: false,
        cli_state: false,
        cli_args: false,
        cli_user_agent: false,
        cli_proxy: false,
        cli_proxy_bypass: false,
        cli_allow_file_access: false,
        cli_annotate: false,
    }
}

/// The options from the environment and the configuration alone.
pub fn base_flags(env: &EnvSnapshot, c: Config) -> (r: Flags)
    ensures
        r@ == base_spec(*env, c),
{
    let ghost c0 = c;
    let from_env: Vec<String> = match &env.extensions {
        Some(s) => split_list(s.as_str()),
        None => Vec::new(),
    };
    assert(from_env@.len() == 0 ==> views(from_env@) =~= Seq::<Seq<char>>::empty());
    let extensions: Vec<String> = if from_env.len() > 0 {
        from_env
    } else {
        match c.extensions {
            Some(v) => v,
            None => Vec::new(),
        }
    };
    assert(views(extensions@) =~= extensions_spec(env.extensions, c0.extensions));
    reveal(ext_model);
    let session = match either_opt(clone_opt(&env.session), c.session) {
        Some(s) => s,
        None => owned("default"),
    };
    Flags {
        json: bool_setting(&env.json, c.json),
        full: bool_setting(&env.full, c.full),
        headed: bool_setting(&env.headed, c.headed),
        debug: bool_setting(&env.debug, c.debug),
        session,
        headers: c.headers,
        executable_path: either_opt(clone_opt(&env.executable_path), c.executable_path),
        cdp: c.cdp,
        extensions,
        profile: either_opt(clone_opt(&env.profile), c.profile),
        state: either_opt(clone_opt(&env.state), c.state),
        proxy: either_opt(clone_opt(&env.proxy), c.proxy),
        proxy_bypass: either_opt(clone_opt(&env.proxy_bypass), c.proxy_bypass),
        args: either_opt(clone_opt(&env.args), c.args),
        user_agent: either_opt(clone_opt(&env.user_agent), c.user_agent),
        provider: either_opt(clone_opt(&env.provider), c.provider),
        ignore_https_errors: bool_setting(&env.ignore_https_errors, c.ignore_https_errors),
        allow_file_access: bool_setting(&env.allow_file_access, c.allow_file_access),
        device: either_opt(clone_opt(&env.ios_device), c.device),
        auto_connect: bool_setting(&env.auto_connect, c.auto_connect),
        session_name: either_opt(clone_opt(&env.session_name), c.session_name),
        annotate: bool_setting(&env.annotate, c.annotate),
        color_scheme: either_opt(clone_opt(&env.color_scheme), c.color_scheme),
        cli_executable_path: false,
        cli_extensions: false,
        cli_profile: false,
        cli_state: false,
        cli_args: false,
        cli_user_agent: false,
        cli_proxy: false,
        cli_proxy_bypass: false,
        cli_allow_file_access: false,
        cli_annotate: false,
    }
}

fn either_opt(a: Option<String>, b: Option<String>) -> (r: Option<String>)
    ensures
        r == either(a, b),
{
    match a {
        Some(x) => Some(x),
        None => b,
    }
}

/// The optional `true` / `false` after a boolean flag at `i`: its value, and
/// whether the next token was taken. A bare flag means `true`.
pub open spec fn bool_arg(a: Seq<String>, i: int) -> (bool, bool) {
    if i + 1 < a.len() && a[i + 1]@ == "true"@ {
        (true, true)
    } else if i + 1 < a.len() && a[i + 1]@ == "false"@ {
        (false, true)
    } else {
        (true, false)
    }
}

/// Reads the optional boolean value after the flag at `i`: returns the
/// value and whether the next argument was consumed.
pub fn parse_bool_arg(args: &Vec<String>, i: usize) -> (r: (bool, bool))
    ensures
        r == bool_arg(args@, i as int),
{
    if i < args.len() && i < args.len() - 1 {
        let v = args[i + 1].as_str();
        if str_eq(v, "true") {
            (true, true)
        } else if str_eq(v, "false") {
            (false, true)
        } else {
            (true, false)
        }
    } else {
        (true, false)
    }
}


/// Which global flag a token is: 1 to 8 for the boolean flags, 11 to 25
/// for those that take a value, 30 for `--config`, 0 for any other token.
pub open spec fn flag_code(t: Seq<char>) -> int {
    if t == "--json"@ {
        1
    } else if t == "--full"@ || t == "-f"@ {
        2
    } else if t == "--headed"@ {
        3
    } else if t == "--debug"@ {
        4
    } else if t == "--ignore-https-errors"@ {
        5
    } else if t == "--allow-file-access"@ {
        6
    } else if t == "--auto-connect"@ {
        7
    } else if t == "--annotate"@ {
        8
    } else if t == "--session"@ {
        11
    } else if t == "--headers"@ {
        12
    } else if t == "--executable-path"@ {
        13
    } else if t == "--extension"@ {
        14
    } else if t == "--cdp"@ {
        15
    } else if t == "--profile"@ {
        16
    } else if t == "--state"@ {
        17
    } else if t == "--proxy"@ {
        18
    } else if t == "--proxy-bypass"@ {
        19
    } else if t == "--args"@ {
        20
    } else if t == "--user-agent"@ {
        21
    } else if t == "-p"@ || t == "--provider"@ {
        22
    } else if t == "--device"@ {
        23
    } else if t == "--session-name"@ {
        24
    } else if t == "--color-scheme"@ {
        25
    } else if t == "--config"@ {
        30
    } else {
        0
    }
}

/// The code of a global flag (see `flag_code`).
pub fn flag_code_of(t: &str) -> (r: u8)
    ensures
        r as int == flag_code(t@),
{
    if str_eq(t, "--json") {
        1
    } else if str_eq(t, "--full") || str_eq(t, "-f") {
        2
    } else if str_eq(t, "--headed") {
        3
    } else if str_eq(t, "--debug") {
        4
    } else if str_eq(t, "--ignore-https-errors") {
        5
    } else if str_eq(t, "--allow-file-access") {
        6
    } else if str_eq(t, "--auto-connect") {
        7
    } else if str_eq(t, "--annotate") {
        8
    } else if str_eq(t, "--session") {
        11
    } else if str_eq(t, "--headers") {
        12
    } else if str_eq(t, "--executable-path") {
        13
    } else if str_eq(t, "--extension") {
        14
    } else if str_eq(t, "--cdp") {
        15
    } else if str_eq(t, "--profile") {
        16
    } else if str_eq(t, "--state") {
        17
    } else if str_eq(t, "--proxy") {
        18
    } else if str_eq(t, "--proxy-bypass") {
        19
    } else if str_eq(t, "--args") {
        20
    } else if str_eq(t, "--user-agent") {
        21
    } else if str_eq(t, "-p") || str_eq(t, "--provider") {
        22
    } else if str_eq(t, "--device") {
        23
    } else if str_eq(t, "--session-name") {
        24
    } else if str_eq(t, "--color-scheme") {
        25
    } else if str_eq(t, "--config") {
        30
    } else {
        0
    }
}

/// Index of the next argument to read after the one at `i`: a boolean
/// flag takes a following `true` or `false`; a flag that needs a value, and
/// `--config`, take the next argument when there is one.
pub open spec fn next_index(a: Seq<String>, i: int) -> int {
    let c = flag_code(a[i]@);
    if 1 <= c <= 8 {
        if bool_arg(a, i).1 {
            i + 2
        } else {
            i + 1
        }
    } else if (11 <= c <= 25 || c == 30) && i + 1 < a.len() {
        i + 2
    } else {
        i + 1
    }
}

fn next_index_of(args: &Vec<String>, i: usize, c: u8) -> (r: usize)
    requires
        i < args@.len(),
        c as int == flag_code(args@[i as int]@),
    ensures
        r as int == next_index(args@, i as int),
{
    let n = args.len();
    if 1 <= c && c <= 8 {
        if parse_bool_arg(args, i).1 {
            i + 2
        } else {
            i + 1
        }
    } else if ((11 <= c && c <= 25) || c == 30) && i < args.len() - 1 {
        i + 2
    } else {
        i + 1
    }
}

/// The flag of code `k` stands at `i` and takes effect there: a boolean
/// flag always does; a flag that needs a value does when one follows.
pub open spec fn takes_effect(a: Seq<String>, i: int, k: int) -> bool {
    flag_code(a[i]@) == k && (1 <= k <= 8 || i + 1 < a.len())
}

/// The value of boolean flag `k` after the arguments from `i` on, given
/// its value `cur` before them.
pub open spec fn bool_scan(a: Seq<String>, i: int, k: int, cur: bool) -> bool
    decreases a.len() - i,
{
    if i < 0 || i >= a.len() {
        cur
    } else {
        bool_scan(a, next_index(a, i), k, if takes_effect(a, i, k) {
            bool_arg(a, i).0
        } else {
            cur
        })
    }
}

/// The value of value flag `k` after the arguments from `i` on, given its
/// value `cur` before them.
pub open spec fn value_scan(a: Seq<String>, i: int, k: int, cur: Option<Seq<char>>) -> Option<Seq<char>>
    decreases a.len() - i,
{
    if i < 0 || i >= a.len() {
        cur
    } else {
        value_scan(a, next_index(a, i), k, if takes_effect(a, i, k) {
            Some(a[i + 1]@)
        } else {
            cur
        })
    }
}

/// Whether flag `k` takes effect at some argument read from `i` on.
pub open spec fn seen_scan(a: Seq<String>, i: int, k: int) -> bool
    decreases a.len() - i,
{
    if i < 0 || i >= a.len() {
        false
    } else {
        takes_effect(a, i, k) || seen_scan(a, next_index(a, i), k)
    }
}

/// The values of the `--extension` flags read from `i` on, in order.
pub open spec fn ext_scan(a: Seq<String>, i: int) -> Seq<Seq<char>>
    decreases a.len() - i,
{
    if i < 0 || i >= a.len() {
        Seq::empty()
    } else if takes_effect(a, i, 14) {
        seq![a[i + 1]@] + ext_scan(a, next_index(a, i))
    } else {
        ext_scan(a, next_index(a, i))
    }
}

/// The value of boolean flag `k` after reading `args`, from `init`.
fn last_bool(args: &Vec<String>, k: u8, init: bool) -> (r: bool)
    requires
        1 <= k <= 8,
    ensures
        r == bool_scan(args@, 0, k as int, init),
{
    let mut cur = init;
    let mut i: usize = 0;
    while i < args.len()
        invariant
            i <= args@.len() + 1,
            1 <= k <= 8,
            bool_scan(args@, i as int, k as int, cur) == bool_scan(args@, 0, k as int, init),
        decreases args@.len() + 1 - i,
    {
        let c = flag_code_of(args[i].as_str());
        if c == k {
            cur = parse_bool_arg(args, i).0;
        }
        i = next_index_of(args, i, c);
    }
    cur
}

/// The value of value flag `k` after reading `args`, from `init`.
fn last_value(args: &Vec<String>, k: u8, init: Option<String>) -> (r: Option<String>)
    requires
        11 <= k <= 25,
    ensures
        opt_view(r) == value_scan(args@, 0, k as int, opt_view(init)),
{
    let ghost init_view = opt_view(init);
    let mut cur = init;
    let mut i: usize = 0;
    while i < args.len()
        invariant
            i <= args@.len() + 1,
            11 <= k <= 25,
            value_scan(args@, i as int, k as int, opt_view(cur)) == value_scan(
                args@,
                0,
                k as int,
                init_view,
            ),
        decreases args@.len() + 1 - i,
    {
        let c = flag_code_of(args[i].as_str());
        if c == k && i < args.len() - 1 {
            cur = Some(args[i + 1].clone());
        }
        i = next_index_of(args, i, c);
    }
    cur
}

/// Whether flag `k` takes effect anywhere in `args`.
fn flag_seen(args: &Vec<String>, k: u8) -> (r: bool)
    requires
        1 <= k <= 25,
    ensures
        r == seen_scan(args@, 0, k as int),
{
    let mut i: usize = 0;
    while i < args.len()
        invariant
            i <= args@.len() + 1,
            1 <= k <= 25,
            seen_scan(args@, i as int, k as int) == seen_scan(args@, 0, k as int),
        decreases args@.len() + 1 - i,
    {
        let c = flag_code_of(args[i].as_str());
        if c == k && (k <= 8 || i < args.len() - 1) {
            return true;
        }
        i = next_index_of(args, i, c);
    }
    false
}

/// The values of the `--extension` flags of `args`, in order.
fn cli_extensions(args: &Vec<String>) -> (r: Vec<String>)
    ensures
        views(r@) == ext_scan(args@, 0),
{
    let mut r: Vec<String> = Vec::new();
    let mut i: usize = 0;
    assert(views(r@) =~= Seq::<Seq<char>>::empty());
    assert(views(r@) + ext_scan(args@, 0) =~= ext_scan(args@, 0));
    while i < args.len()
        invariant
            i <= args@.len() + 1,
            views(r@) + ext_scan(args@, i as int) == ext_scan(args@, 0),
        decreases args@.len() + 1 - i,
    {
        let c = flag_code_of(args[i].as_str());
        if c == 14 && i < args.len() - 1 {
            let w = args[i + 1].clone();
            let ghost before = views(r@);
            r.push(w);
            proof {
                assert(views(r@) =~= before.push(w@));
                assert(before + (seq![w@] + ext_scan(args@, next_index(args@, i as int)))
                    =~= before.push(w@) + ext_scan(args@, next_index(args@, i as int)));
            }
        }
        i = next_index_of(args, i, c);
    }
    assert(views(r@) + ext_scan(args@, i as int) =~= views(r@));
    r
}

proof fn lemma_value_scan_some(a: Seq<String>, i: int, k: int, cur: Option<Seq<char>>)
    requires
        cur is Some,
    ensures
        value_scan(a, i, k, cur) is Some,
    decreases a.len() - i,
{
    if 0 <= i < a.len() {
        let nxt = if takes_effect(a, i, k) {
            Some(a[i + 1]@)
        } else {
            cur
        };
        lemma_value_scan_some(a, next_index(a, i), k, nxt);
    }
}

/// The resolved options of a run. Each option starts from its environment
/// variable, else the configuration, else a default (see `base_spec`); then
/// each command-line flag that takes effect sets it, in argument order, so
/// that the last one wins.
pub fn parse_flags(args: &Vec<String>, env: &EnvSnapshot, config: Config) -> (r: Flags)
    ensures
        r.json == bool_scan(args@, 0, 1, base_spec(*env, config).json),
        r.full == bool_scan(args@, 0, 2, base_spec(*env, config).full),
        r.headed == bool_scan(args@, 0, 3, base_spec(*env, config).headed),
        r.debug == bool_scan(args@, 0, 4, base_spec(*env, config).debug),
        Some(r.session@) == value_scan(args@, 0, 11, Some(base_spec(*env, config).session)),
        opt_view(r.headers) == value_scan(args@, 0, 12, base_spec(*env, config).headers),
        opt_view(r.executable_path) == value_scan(args@, 0, 13, base_spec(*env, config).executable_path),
        opt_view(r.cdp) == value_scan(args@, 0, 15, base_spec(*env, config).cdp),
        views(r.extensions@) == base_spec(*env, config).extensions + ext_scan(args@, 0),
        opt_view(r.profile) == value_scan(args@, 0, 16, base_spec(*env, config).profile),
        opt_view(r.state) == value_scan(args@, 0, 17, base_spec(*env, config).state),
        opt_view(r.proxy) == value_scan(args@, 0, 18, base_spec(*env, config).proxy),
        opt_view(r.proxy_bypass) == value_scan(args@, 0, 19, base_spec(*env, config).proxy_bypass),
        opt_view(r.args) == value_scan(args@, 0, 20, base_spec(*env, config).args),
        opt_view(r.user_agent) == value_scan(args@, 0, 21, base_spec(*env, config).user_agent),
        opt_view(r.provider) == value_scan(args@, 0, 22, base_spec(*env, config).provider),
        r.ignore_https_errors == bool_scan(args@, 0, 5, base_spec(*env, config).ignore_https_errors),
        r.allow_file_access == bool_scan(args@, 0, 6, base_spec(*env, config).allow_file_access),
        opt_view(r.device) == value_scan(args@, 0, 23, base_spec(*env, config).device),
        r.auto_connect == bool_scan(args@, 0, 7, base_spec(*env, config).auto_connect),
        opt_view(r.session_name) == value_scan(args@, 0, 24, base_spec(*env, config).session_name),
        r.annotate == bool_scan(args@, 0, 8, base_spec(*env, config).annotate),
        opt_view(r.color_scheme) == value_scan(args@, 0, 25, base_spec(*env, config).color_scheme),
        r.cli_executable_path == seen_scan(args@, 0, 13),
        r.cli_extensions == seen_scan(args@, 0, 14),
        r.cli_profile == seen_scan(args@, 0, 16),
        r.cli_state == seen_scan(args@, 0, 17),
        r.cli_args == seen_scan(args@, 0, 20),
        r.cli_user_agent == seen_scan(args@, 0, 21),
        r.cli_proxy == seen_scan(args@, 0, 18),
        r.cli_proxy_bypass == seen_scan(args@, 0, 19),
        r.cli_allow_file_access == seen_scan(args@, 0, 6),
        r.cli_annotate == seen_scan(args@, 0, 8),
{
    let b = base_flags(env, config);
    let ghost bm = b@;
    let session = match last_value(args, 11, Some(b.session)) {
        Some(s) => s,
        None => {
            proof {
                lemma_value_scan_some(args@, 0, 11, Some(bm.session));
            }
            owned("default")
        },
    };
    let mut extensions = b.extensions;
    let mut more = cli_extensions(args);
    let ghost e0 = extensions@;
    let ghost m0 = more@;
    extensions.append(&mut more);
    proof {
        reveal(ext_model);
        assert(views(extensions@) =~= views(e0) + views(m0));
    }
    Flags {
        json: last_bool(args, 1, b.json),
        full: last_bool(args, 2, b.full),
        headed: last_bool(args, 3, b.headed),
        debug: last_bool(args, 4, b.debug),
        session,
        headers: last_value(args, 12, b.headers),
        executable_path: last_value(args, 13, b.executable_path),
        cdp: last_value(args, 15, b.cdp),
        extensions,
        profile: last_value(args, 16, b.profile),
        state: last_value(args, 17, b.state),
        proxy: last_value(args, 18, b.proxy),
        proxy_bypass: last_value(args, 19, b.proxy_bypass),
        args: last_value(args, 20, b.args),
        user_agent: last_value(args, 21, b.user_agent),
        provider: last_value(args, 22, b.provider),
        ignore_https_errors: last_bool(args, 5, b.ignore_https_errors),
        allow_file_access: last_bool(args, 6, b.allow_file_access),
        device: last_value(args, 23, b.device),
        auto_connect: last_bool(args, 7, b.auto_connect),
        session_name: last_value(args, 24, b.session_name),
        annotate: last_bool(args, 8, b.annotate),
        color_scheme: last_value(args, 25, b.color_scheme),
        cli_executable_path: flag_seen(args, 13),
        cli_extensions: flag_seen(args, 14),
        cli_profile: flag_seen(args, 16),
        cli_state: flag_seen(args, 17),
        cli_args: flag_seen(args, 20),
        cli_user_agent: flag_seen(args, 21),
        cli_proxy: flag_seen(args, 18),
        cli_proxy_bypass: flag_seen(args, 19),
        cli_allow_file_access: flag_seen(args, 6),
        cli_annotate: flag_seen(args, 8),
    }
}

proof fn lemma_value_flag_decides(a: Seq<String>, i: int, k: int, x: Option<Seq<char>>, y: Option<Seq<char>>)
    requires
        i >= 0,
        seen_scan(a, i, k),
    ensures
        value_scan(a, i, k, x) == value_scan(a, i, k, y),
    decreases a.len() - i,
{
    if i < a.len() && !takes_effect(a, i, k) {
        lemma_value_flag_decides(a, next_index(a, i), k, x, y);
    }
}

proof fn lemma_bool_flag_decides(a: Seq<String>, i: int, k: int, x: bool, y: bool)
    requires
        i >= 0,
        seen_scan(a, i, k),
    ensures
        bool_scan(a, i, k, x) == bool_scan(a, i, k, y),
    decreases a.len() - i,
{
    if i < a.len() && !takes_effect(a, i, k) {
        lemma_bool_flag_decides(a, next_index(a, i), k, x, y);
    }
}

/// A command-line flag that takes a value and takes effect decides its
/// option: whatever the environment and the configuration gave (`x` or `y`),
/// the resolved value is the same.
pub proof fn cli_value_flag_wins(a: Seq<String>, k: int, x: Option<Seq<char>>, y: Option<Seq<char>>)
    requires
        seen_scan(a, 0, k),
    ensures
        value_scan(a, 0, k, x) == value_scan(a, 0, k, y),
{
    lemma_value_flag_decides(a, 0, k, x, y);
}

/// A boolean command-line flag decides its option: whatever the
/// environment and the configuration gave (`x` or `y`), the resolved value
/// is the same.
pub proof fn cli_bool_flag_wins(a: Seq<String>, k: int, x: bool, y: bool)
    requires
        seen_scan(a, 0, k),
    ensures
        bool_scan(a, 0, k, x) == bool_scan(a, 0, k, y),
{
    lemma_bool_flag_decides(a, 0, k, x, y);
}

/// A value flag given last, with its value, after arguments that hold no
/// global flag, sets its option to that value whatever it was before.
pub proof fn trailing_value_flag_sets(a: Seq<String>, k: int, v: String, x: Option<Seq<char>>)
    requires
        11 <= k <= 25,
        forall|i: int| 0 <= i < a.len() ==> flag_code(#[trigger] a[i]@) == 0,
    ensures
        forall|f: String| flag_code(f@) == k ==> value_scan(a + seq![f, v], 0, k, x) == Some(v@),
{
    assert forall|f: String| flag_code(f@) == k implies value_scan(a + seq![f, v], 0, k, x) == Some(v@) by {
        lemma_plain_prefix(a, seq![f, v], 0, k, x);
        let b = a + seq![f, v];
        let n = a.len() as int;
        assert(b[n] == f);
        assert(takes_effect(b, n, k));
        assert(next_index(b, n) == n + 2);
        assert(value_scan(b, n + 2, k, Some(b[n + 1]@)) == Some(b[n + 1]@));
    }
}

proof fn lemma_plain_prefix(a: Seq<String>, t: Seq<String>, i: int, k: int, x: Option<Seq<char>>)
    requires
        0 <= i <= a.len(),
        11 <= k <= 25,
        forall|j: int| 0 <= j < a.len() ==> flag_code(#[trigger] a[j]@) == 0,
    ensures
        value_scan(a + t, i, k, x) == value_scan(a + t, a.len() as int, k, x),
    decreases a.len() - i,
{
    if i < a.len() {
        let b = a + t;
        assert(b[i] == a[i]);
        lemma_plain_prefix(a, t, i + 1, k, x);
    }
}

/// Whether a token is a global flag that takes a value (`--config` aside),
/// so that what follows it is its value.
pub open spec fn takes_value(t: Seq<char>) -> bool {
    11 <= flag_code(t) <= 25
}

/// Where `--config` stands among the arguments from `i` on, skipping the
/// values of flags that take one: `Some(Some(path))` where a path follows
/// it, `Some(None)` where it is last, `None` where it does not occur.
pub open spec fn config_path_from(a: Seq<String>, i: int) -> Option<Option<Seq<char>>>
    decreases a.len() + 1 - i,
{
    if i < 0 || i >= a.len() {
        None
    } else if a[i]@ == "--config"@ {
        Some(
            if i + 1 < a.len() {
                Some(a[i + 1]@)
            } else {
                None
            },
        )
    } else if takes_value(a[i]@) {
        config_path_from(a, i + 2)
    } else {
        config_path_from(a, i + 1)
    }
}

/// Finds `--config <path>` among the arguments before the options are read.
pub fn extract_config_path(args: &Vec<String>) -> (r: Option<Option<String>>)
    ensures
        match r {
            Some(Some(p)) => config_path_from(args@, 0) == Some(Some(p@)),
            Some(None) => config_path_from(args@, 0) == Some(None::<Seq<char>>),
            None => config_path_from(args@, 0) is None,
        },
{
    let n = args.len();
    let mut i: usize = 0;
    while i < n
        invariant
            n == args@.len(),
            i <= n + 1,
            config_path_from(args@, i as int) == config_path_from(args@, 0),
        decreases n + 1 - i,
    {
        let t = args[i].as_str();
        if str_eq(t, "--config") {
            if i + 1 < n {
                return Some(Some(args[i + 1].clone()));
            } else {
                return Some(None);
            }
        }
        let c = flag_code_of(t);
        if 11 <= c && c <= 25 && i + 1 < n {
            assert(config_path_from(args@, i as int) == config_path_from(args@, i + 2));
            i = i + 2;
        } else if 11 <= c && c <= 25 {
            assert(config_path_from(args@, i as int) == config_path_from(args@, i + 2));
            assert(config_path_from(args@, i + 2) is None);
            assert(config_path_from(args@, n as int) is None);
            i = n;
        } else {
            assert(config_path_from(args@, i as int) == config_path_from(args@, i + 1));
            i = i + 1;
        }
    }
    None
}

/// Global flags that read an optional `true` / `false` after them.
pub open spec fn bool_flag(t: Seq<char>) -> bool {
    1 <= flag_code(t) <= 8
}

/// The arguments from `i` on without the global flags and their values.
pub open spec fn cleaned(a: Seq<String>, i: int) -> Seq<Seq<char>>
    decreases a.len() + 1 - i,
{
    if i < 0 || i >= a.len() {
        Seq::empty()
    } else if takes_value(a[i]@) || a[i]@ == "--config"@ {
        cleaned(a, i + 2)
    } else if bool_flag(a[i]@) {
        if bool_arg(a, i).1 {
            cleaned(a, i + 2)
        } else {
            cleaned(a, i + 1)
        }
    } else {
        seq![a[i]@] + cleaned(a, i + 1)
    }
}

/// The arguments without the global flags (and the values they take), in
/// their order: what is left for the command.
pub fn clean_args(args: &Vec<String>) -> (r: Vec<String>)
    ensures
        views(r@) == cleaned(args@, 0),
{
    let n = args.len();
    let mut r: Vec<String> = Vec::new();
    let mut i: usize = 0;
    assert(views(r@) + cleaned(args@, 0) =~= cleaned(args@, 0));
    while i < n
        invariant
            n == args@.len(),
            i <= n + 1,
            views(r@) + cleaned(args@, i as int) == cleaned(args@, 0),
        decreases n + 1 - i,
    {
        let t = args[i].as_str();
        let c = flag_code_of(t);
        let skips = (11 <= c && c <= 25) || str_eq(t, "--config");
        if skips && i + 1 < n {
            assert(cleaned(args@, i as int) == cleaned(args@, i + 2));
            i = i + 2;
        } else if skips {
            assert(cleaned(args@, i as int) == cleaned(args@, i + 2));
            assert(cleaned(args@, i + 2) =~= Seq::<Seq<char>>::empty());
            assert(cleaned(args@, n as int) =~= Seq::<Seq<char>>::empty());
            i = n;
        } else if 1 <= c && c <= 8 {
            if parse_bool_arg(args, i).1 {
                i = i + 2;
            } else {
                i = i + 1;
            }
        } else {
            let w = args[i].clone();
            let ghost before = views(r@);
            r.push(w);
            proof {
                assert(views(r@) =~= before.push(w@));
                assert(before + (seq![w@] + cleaned(args@, i + 1)) =~= before.push(w@) + cleaned(
                    args@,
                    i + 1,
                ));
            }
            i = i + 1;
        }
    }
    assert(views(r@) + cleaned(args@, i as int) =~= views(r@));
    r
}

/// Which single configuration file a run loads, if any: the path after
/// `--config`, else the path the environment names; an error where
/// `--config` is the last argument. `None` means the user and project files.
pub open spec fn explicit_config(a: Seq<String>, env_path: Option<String>) -> Option<Result<Seq<char>, Seq<char>>> {
    match config_path_from(a, 0) {
        Some(Some(p)) => Some(Ok(p)),
        Some(None) => Some(Err("--config requires a file path"@)),
        None => match env_path {
            Some(p) => Some(Ok(p@)),
            None => None,
        },
    }
}

/// The configuration file named explicitly for this run (see
/// `explicit_config`).
pub fn explicit_config_path(args: &Vec<String>, env: &EnvSnapshot) -> (r: Option<Result<String, String>>)
    ensures
        match r {
            None => explicit_config(args@, env.config) is None,
            Some(Ok(p)) => explicit_config(args@, env.config) == Some(Ok::<Seq<char>, Seq<char>>(p@)),
            Some(Err(m)) => explicit_config(args@, env.config) == Some(Err::<Seq<char>, Seq<char>>(m@)),
        },
{
    match extract_config_path(args) {
        Some(Some(p)) => Some(Ok(p)),
        Some(None) => Some(Err(owned("--config requires a file path"))),
        None => match &env.config {
            Some(p) => Some(Ok(p.clone())),
            None => None,
        },
    }
}

/// The error for an explicitly named configuration file that does not exist.
pub fn config_not_found(path: &str) -> (r: String)
    ensures
        r@ == "config file not found: "@ + path@,
{
    let mut r = owned("config file not found: ");
    r.append(path);
    r
}

} // verus!
