//! Configuration documents and how two of them merge.
use vstd::prelude::*;

verus! {

/// One configuration document: every setting is optional.
pub struct Config {
    pub headed: Option<bool>,
    pub json: Option<bool>,
    pub full: Option<bool>,
    pub debug: Option<bool>,
    pub session: Option<String>,
    pub session_name: Option<String>,
    pub executable_path: Option<String>,
    pub extensions: Option<Vec<String>>,
    pub profile: Option<String>,
    pub state: Option<String>,
    pub proxy: Option<String>,
    pub proxy_bypass: Option<String>,
    pub args: Option<String>,
    pub user_agent: Option<String>,
    pub provider: Option<String>,
    pub device: Option<String>,
    pub ignore_https_errors: Option<bool>,
    pub allow_file_access: Option<bool>,
    pub cdp: Option<String>,
    pub auto_connect: Option<bool>,
    pub headers: Option<String>,
    pub annotate: Option<bool>,
    pub color_scheme: Option<String>,
}

impl Default for Config {
    fn default() -> (r: Config)
        ensures
            r.headed is None,
            r.json is None,
            r.full is None,
            r.debug is None,
            r.session is None,
            r.session_name is None,
            r.executable_path is None,
            r.extensions is None,
            r.profile is None,
            r.state is None,
            r.proxy is None,
            r.proxy_bypass is None,
            r.args is None,
            r.user_agent is None,
            r.provider is None,
            r.device is None,
            r.ignore_https_errors is None,
            r.allow_file_access is None,
            r.cdp is None,
            r.auto_connect is None,
            r.headers is None,
            r.annotate is None,
            r.color_scheme is None,
    {
        Config {
            headed: None,
            json: None,
            full: None,
            debug: None,
            session: None,
            session_name: None,
            executable_path: None,
            extensions: None,
            profile: None,
            state: None,
            proxy: None,
            proxy_bypass: None,
            args: None,
            user_agent: None,
            provider: None,
            device: None,
            ignore_https_errors: None,
            allow_file_access: None,
            cdp: None,
            auto_connect: None,
            headers: None,
            annotate: None,
            color_scheme: None,
        }
    }
}

/// The first of two optional values that is present.
pub open spec fn either<T>(a: Option<T>, b: Option<T>) -> Option<T> {
    if a is Some {
        a
    } else {
        b
    }
}

fn either_move<T>(a: Option<T>, b: Option<T>) -> (r: Option<T>)
    ensures
        r == either(a, b),
{
    match a {
        Some(x) => Some(x),
        None => b,
    }
}

/// The items of an optional list.
pub open spec fn list_view(o: Option<Vec<String>>) -> Option<Seq<String>> {
    match o {
        Some(v) => Some(v@),
        None => None,
    }
}

/// Two optional lists, concatenated where both are present.
pub open spec fn concat_spec(a: Option<Seq<String>>, b: Option<Seq<String>>) -> Option<Seq<String>> {
    match (a, b) {
        (Some(x), Some(y)) => Some(x + y),
        (Some(x), None) => Some(x),
        (None, y) => y,
    }
}

fn concat_lists(a: Option<Vec<String>>, b: Option<Vec<String>>) -> (r: Option<Vec<String>>)
    ensures
        list_view(r) == concat_spec(list_view(a), list_view(b)),
{
    match (a, b) {
        (Some(mut x), Some(mut y)) => {
            x.append(&mut y);
            Some(x)
        },
        (Some(x), None) => Some(x),
        (None, y) => y,
    }
}

impl Config {
    /// Layers `other` over `self`: each setting of `other` that is present
    /// wins, others keep the value of `self`; the extension lists are
    /// concatenated, those of `self` first.
    pub fn merge(self, other: Config) -> (r: Config)
        ensures
            r.headed == either(other.headed, self.headed),
            r.json == either(other.json, self.json),
            r.full == either(other.full, self.full),
            r.debug == either(other.debug, self.debug),
            r.session == either(other.session, self.session),
            r.session_name == either(other.session_name, self.session_name),
            r.executable_path == either(other.executable_path, self.executable_path),
            r.profile == either(other.profile, self.profile),
            r.state == either(other.state, self.state),
            r.proxy == either(other.proxy, self.proxy),
            r.proxy_bypass == either(other.proxy_bypass, self.proxy_bypass),
            r.args == either(other.args, self.args),
            r.user_agent == either(other.user_agent, self.user_agent),
            r.provider == either(other.provider, self.provider),
            r.device == either(other.device, self.device),
            r.ignore_https_errors == either(other.ignore_https_errors, self.ignore_https_errors),
            r.allow_file_access == either(other.allow_file_access, self.allow_file_access),
            r.cdp == either(other.cdp, self.cdp),
            r.auto_connect == either(other.auto_connect, self.auto_connect),
            r.headers == either(other.headers, self.headers),
            r.annotate == either(other.annotate, self.annotate),
            r.color_scheme == either(other.color_scheme, self.color_scheme),
            list_view(r.extensions) == concat_spec(list_view(self.extensions), list_view(other.extensions)),
    {
        Config {
            headed: either_move(other.headed, self.headed),
            json: either_move(other.json, self.json),
            full: either_move(other.full, self.full),
            debug: either_move(other.debug, self.debug),
            session: either_move(other.session, self.session),
            session_name: either_move(other.session_name, self.session_name),
            executable_path: either_move(other.executable_path, self.executable_path),
            extensions: concat_lists(self.extensions, other.extensions),
            profile: either_move(other.profile, self.profile),
            state: either_move(other.state, self.state),
            proxy: either_move(other.proxy, self.proxy),
            proxy_bypass: either_move(other.proxy_bypass, self.proxy_bypass),
            args: either_move(other.args, self.args),
            user_agent: either_move(other.user_agent, self.user_agent),
            provider: either_move(other.provider, self.provider),
            device: either_move(other.device, self.device),
            ignore_https_errors: either_move(other.ignore_https_errors, self.ignore_https_errors),
            allow_file_access: either_move(other.allow_file_access, self.allow_file_access),
            cdp: either_move(other.cdp, self.cdp),
            auto_connect: either_move(other.auto_connect, self.auto_connect),
            headers: either_move(other.headers, self.headers),
            annotate: either_move(other.annotate, self.annotate),
            color_scheme: either_move(other.color_scheme, self.color_scheme),
        }
    }
}

} // verus!
