//! Recognition of the `frpc` log lines that move a tunnel through its
//! lifecycle.
use vstd::prelude::*;
use crate::models::MINECRAFT_PROXY_NAME;
use crate::text::{
    chars_of, contains, contains_exec, find, find_char, find_char_from, find_from,
    last_index_of, lemma_trim_idempotent, lower, lower_chars, rfind_char, starts_with,
    starts_with_exec, str_eq, string_of, string_of_range, trim, trim_bounds,
};

verus! {

/// What a line of `frpc` output says about the tunnel.
#[derive(Debug, PartialEq, Eq)]
pub enum FrpcSignal {
    Connecting,
    LoginSuccess,
    ProxyStarted { proxy_name: String },
    StartError { detail: String },
    LoginFailed { detail: String },
}

/// A signal as a mathematical value.
pub enum SignalView {
    Connecting,
    LoginSuccess,
    ProxyStarted { proxy_name: Seq<char> },
    StartError { detail: Seq<char> },
    LoginFailed { detail: Seq<char> },
}

impl View for FrpcSignal {
    type V = SignalView;

    open spec fn view(&self) -> SignalView {
        match self {
            FrpcSignal::Connecting => SignalView::Connecting,
            FrpcSignal::LoginSuccess => SignalView::LoginSuccess,
            FrpcSignal::ProxyStarted { proxy_name } => SignalView::ProxyStarted {
                proxy_name: proxy_name@,
            },
            FrpcSignal::StartError { detail } => SignalView::StartError { detail: detail@ },
            FrpcSignal::LoginFailed { detail } => SignalView::LoginFailed { detail: detail@ },
        }
    }
}

impl Clone for FrpcSignal {
    fn clone(&self) -> (r: Self)
        ensures
            r == *self,
    {
        match self {
            FrpcSignal::Connecting => FrpcSignal::Connecting,
            FrpcSignal::LoginSuccess => FrpcSignal::LoginSuccess,
            FrpcSignal::ProxyStarted { proxy_name } => FrpcSignal::ProxyStarted {
                proxy_name: proxy_name.clone(),
            },
            FrpcSignal::StartError { detail } => FrpcSignal::StartError { detail: detail.clone() },
            FrpcSignal::LoginFailed { detail } => FrpcSignal::LoginFailed { detail: detail.clone() },
        }
    }
}

/// The view of an optional signal.
pub open spec fn opt_signal_view(o: Option<FrpcSignal>) -> Option<SignalView> {
    match o {
        Some(s) => Some(s@),
        None => None,
    }
}

/// The proxy event that `line` reports with the lowercase phrase `suffix`:
/// the first occurrence of `suffix` (ignoring ASCII case) must follow a
/// bracketed proxy name, `[name]`, the last `[` before it, and the text after
/// that `]`, trimmed, must begin with `suffix` (ignoring ASCII case). The
/// result is the proxy name and that trimmed remainder.
pub open spec fn proxy_event(line: Seq<char>, suffix: Seq<char>) -> Option<(Seq<char>, Seq<char>)> {
    match find_from(lower(line), suffix, 0) {
        None => None,
        Some(at) => {
            let prefix = line.subrange(0, at);
            match last_index_of(prefix, '[') {
                None => None,
                Some(open) => match find_char_from(prefix, ']', open) {
                    None => None,
                    Some(close) => {
                        let rest = trim(line.subrange(close + 1, line.len() as int));
                        if starts_with(lower(rest), suffix) {
                            Some((line.subrange(open + 1, close), rest))
                        } else {
                            None
                        }
                    },
                },
            }
        },
    }
}

/// Whether the lowercase text `lowered` says that logging in was refused.
pub open spec fn says_login_failed(lowered: Seq<char>) -> bool {
    ||| contains(lowered, "token in login doesn't match token from configuration"@)
    ||| contains(lowered, "login to the server failed"@)
    ||| contains(lowered, "authorization failed"@)
    ||| contains(lowered, "authentication failed"@)
}

/// What an `frpc` output line signals. The line is trimmed first; blank lines
/// signal nothing. The checks, in order and ignoring ASCII case: connecting,
/// login success, a proxy started, login refused (with the whole trimmed line
/// as detail), a proxy that failed to start (with the text from `start error`
/// on as detail).
pub open spec fn classify(line: Seq<char>) -> Option<SignalView> {
    let t = trim(line);
    let l = lower(t);
    if t.len() == 0 {
        None
    } else if contains(l, "try to connect to server"@) {
        Some(SignalView::Connecting)
    } else if contains(l, "login to server success"@) {
        Some(SignalView::LoginSuccess)
    } else {
        match proxy_event(t, "start proxy success"@) {
            Some(started) => Some(SignalView::ProxyStarted { proxy_name: started.0 }),
            None => if says_login_failed(l) {
                Some(SignalView::LoginFailed { detail: t })
            } else {
                match proxy_event(t, "start error"@) {
                    Some(failed) => Some(SignalView::StartError { detail: failed.1 }),
                    None => None,
                }
            },
        }
    }
}

/// The view of an optional pair of strings.
pub open spec fn opt_pair_view(o: Option<(String, String)>) -> Option<(Seq<char>, Seq<char>)> {
    match o {
        Some(p) => Some((p.0@, p.1@)),
        None => None,
    }
}

/// The proxy name and trimmed remainder of the proxy event that `line`
/// reports with the lowercase phrase `suffix`.
pub fn extract_proxy_event(line: &Vec<char>, suffix: &Vec<char>) -> (r: Option<(String, String)>)
    ensures
        opt_pair_view(r) == proxy_event(line@, suffix@),
{
    let lowered = lower_chars(line);
    let at = match find(&lowered, suffix) {
        Some(at) => at,
        None => return None,
    };
    proof {
        crate::text::lemma_find_from_none(lower(line@), suffix@, 0);
    }
    let open = match rfind_char(line, '[', at) {
        Some(open) => open,
        None => return None,
    };
    let ghost prefix = line@.subrange(0, at as int);
    proof {
        lemma_last_index_in(prefix, '[');
    }
    let close = match find_char(line, ']', open) {
        Some(close) => close,
        None => {
            proof {
                lemma_find_char_prefix(line@, at as int, ']', open as int);
            }
            return None;
        },
    };
    proof {
        lemma_find_char_prefix(line@, at as int, ']', open as int);
        assert(prefix[open as int] == '[');
        assert(line@[open as int] == '[');
        assert(find_char_from(line@, ']', open as int) == find_char_from(line@, ']', open + 1));
        lemma_find_char_at_least(line@, ']', open + 1);
        assert(open + 1 <= close);
    }
    if close >= at {
        return None;
    }
    let tail_chars = sub_vec(line, close + 1, line.len());
    let (lo, hi) = trim_bounds(&tail_chars);
    let rest_chars = sub_vec(&tail_chars, lo, hi);
    let lowered_rest = lower_chars(&rest_chars);
    if !starts_with_exec(&lowered_rest, suffix) {
        return None;
    }
    let name = string_of_range(line, open + 1, close);
    let rest = string_of(&rest_chars);
    Some((name, rest))
}

proof fn lemma_last_index_in(s: Seq<char>, c: char)
    ensures
        last_index_of(s, c) matches Some(i) ==> 0 <= i < s.len() && s[i] == c,
    decreases s.len(),
{
    if s.len() > 0 && s.last() != c {
        lemma_last_index_in(s.drop_last(), c);
    }
}

/// Searching a prefix of `s` that still holds `k` finds what searching `s`
/// finds, if that lies inside the prefix, and nothing otherwise.
proof fn lemma_find_char_prefix(s: Seq<char>, n: int, c: char, k: int)
    requires
        0 <= k < n <= s.len(),
    ensures
        find_char_from(s.subrange(0, n), c, k) == (match find_char_from(s, c, k) {
            Some(i) => if i < n {
                Some(i)
            } else {
                None
            },
            None => None,
        }),
    decreases n - k,
{
    lemma_find_char_at_least(s, c, k);
    if s[k] == c {
    } else if k + 1 < n {
        lemma_find_char_prefix(s, n, c, k + 1);
    } else {
        lemma_find_char_at_least(s, c, k + 1);
    }
}

proof fn lemma_find_char_at_least(s: Seq<char>, c: char, k: int)
    ensures
        find_char_from(s, c, k) matches Some(i) ==> k <= i,
    decreases s.len() - k,
{
    if 0 <= k < s.len() && s[k] != c {
        lemma_find_char_at_least(s, c, k + 1);
    }
}

/// A copy of `v@[lo..hi]`.
fn sub_vec(v: &Vec<char>, lo: usize, hi: usize) -> (r: Vec<char>)
    requires
        lo <= hi <= v@.len(),
    ensures
        r@ == v@.subrange(lo as int, hi as int),
{
    let mut r: Vec<char> = Vec::new();
    let mut i = lo;
    while i < hi
        invariant
            lo <= i <= hi <= v@.len(),
            r@ == v@.subrange(lo as int, i as int),
        decreases hi - i,
    {
        r.push(v[i]);
        assert(v@.subrange(lo as int, i + 1) =~= v@.subrange(lo as int, i as int).push(v@[i as int]));
        i = i + 1;
    }
    r
}

/// What a line of `frpc` output signals, if anything.
pub fn classify_frpc_line(line: &str) -> (r: Option<FrpcSignal>)
    ensures
        opt_signal_view(r) == classify(line@),
{
    let all = chars_of(line);
    let (lo, hi) = trim_bounds(&all);
    if lo == hi {
        return None;
    }
    let trimmed = sub_vec(&all, lo, hi);
    let lowered = lower_chars(&trimmed);
    if contains_exec(&lowered, &chars_of("try to connect to server")) {
        return Some(FrpcSignal::Connecting);
    }
    if contains_exec(&lowered, &chars_of("login to server success")) {
        return Some(FrpcSignal::LoginSuccess);
    }
    if let Some((proxy_name, _detail)) = extract_proxy_event(
        &trimmed,
        &chars_of("start proxy success"),
    ) {
        return Some(FrpcSignal::ProxyStarted { proxy_name });
    }
    if contains_exec(&lowered, &chars_of("token in login doesn't match token from configuration")) {
        return Some(FrpcSignal::LoginFailed { detail: string_of(&trimmed) });
    }
    if contains_exec(&lowered, &chars_of("login to the server failed")) || contains_exec(
        &lowered,
        &chars_of("authorization failed"),
    ) || contains_exec(&lowered, &chars_of("authentication failed")) {
        return Some(FrpcSignal::LoginFailed { detail: string_of(&trimmed) });
    }
    if let Some((_proxy_name, detail)) = extract_proxy_event(&trimmed, &chars_of("start error")) {
        return Some(FrpcSignal::StartError { detail });
    }
    None
}

/// Whether the signal reports that the Minecraft proxy started.
pub open spec fn minecraft_proxy_started(s: SignalView) -> bool {
    s matches SignalView::ProxyStarted { proxy_name } && proxy_name == MINECRAFT_PROXY_NAME@
}

/// Whether the signal reports that the Minecraft proxy started.
pub fn is_minecraft_proxy_started(signal: &FrpcSignal) -> (r: bool)
    ensures
        r == minecraft_proxy_started(signal@),
{
    match signal {
        FrpcSignal::ProxyStarted { proxy_name } => str_eq(proxy_name.as_str(), MINECRAFT_PROXY_NAME),
        _ => false,
    }
}

/// Whitespace around a line does not change what it signals.
pub proof fn law_classify_ignores_surrounding_whitespace(line: Seq<char>)
    ensures
        classify(trim(line)) == classify(line),
{
    lemma_trim_idempotent(line);
}

} // verus!
