//! Synthesis of the rewritten function: the wait prologue and the retry loop.
use vstd::prelude::*;
use crate::config::{
    AttrArg, Config, ConfigError, Seconds, Transform, decimal_u64, parse_args, parse_decimal_u64, parse_spec,
};

verus! {

/// How the generated code computes the wait.
#[derive(Clone, Debug, PartialEq, Eq)]
pub enum DurationExpr {
    /// A fixed number of whole seconds.
    Secs(u64),
    /// A uniformly drawn number of whole seconds below the bound.
    JitteredSecs(u64),
    /// A fixed number of seconds, given as a float literal's digits.
    SecsF64(String),
    /// A uniformly drawn number of seconds in `[0.0, f)`, `f` given as a float
    /// literal's digits.
    JitteredSecsF64(String),
}

/// A statement of the rewritten function.
#[derive(Clone, Debug, PartialEq, Eq)]
pub enum Stmt {
    /// A statement of the body as written, as its source text.
    Source(String),
    /// `let dur = <duration>;`
    LetDuration(DurationExpr),
    /// Blocks the calling thread for `dur`.
    BlockThread,
    /// Suspends the calling task for `dur` (an `.await` point).
    SuspendTask,
}

/// The signature of a function, as its source text, with what the transforms
/// read from it.
#[derive(Clone, Debug, PartialEq, Eq)]
pub struct Signature {
    pub text: String,
    pub is_async: bool,
    pub has_return_type: bool,
}

/// A function declaration as the transforms receive it.
#[derive(Clone, Debug, PartialEq, Eq)]
pub struct FnItem {
    /// Its outer attributes, in order, as source text.
    pub attrs: Vec<String>,
    /// Its visibility, as source text (empty for private).
    pub vis: String,
    pub sig: Signature,
    pub body: Vec<Stmt>,
}

/// The body of a rewritten function.
#[derive(Clone, Debug, PartialEq, Eq)]
pub enum Body {
    /// These statements, in order.
    Stmts(Vec<Stmt>),
    /// The block as written, run as a closure, again while it fails and retries
    /// are left, at most `times` retries; the last result is returned.
    RetryLoop { times: u64, block: Vec<Stmt> },
}

/// A rewritten function declaration.
#[derive(Clone, Debug, PartialEq, Eq)]
pub struct RewrittenFn {
    pub attrs: Vec<String>,
    pub vis: String,
    pub sig: Signature,
    pub body: Body,
}

/// The retry transform's argument `key = <integer literal>`, the literal given
/// by its base-10 digits.
#[derive(Clone, Debug, PartialEq, Eq)]
pub struct TimesArg {
    pub key: String,
    pub digits: String,
}

/// Whether a float literal's digits denote zero: its mantissa, the part
/// before an exponent, holds only `0` and `.`.
pub open spec fn float_is_zero(s: Seq<char>) -> bool
    decreases s.len(),
{
    s.len() == 0 || s[0] == 'e' || s[0] == 'E' || ((s[0] == '0' || s[0] == '.')
        && float_is_zero(s.drop_first()))
}

/// Decides whether a float literal's digits denote zero.
pub fn is_zero_float(s: &str) -> (r: bool)
    ensures
        r == float_is_zero(s@),
{
    let n = s.unicode_len();
    let mut i: usize = 0;
    assert(s@.subrange(0, n as int) =~= s@);
    while i < n
        invariant
            n == s@.len(),
            0 <= i <= n,
            float_is_zero(s@) == float_is_zero(s@.subrange(i as int, n as int)),
        decreases n - i,
    {
        assert(s@.subrange(i as int, n as int).drop_first() =~= s@.subrange(i as int + 1, n as int));
        let c = s.get_char(i);
        if c == 'e' || c == 'E' {
            return true;
        }
        if !(c == '0' || c == '.') {
            return false;
        }
        i = i + 1;
    }
    true
}

/// The wait that a configuration asks for. A jittered wait below a zero bound,
/// integer or float, has nothing to draw from: it is no wait, a fixed zero.
pub open spec fn sleep_duration(c: Config) -> DurationExpr {
    match c.seconds {
        Seconds::Int(n) => if c.jitter && n > 0 {
            DurationExpr::JitteredSecs(n)
        } else {
            DurationExpr::Secs(n)
        },
        Seconds::Float(f) => if c.jitter && !float_is_zero(f@) {
            DurationExpr::JitteredSecsF64(f)
        } else {
            DurationExpr::SecsF64(f)
        },
    }
}

/// The statements placed before the body as written: compute the wait, then
/// block the thread, or suspend the task where the function is `async`.
pub open spec fn prologue(c: Config, is_async: bool) -> Seq<Stmt> {
    seq![
        Stmt::LetDuration(sleep_duration(c)),
        if is_async { Stmt::SuspendTask } else { Stmt::BlockThread },
    ]
}

/// Computes the wait that `config` asks for.
pub fn get_sleep_duration(config: Config) -> (r: DurationExpr)
    ensures
        r == sleep_duration(config),
{
    match config.seconds {
        Seconds::Int(n) => if config.jitter && n > 0 {
            DurationExpr::JitteredSecs(n)
        } else {
            DurationExpr::Secs(n)
        },
        Seconds::Float(f) => if config.jitter && !is_zero_float(f.as_str()) {
            DurationExpr::JitteredSecsF64(f)
        } else {
            DurationExpr::SecsF64(f)
        },
    }
}

/// The wait prologue for `config`, blocking or suspending by `is_async`.
pub fn jittered(config: Config, is_async: bool) -> (r: Vec<Stmt>)
    ensures
        r@ == prologue(config, is_async),
{
    let dur = get_sleep_duration(config);
    let mut v: Vec<Stmt> = Vec::new();
    v.push(Stmt::LetDuration(dur));
    if is_async {
        v.push(Stmt::SuspendTask);
    } else {
        v.push(Stmt::BlockThread);
    }
    v
}


/// What the wait transform makes of `item` under `args`.
pub open spec fn wait_for_spec(args: Seq<AttrArg>, item: FnItem, r: Result<RewrittenFn, ConfigError>) -> bool {
    match parse_spec(args) {
        Err(e) => r == Err::<RewrittenFn, ConfigError>(e),
        Ok(c) => r is Ok && {
            let f = r->Ok_0;
            &&& f.attrs == item.attrs
            &&& f.vis == item.vis
            &&& f.sig == item.sig
            &&& f.body is Stmts
            &&& f.body->Stmts_0@ == prologue(c, item.sig.is_async) + item.body@
        },
    }
}

/// What the retry transform makes of `item` under its argument.
pub open spec fn retry_spec(args: Option<TimesArg>, item: FnItem, r: Result<RewrittenFn, ConfigError>) -> bool {
    if item.sig.is_async {
        r == Err::<RewrittenFn, ConfigError>(ConfigError::AsyncUnsupported)
    } else if !item.sig.has_return_type {
        r == Err::<RewrittenFn, ConfigError>(ConfigError::MissingReturnType)
    } else {
        match args {
            None => r == Err::<RewrittenFn, ConfigError>(ConfigError::MalformedTimes),
            Some(a) => if a.key@ != "times"@ {
                r == Err::<RewrittenFn, ConfigError>(ConfigError::UnknownOption(Transform::Retry, a.key))
            } else {
                match decimal_u64(a.digits@) {
                    None => r == Err::<RewrittenFn, ConfigError>(ConfigError::OutOfRange(a.digits)),
                    Some(n) => r is Ok && {
                        let f = r->Ok_0;
                        &&& f.attrs == item.attrs
                        &&& f.vis == item.vis
                        &&& f.sig == item.sig
                        &&& f.body is RetryLoop
                        &&& f.body->times == n
                        &&& f.body->block@ == item.body@
                    },
                }
            },
        }
    }
}

/// Rewrites `item` to wait before its body runs, as `args` configure; the
/// attributes, visibility and signature are kept as they are.
pub fn wait_for(args: &Vec<AttrArg>, item: FnItem) -> (r: Result<RewrittenFn, ConfigError>)
    ensures
        wait_for_spec(args@, item, r),
{
    let config = match parse_args(args) {
        Ok(c) => c,
        Err(e) => {
            return Err(e);
        },
    };
    let FnItem { attrs, vis, sig, body } = item;
    let mut body = body;
    let mut stmts = jittered(config, sig.is_async);
    stmts.append(&mut body);
    Ok(RewrittenFn { attrs, vis, sig, body: Body::Stmts(stmts) })
}


/// Rewrites `item` to run its body again while it fails, at most the number of
/// times that `args` gives; refused on an `async` function and on one without a
/// return type, which are checked first.
pub fn retry(args: Option<TimesArg>, item: FnItem) -> (r: Result<RewrittenFn, ConfigError>)
    ensures
        retry_spec(args, item, r),
{
    if item.sig.is_async {
        return Err(ConfigError::AsyncUnsupported);
    }
    if !item.sig.has_return_type {
        return Err(ConfigError::MissingReturnType);
    }
    let TimesArg { key, digits } = match args {
        None => {
            return Err(ConfigError::MalformedTimes);
        },
        Some(a) => a,
    };
    let expected = String::from_str("times");
    if !(key == expected) {
        return Err(ConfigError::UnknownOption(Transform::Retry, key));
    }
    let n = match parse_decimal_u64(digits.as_str()) {
        None => {
            return Err(ConfigError::OutOfRange(digits));
        },
        Some(n) => n,
    };
    let FnItem { attrs, vis, sig, body } = item;
    Ok(RewrittenFn { attrs, vis, sig, body: Body::RetryLoop { times: n, block: body } })
}

/// Where either transform succeeds, the rewritten function carries the
/// attributes and the visibility of the given one exactly as they were.
pub proof fn lemma_attrs_and_vis_kept(
    args: Seq<AttrArg>,
    times: Option<TimesArg>,
    item: FnItem,
    waited: Result<RewrittenFn, ConfigError>,
    retried: Result<RewrittenFn, ConfigError>,
)
    requires
        wait_for_spec(args, item, waited),
        retry_spec(times, item, retried),
    ensures
        waited is Ok ==> waited->Ok_0.attrs == item.attrs && waited->Ok_0.vis == item.vis,
        retried is Ok ==> retried->Ok_0.attrs == item.attrs && retried->Ok_0.vis == item.vis,
{
}

} // verus!
