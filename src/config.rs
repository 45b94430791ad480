//! Configuration of the wait transform and the parser of its attribute arguments.
use vstd::prelude::*;
use vstd::string::*;

verus! {

/// The `seconds` option: an integer, or a float kept as its decimal literal text.
#[derive(Clone, Debug, PartialEq, Eq)]
pub enum Seconds {
    Int(u64),
    Float(String),
}

/// What the wait transform is configured with.
#[derive(Clone, Debug, PartialEq, Eq)]
pub struct Config {
    pub seconds: Seconds,
    pub jitter: bool,
}

impl Default for Config {
    fn default() -> (r: Config)
        ensures
            r == default_config(),
    {
        Config { seconds: Seconds::Int(0), jitter: false }
    }
}

/// One segment of an attribute path: its identifier, and whether it carries
/// generic arguments.
#[derive(Clone, Debug, PartialEq, Eq)]
pub struct PathSegment {
    pub ident: String,
    pub has_arguments: bool,
}

/// The path of an attribute argument (`jitter`, `a::b`, `::c`).
#[derive(Clone, Debug, PartialEq, Eq)]
pub struct AttrPath {
    pub leading_colon: bool,
    pub segments: Vec<PathSegment>,
}

/// The literal on the right of `key = value`. Integer and float literals carry
/// their base-10 digits; other kinds carry their text.
#[derive(Clone, Debug, PartialEq, Eq)]
pub enum Lit {
    Str(String),
    Int(String),
    Float(String),
    Bool(bool),
    Other(String),
}

/// One argument of the attribute: a bare path, a `path = literal` pair, or
/// anything else, kept as its text.
#[derive(Clone, Debug, PartialEq, Eq)]
pub enum AttrArg {
    Path(AttrPath),
    NameValue(AttrPath, Lit),
    Other(String),
}

/// The kind of literal an option expects.
#[derive(Clone, Copy, Debug, PartialEq, Eq)]
pub enum Expected {
    Integer,
    Boolean,
}

/// The two transforms.
#[derive(Clone, Copy, Debug, PartialEq, Eq)]
pub enum Transform {
    WaitFor,
    Retry,
}

/// Why a transformation was refused.
#[derive(Clone, Debug, PartialEq, Eq)]
pub enum ConfigError {
    /// A key or bare word is not a single identifier.
    MissingIdent,
    /// A bare word other than `jitter`; carries the word as written.
    UnrecognizedIdent(String),
    /// A key other than the options the transform recognises; carries the key
    /// as written.
    UnknownOption(Transform, String),
    /// A literal of the wrong kind for its option.
    TypeMismatch(Expected),
    /// An argument of no accepted shape; carries its text.
    Unparseable(String),
    /// An integer literal whose value does not fit in `u64`; carries its digits.
    OutOfRange(String),
    /// The retry transform on an `async` function.
    AsyncUnsupported,
    /// The retry transform on a function without a return type.
    MissingReturnType,
    /// The retry transform without a single `times = <integer>` argument.
    MalformedTimes,
}

/// The identifier a path consists of, if it is a single plain identifier.
pub open spec fn path_ident(p: AttrPath) -> Option<String> {
    if !p.leading_colon && p.segments@.len() == 1 && !p.segments@[0].has_arguments {
        Some(p.segments@[0].ident)
    } else {
        None
    }
}

/// What an identifier of an attribute is compared by: its lower-case form.
pub uninterp spec fn lower_of(s: Seq<char>) -> Seq<char>;

/// Relies on `str::to_lowercase`: the lower-case form of the characters, which
/// depends on them alone.
#[verifier::external_body]
fn lowercase(s: &str) -> (r: String)
    ensures
        r@ == lower_of(s@),
{
    s.to_lowercase()
}

/// The options of the wait transform.
#[derive(Clone, Copy, Debug, PartialEq, Eq)]
pub enum WaitOption {
    Seconds,
    Jitter,
}

/// The option that a lower-case key names, if any.
pub open spec fn option_named(lowered: Seq<char>) -> Option<WaitOption> {
    if lowered == "seconds"@ {
        Some(WaitOption::Seconds)
    } else if lowered == "jitter"@ {
        Some(WaitOption::Jitter)
    } else {
        None
    }
}

/// The configuration after `option = lit`, or the error it raises.
pub open spec fn set_option(cfg: Config, option: WaitOption, lit: Lit) -> Result<Config, ConfigError> {
    match option {
        WaitOption::Seconds => match lit {
            Lit::Int(d) => match decimal_u64(d@) {
                Some(v) => Ok(Config { seconds: Seconds::Int(v), ..cfg }),
                None => Err(ConfigError::OutOfRange(d)),
            },
            Lit::Float(f) => Ok(Config { seconds: Seconds::Float(f), ..cfg }),
            _ => Err(ConfigError::TypeMismatch(Expected::Integer)),
        },
        WaitOption::Jitter => match lit {
            Lit::Bool(b) => Ok(Config { jitter: b, ..cfg }),
            _ => Err(ConfigError::TypeMismatch(Expected::Boolean)),
        },
    }
}

/// The configuration after one `key = literal` argument, or the error it raises.
pub open spec fn apply_name_value(cfg: Config, path: AttrPath, lit: Lit) -> Result<Config, ConfigError> {
    match path_ident(path) {
        None => Err(ConfigError::MissingIdent),
        Some(id) => match option_named(lower_of(id@)) {
            Some(o) => set_option(cfg, o, lit),
            None => Err(ConfigError::UnknownOption(Transform::WaitFor, id)),
        },
    }
}

/// The configuration after one bare-word argument, or the error it raises: the
/// word must be exactly `jitter`.
pub open spec fn apply_path(cfg: Config, path: AttrPath) -> Result<Config, ConfigError> {
    match path_ident(path) {
        None => Err(ConfigError::MissingIdent),
        Some(id) => if id@ == "jitter"@ {
            Ok(Config { jitter: true, ..cfg })
        } else {
            Err(ConfigError::UnrecognizedIdent(id))
        },
    }
}

/// The configuration after one argument of any shape.
pub open spec fn apply_arg(cfg: Config, arg: AttrArg) -> Result<Config, ConfigError> {
    match arg {
        AttrArg::Path(p) => apply_path(cfg, p),
        AttrArg::NameValue(p, l) => apply_name_value(cfg, p, l),
        AttrArg::Other(text) => Err(ConfigError::Unparseable(text)),
    }
}

/// The arguments applied in order from `cfg`; the first error ends the parse.
pub open spec fn parse_from(cfg: Config, args: Seq<AttrArg>) -> Result<Config, ConfigError>
    decreases args.len(),
{
    if args.len() == 0 {
        Ok(cfg)
    } else {
        match apply_arg(cfg, args[0]) {
            Ok(c) => parse_from(c, args.drop_first()),
            Err(e) => Err(e),
        }
    }
}

/// The default configuration: no wait and no jitter.
pub open spec fn default_config() -> Config {
    Config { seconds: Seconds::Int(0), jitter: false }
}

/// What a whole argument list configures.
pub open spec fn parse_spec(args: Seq<AttrArg>) -> Result<Config, ConfigError> {
    parse_from(default_config(), args)
}

/// The identifier of a path, where it is a single plain identifier.
pub fn get_ident(p: &AttrPath) -> (r: Option<String>)
    ensures
        r == path_ident(*p),
{
    if !p.leading_colon && p.segments.len() == 1 && !p.segments[0].has_arguments {
        Some(p.segments[0].ident.clone())
    } else {
        None
    }
}

/// The option that a key, already in lower case, names.
pub fn recognize_option(lowered: &str) -> (r: Option<WaitOption>)
    ensures
        r == option_named(lowered@),
{
    let s = String::from_str(lowered);
    if s == String::from_str("seconds") {
        Some(WaitOption::Seconds)
    } else if s == String::from_str("jitter") {
        Some(WaitOption::Jitter)
    } else {
        None
    }
}

/// Sets `option` from the literal `lit`; on an error `config` is left as it was.
pub fn apply_option(option: WaitOption, lit: &Lit, config: &mut Config) -> (r: Result<(), ConfigError>)
    ensures
        match set_option(*old(config), option, *lit) {
            Ok(c) => r is Ok && *final(config) == c,
            Err(e) => r == Err::<(), ConfigError>(e) && *final(config) == *old(config),
        },
{
    match option {
        WaitOption::Seconds => match lit {
            Lit::Int(d) => match parse_decimal_u64(d.as_str()) {
                Some(v) => {
                    config.seconds = Seconds::Int(v);
                    Ok(())
                },
                None => Err(ConfigError::OutOfRange(d.clone())),
            },
            Lit::Float(f) => {
                config.seconds = Seconds::Float(f.clone());
                Ok(())
            },
            _ => Err(ConfigError::TypeMismatch(Expected::Integer)),
        },
        WaitOption::Jitter => match lit {
            Lit::Bool(b) => {
                config.jitter = *b;
                Ok(())
            },
            _ => Err(ConfigError::TypeMismatch(Expected::Boolean)),
        },
    }
}

/// Applies one `key = literal` argument to `config`, the key compared in lower
/// case; on an error `config` is left as it was.
pub fn parse_namevalue(path: &AttrPath, lit: &Lit, config: &mut Config) -> (r: Result<(), ConfigError>)
    ensures
        match apply_name_value(*old(config), *path, *lit) {
            Ok(c) => r is Ok && *final(config) == c,
            Err(e) => r == Err::<(), ConfigError>(e) && *final(config) == *old(config),
        },
{
    let id = match get_ident(path) {
        None => {
            return Err(ConfigError::MissingIdent);
        },
        Some(id) => id,
    };
    let name = lowercase(id.as_str());
    match recognize_option(name.as_str()) {
        Some(option) => apply_option(option, lit, config),
        None => Err(ConfigError::UnknownOption(Transform::WaitFor, id)),
    }
}

/// Applies one bare-word argument to `config`, which must be exactly `jitter`;
/// on an error `config` is left as it was.
pub fn parse_path(path: &AttrPath, config: &mut Config) -> (r: Result<(), ConfigError>)
    ensures
        match apply_path(*old(config), *path) {
            Ok(c) => r is Ok && *final(config) == c,
            Err(e) => r == Err::<(), ConfigError>(e) && *final(config) == *old(config),
        },
{
    let id = match get_ident(path) {
        None => {
            return Err(ConfigError::MissingIdent);
        },
        Some(id) => id,
    };
    if id == String::from_str("jitter") {
        config.jitter = true;
        Ok(())
    } else {
        Err(ConfigError::UnrecognizedIdent(id))
    }
}

/// Whether `c` is an ASCII decimal digit.
pub open spec fn is_digit(c: char) -> bool {
    '0' <= c <= '9'
}

/// The value of a sequence of decimal digits, most significant first.
pub open spec fn digits_value(s: Seq<char>) -> nat
    decreases s.len(),
{
    if s.len() == 0 {
        0
    } else {
        10 * digits_value(s.drop_last()) + (s.last() as nat - '0' as nat) as nat
    }
}

/// The `u64` that a decimal literal's digits denote, if they are digits and it fits.
pub open spec fn decimal_u64(s: Seq<char>) -> Option<u64> {
    if s.len() > 0 && (forall|i: int| 0 <= i < s.len() ==> is_digit(#[trigger] s[i]))
        && digits_value(s) <= u64::MAX {
        Some(digits_value(s) as u64)
    } else {
        None
    }
}

/// Reads the decimal digits of an integer literal as a `u64`; `None` where the
/// text is empty, holds another character, or denotes a value over `u64::MAX`.
pub fn parse_decimal_u64(s: &str) -> (r: Option<u64>)
    ensures
        r == decimal_u64(s@),
{
    let n = s.unicode_len();
    if n == 0 {
        return None;
    }
    let mut acc: u64 = 0;
    let mut i: usize = 0;
    while i < n
        invariant
            n == s@.len(),
            0 <= i <= n,
            forall|j: int| 0 <= j < i ==> is_digit(#[trigger] s@[j]),
            acc as nat == digits_value(s@.subrange(0, i as int)),
        decreases n - i,
    {
        let c = s.get_char(i);
        if !('0' <= c && c <= '9') {
            assert(!is_digit(s@[i as int]));
            return None;
        }
        let d: u64 = (c as u32 - '0' as u32) as u64;
        assert(s@.subrange(0, i as int + 1).drop_last() =~= s@.subrange(0, i as int));
        if acc > (u64::MAX - d) / 10 {
            proof {
                assert(digits_value(s@.subrange(0, i as int + 1)) > u64::MAX) by (nonlinear_arith)
                    requires
                        acc > (u64::MAX - d) / 10,
                        digits_value(s@.subrange(0, i as int + 1)) == 10 * acc + d,
                ;
                if forall|j: int| 0 <= j < s@.len() ==> is_digit(#[trigger] s@[j]) {
                    lemma_prefix_bound(s@, i as int + 1);
                }
                assert(s@.subrange(0, n as int) =~= s@);
            }
            return None;
        }
        acc = acc * 10 + d;
        i = i + 1;
    }
    assert(s@.subrange(0, n as int) =~= s@);
    Some(acc)
}

/// A digit string's value is at least that of each of its prefixes.
proof fn lemma_prefix_bound(s: Seq<char>, k: int)
    requires
        0 <= k <= s.len(),
        forall|j: int| 0 <= j < s.len() ==> is_digit(#[trigger] s[j]),
    ensures
        digits_value(s.subrange(0, k)) <= digits_value(s),
    decreases s.len() - k,
{
    if k < s.len() {
        lemma_prefix_bound(s, k + 1);
        assert(s.subrange(0, k + 1).drop_last() =~= s.subrange(0, k));
    }
    assert(s.subrange(0, s.len() as int) =~= s);
}


/// Parses the wait transform's arguments in order, starting from the default
/// configuration; the first argument that is refused decides the error.
pub fn parse_args(args: &Vec<AttrArg>) -> (r: Result<Config, ConfigError>)
    ensures
        r == parse_spec(args@),
{
    let mut config = Config::default();
    let mut i: usize = 0;
    assert(args@.subrange(0, args@.len() as int) =~= args@);
    while i < args.len()
        invariant
            0 <= i <= args@.len(),
            parse_spec(args@) == parse_from(config, args@.subrange(i as int, args@.len() as int)),
        decreases args@.len() - i,
    {
        let ghost rest = args@.subrange(i as int, args@.len() as int);
        assert(rest.drop_first() =~= args@.subrange(i as int + 1, args@.len() as int));
        let res = match &args[i] {
            AttrArg::NameValue(path, lit) => parse_namevalue(path, lit, &mut config),
            AttrArg::Path(path) => parse_path(path, &mut config),
            AttrArg::Other(text) => Err(ConfigError::Unparseable(text.clone())),
        };
        if let Err(e) = res {
            return Err(e);
        }
        i = i + 1;
    }
    assert(args@.subrange(args@.len() as int, args@.len() as int) =~= Seq::<AttrArg>::empty());
    Ok(config)
}


/// The diagnostic text of an error.
pub open spec fn error_message(e: ConfigError) -> Seq<char> {
    match e {
        ConfigError::MissingIdent => "Must have specified ident"@,
        ConfigError::UnrecognizedIdent(n) => "Unable to understand the ident "@ + n@
            + "; expected: `jitter`"@,
        ConfigError::UnknownOption(Transform::WaitFor, n) => "Unknown attribute "@ + n@
            + " is specified; expected one of: `jitter`, `seconds`"@,
        ConfigError::UnknownOption(Transform::Retry, n) => "Unknown attribute "@ + n@
            + " is specified; expected: `times`"@,
        ConfigError::TypeMismatch(Expected::Integer) => "You must provide an integer or float value!"@,
        ConfigError::TypeMismatch(Expected::Boolean) => "You must provide a boolean value!"@,
        ConfigError::Unparseable(t) => "Unable to parse "@ + t@,
        ConfigError::OutOfRange(d) => "Should be a valid u64 value: "@ + d@,
        ConfigError::AsyncUnsupported => "Unable to retry async funcs yet!"@,
        ConfigError::MissingReturnType => "You must specify a function with a Result!"@,
        ConfigError::MalformedTimes => "Expected a single argument `times = <integer>`"@,
    }
}

impl ConfigError {
    /// The diagnostic text shown where the transformation was refused.
    pub fn message(&self) -> (r: String)
        ensures
            r@ == error_message(*self),
    {
        match self {
            ConfigError::MissingIdent => String::from_str("Must have specified ident"),
            ConfigError::UnrecognizedIdent(n) => String::from_str("Unable to understand the ident ").concat(
                n.as_str(),
            ).concat("; expected: `jitter`"),
            ConfigError::UnknownOption(Transform::WaitFor, n) => String::from_str("Unknown attribute ").concat(
                n.as_str(),
            ).concat(" is specified; expected one of: `jitter`, `seconds`"),
            ConfigError::UnknownOption(Transform::Retry, n) => String::from_str("Unknown attribute ").concat(
                n.as_str(),
            ).concat(" is specified; expected: `times`"),
            ConfigError::TypeMismatch(Expected::Integer) => String::from_str("You must provide an integer or float value!"),
            ConfigError::TypeMismatch(Expected::Boolean) => String::from_str("You must provide a boolean value!"),
            ConfigError::Unparseable(t) => String::from_str("Unable to parse ").concat(t.as_str()),
            ConfigError::OutOfRange(d) => String::from_str("Should be a valid u64 value: ").concat(d.as_str()),
            ConfigError::AsyncUnsupported => String::from_str("Unable to retry async funcs yet!"),
            ConfigError::MissingReturnType => String::from_str("You must specify a function with a Result!"),
            ConfigError::MalformedTimes => String::from_str("Expected a single argument `times = <integer>`"),
        }
    }
}

} // verus!
