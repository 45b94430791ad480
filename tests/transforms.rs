use everyday_macros::config::{
    apply_option, get_ident, parse_args, recognize_option, WaitOption, parse_decimal_u64, AttrArg, AttrPath, Config, ConfigError, Expected, Lit,
    PathSegment, Seconds, Transform,
};
use everyday_macros::runtime::{jittered_secs, RetryBudget};
use everyday_macros::synth::{
    get_sleep_duration, is_zero_float, jittered, Body, DurationExpr, FnItem, Signature, Stmt, TimesArg,
};
use everyday_macros::{retry, wait_for};

fn path(name: &str) -> AttrPath {
    AttrPath {
        leading_colon: false,
        segments: vec![PathSegment { ident: name.to_string(), has_arguments: false }],
    }
}

fn word(name: &str) -> AttrArg {
    AttrArg::Path(path(name))
}

fn pair(name: &str, lit: Lit) -> AttrArg {
    AttrArg::NameValue(path(name), lit)
}

fn int_lit(d: &str) -> Lit {
    Lit::Int(d.to_string())
}

fn item(is_async: bool, has_return_type: bool) -> FnItem {
    FnItem {
        attrs: vec!["#[inline]".to_string(), "#[doc = \"x\"]".to_string()],
        vis: "pub (crate)".to_string(),
        sig: Signature { text: "fn f () -> Result < u8 , () >".to_string(), is_async, has_return_type },
        body: vec![Stmt::Source("let a = 1 ;".to_string()), Stmt::Source("Ok (a)".to_string())],
    }
}

fn times(key: &str, digits: &str) -> Option<TimesArg> {
    Some(TimesArg { key: key.to_string(), digits: digits.to_string() })
}

#[test]
fn no_arguments_give_the_default() {
    assert_eq!(parse_args(&vec![]), Ok(Config::default()));
    assert_eq!(Config::default(), Config { seconds: Seconds::Int(0), jitter: false });
}

#[test]
fn seconds_and_bare_jitter() {
    let r = parse_args(&vec![pair("seconds", int_lit("10")), word("jitter")]);
    assert_eq!(r, Ok(Config { seconds: Seconds::Int(10), jitter: true }));
}

#[test]
fn keys_compare_in_lower_case() {
    let r = parse_args(&vec![pair("SECONDS", int_lit("3")), pair("Jitter", Lit::Bool(true))]);
    assert_eq!(r, Ok(Config { seconds: Seconds::Int(3), jitter: true }));
}

#[test]
fn float_seconds_and_boolean_jitter() {
    let r = parse_args(&vec![pair("seconds", Lit::Float("3.5".to_string())), pair("jitter", Lit::Bool(true))]);
    assert_eq!(r, Ok(Config { seconds: Seconds::Float("3.5".to_string()), jitter: true }));
    let r = parse_args(&vec![word("jitter"), pair("jitter", Lit::Bool(false))]);
    assert_eq!(r, Ok(Config { seconds: Seconds::Int(0), jitter: false }));
}

#[test]
fn string_seconds_is_a_type_mismatch() {
    let r = parse_args(&vec![pair("seconds", Lit::Str("x".to_string()))]);
    assert_eq!(r, Err(ConfigError::TypeMismatch(Expected::Integer)));
}

#[test]
fn unknown_bare_word_is_named() {
    assert_eq!(parse_args(&vec![word("bogus")]), Err(ConfigError::UnrecognizedIdent("bogus".to_string())));
}

#[test]
fn jitter_needs_a_boolean() {
    let r = parse_args(&vec![pair("jitter", int_lit("1"))]);
    assert_eq!(r, Err(ConfigError::TypeMismatch(Expected::Boolean)));
}

#[test]
fn unknown_key_is_named() {
    let r = parse_args(&vec![pair("foo", int_lit("1"))]);
    assert_eq!(r, Err(ConfigError::UnknownOption(Transform::WaitFor, "foo".to_string())));
}

#[test]
fn paths_that_are_no_identifier() {
    let two = AttrPath {
        leading_colon: false,
        segments: vec![
            PathSegment { ident: "a".to_string(), has_arguments: false },
            PathSegment { ident: "seconds".to_string(), has_arguments: false },
        ],
    };
    let rooted = AttrPath { leading_colon: true, ..path("jitter") };
    assert_eq!(get_ident(&two), None);
    assert_eq!(get_ident(&rooted), None);
    assert_eq!(get_ident(&path("jitter")), Some("jitter".to_string()));
    assert_eq!(parse_args(&vec![AttrArg::NameValue(two, int_lit("1"))]), Err(ConfigError::MissingIdent));
    assert_eq!(parse_args(&vec![AttrArg::Path(rooted)]), Err(ConfigError::MissingIdent));
}

#[test]
fn other_arguments_are_unparseable() {
    let r = parse_args(&vec![AttrArg::Other("list (a)".to_string())]);
    assert_eq!(r, Err(ConfigError::Unparseable("list (a)".to_string())));
}

#[test]
fn the_first_error_decides() {
    let r = parse_args(&vec![pair("seconds", int_lit("2")), word("bogus"), pair("seconds", Lit::Str("x".to_string()))]);
    assert_eq!(r, Err(ConfigError::UnrecognizedIdent("bogus".to_string())));
}

#[test]
fn largest_seconds_and_one_more() {
    let r = parse_args(&vec![pair("seconds", int_lit("18446744073709551615"))]);
    assert_eq!(r, Ok(Config { seconds: Seconds::Int(u64::MAX), jitter: false }));
    let r = parse_args(&vec![pair("seconds", int_lit("18446744073709551616"))]);
    assert_eq!(r, Err(ConfigError::OutOfRange("18446744073709551616".to_string())));
}

#[test]
fn decimal_digits() {
    assert_eq!(parse_decimal_u64("0"), Some(0));
    assert_eq!(parse_decimal_u64("0042"), Some(42));
    assert_eq!(parse_decimal_u64(""), None);
    assert_eq!(parse_decimal_u64("12a"), None);
    assert_eq!(parse_decimal_u64("99999999999999999999"), None);
}

#[test]
fn four_kinds_of_wait() {
    let c = |seconds, jitter| Config { seconds, jitter };
    assert_eq!(get_sleep_duration(c(Seconds::Int(4), false)), DurationExpr::Secs(4));
    assert_eq!(get_sleep_duration(c(Seconds::Int(4), true)), DurationExpr::JitteredSecs(4));
    let f = || Seconds::Float("0.5".to_string());
    assert_eq!(get_sleep_duration(c(f(), false)), DurationExpr::SecsF64("0.5".to_string()));
    assert_eq!(get_sleep_duration(c(f(), true)), DurationExpr::JitteredSecsF64("0.5".to_string()));
}

#[test]
fn prologue_blocks_or_suspends() {
    let c = Config { seconds: Seconds::Int(2), jitter: false };
    assert_eq!(jittered(c.clone(), false), vec![Stmt::LetDuration(DurationExpr::Secs(2)), Stmt::BlockThread]);
    assert_eq!(jittered(c, true), vec![Stmt::LetDuration(DurationExpr::Secs(2)), Stmt::SuspendTask]);
}

#[test]
fn wait_for_keeps_attributes_and_visibility() {
    let input = item(false, true);
    let out = wait_for(&vec![pair("seconds", int_lit("1"))], input.clone()).unwrap();
    assert_eq!(out.attrs, input.attrs);
    assert_eq!(out.vis, input.vis);
    assert_eq!(out.sig, input.sig);
    let mut expected = vec![Stmt::LetDuration(DurationExpr::Secs(1)), Stmt::BlockThread];
    expected.extend(input.body.clone());
    assert_eq!(out.body, Body::Stmts(expected));
}

#[test]
fn wait_for_on_async_suspends() {
    let input = item(true, true);
    let out = wait_for(&vec![pair("seconds", int_lit("1")), word("jitter")], input.clone()).unwrap();
    let mut expected = vec![Stmt::LetDuration(DurationExpr::JitteredSecs(1)), Stmt::SuspendTask];
    expected.extend(input.body);
    assert_eq!(out.body, Body::Stmts(expected));
}

#[test]
fn wait_for_refuses_bad_arguments() {
    assert_eq!(wait_for(&vec![word("bogus")], item(false, true)), Err(ConfigError::UnrecognizedIdent("bogus".to_string())));
}

#[test]
fn retry_keeps_attributes_and_visibility() {
    let input = item(false, true);
    let out = retry(times("times", "3"), input.clone()).unwrap();
    assert_eq!(out.attrs, input.attrs);
    assert_eq!(out.vis, input.vis);
    assert_eq!(out.sig, input.sig);
    assert_eq!(out.body, Body::RetryLoop { times: 3, block: input.body });
}

#[test]
fn retry_refuses_async_first() {
    assert_eq!(retry(times("times", "3"), item(true, true)), Err(ConfigError::AsyncUnsupported));
    assert_eq!(retry(None, item(true, false)), Err(ConfigError::AsyncUnsupported));
}

#[test]
fn retry_needs_a_return_type() {
    assert_eq!(retry(times("times", "3"), item(false, false)), Err(ConfigError::MissingReturnType));
}

#[test]
fn retry_argument_errors() {
    assert_eq!(retry(None, item(false, true)), Err(ConfigError::MalformedTimes));
    assert_eq!(
        retry(times("Times", "3"), item(false, true)),
        Err(ConfigError::UnknownOption(Transform::Retry, "Times".to_string()))
    );
    assert_eq!(
        retry(times("times", "18446744073709551616"), item(false, true)),
        Err(ConfigError::OutOfRange("18446744073709551616".to_string()))
    );
}

/// Runs a retry loop over scripted outcomes; returns the number of attempts and
/// the outcome returned.
fn run_script(times: u64, outcomes: &[bool]) -> (usize, bool) {
    let mut budget = RetryBudget::new(times);
    let mut calls = 0;
    loop {
        let ok = outcomes[calls];
        calls += 1;
        if !budget.retry_after(ok) {
            return (calls, ok);
        }
    }
}

#[test]
fn always_failing_makes_times_plus_one_attempts() {
    assert_eq!(run_script(0, &[false; 5]), (1, false));
    assert_eq!(run_script(4, &[false; 10]), (5, false));
}

#[test]
fn stops_at_the_first_success() {
    assert_eq!(run_script(3, &[true, false]), (1, true));
    assert_eq!(run_script(3, &[false, false, true, false]), (3, true));
    assert_eq!(run_script(3, &[false, false, false, true]), (4, true));
    assert_eq!(run_script(2, &[false, false, false, true]), (3, false));
}

#[test]
fn budget_counts_down() {
    let mut b = RetryBudget::new(1);
    assert!(b.retry_after(false));
    assert_eq!(b.remaining, 0);
    assert!(!b.retry_after(false));
    let mut b = RetryBudget::new(1);
    assert!(!b.retry_after(true));
    assert_eq!(b.remaining, 1);
}

#[test]
fn jittered_waits_stay_below_the_bound_and_vary() {
    let draws: Vec<u64> = (0..200).map(|_| jittered_secs(5)).collect();
    assert!(draws.iter().all(|d| *d < 5));
    assert!(draws.iter().any(|d| *d != draws[0]));
    assert_eq!(jittered_secs(0), 0);
    assert_eq!(jittered_secs(1), 0);
}

#[test]
fn error_messages() {
    assert_eq!(ConfigError::MissingIdent.message(), "Must have specified ident");
    assert_eq!(ConfigError::UnrecognizedIdent("bogus".to_string()).message(), "Unable to understand the ident bogus; expected: `jitter`");
    assert_eq!(
        ConfigError::UnknownOption(Transform::WaitFor, "foo".to_string()).message(),
        "Unknown attribute foo is specified; expected one of: `jitter`, `seconds`"
    );
    assert_eq!(
        ConfigError::UnknownOption(Transform::Retry, "Times".to_string()).message(),
        "Unknown attribute Times is specified; expected: `times`"
    );
    assert_eq!(ConfigError::TypeMismatch(Expected::Boolean).message(), "You must provide a boolean value!");
    assert_eq!(ConfigError::AsyncUnsupported.message(), "Unable to retry async funcs yet!");
    assert_eq!(ConfigError::OutOfRange("9".to_string()).message(), "Should be a valid u64 value: 9");
}

#[test]
fn options_by_lower_case_name() {
    assert_eq!(recognize_option("seconds"), Some(WaitOption::Seconds));
    assert_eq!(recognize_option("jitter"), Some(WaitOption::Jitter));
    assert_eq!(recognize_option("SECONDS"), None);
    assert_eq!(recognize_option("times"), None);
    assert_eq!(recognize_option(""), None);
}

#[test]
fn setting_one_option() {
    let mut c = Config::default();
    assert_eq!(apply_option(WaitOption::Seconds, &int_lit("7"), &mut c), Ok(()));
    assert_eq!(c, Config { seconds: Seconds::Int(7), jitter: false });
    assert_eq!(apply_option(WaitOption::Jitter, &int_lit("7"), &mut c), Err(ConfigError::TypeMismatch(Expected::Boolean)));
    assert_eq!(c, Config { seconds: Seconds::Int(7), jitter: false });
    assert_eq!(apply_option(WaitOption::Jitter, &Lit::Bool(true), &mut c), Ok(()));
    assert_eq!(c, Config { seconds: Seconds::Int(7), jitter: true });
    assert_eq!(
        apply_option(WaitOption::Seconds, &Lit::Other("'c'".to_string()), &mut c),
        Err(ConfigError::TypeMismatch(Expected::Integer))
    );
}

#[test]
fn zero_float_bounds() {
    assert!(is_zero_float("0.0"));
    assert!(is_zero_float("00.000e7"));
    assert!(!is_zero_float("0.5"));
    assert!(!is_zero_float("1e0"));
    let c = Config { seconds: Seconds::Float("0.0".to_string()), jitter: true };
    assert_eq!(get_sleep_duration(c), DurationExpr::SecsF64("0.0".to_string()));
}

#[test]
fn zero_integer_bound_with_jitter() {
    let c = Config { seconds: Seconds::Int(0), jitter: true };
    assert_eq!(get_sleep_duration(c), DurationExpr::Secs(0));
}

#[test]
fn bare_jitter_is_exact() {
    assert_eq!(parse_args(&vec![word("Jitter")]), Err(ConfigError::UnrecognizedIdent("Jitter".to_string())));
    assert_eq!(parse_args(&vec![word("JITTER")]), Err(ConfigError::UnrecognizedIdent("JITTER".to_string())));
}
