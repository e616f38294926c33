use anyhow_tauri::demo::{
    function_that_succeeds, function_that_throws, test_anyhow_success, test_bail,
    test_ensure, test_pure_err_conversion, test_throw,
};
use anyhow_tauri::{
    bail, bail_error, ensure, ensure_or, ensure_or_error, ErrorMode, IntoEmptyTAResult,
    IntoTAResult, TACommandError, TAResult, BUILD_MODE,
};

fn chained(messages: &[&str]) -> anyhow::Error {
    let mut iter = messages.iter().rev();
    let mut e = anyhow::Error::msg(iter.next().unwrap().to_string());
    for m in iter {
        e = e.context(m.to_string());
    }
    e
}

fn err_text<T>(r: TAResult<T>) -> String {
    match r {
        Ok(_) => panic!("expected a failure"),
        Err(e) => e.to_string(),
    }
}

#[test]
fn verbose_serialize_renders_whole_chain() {
    let e = TACommandError(chained(&["outer", "middle", "inner"]));
    assert_eq!(e.serialize_in(ErrorMode::Verbose), "outer: middle: inner");
    assert_eq!(e.to_string_in(ErrorMode::Verbose), "outer: middle: inner");
}

#[test]
fn redacted_serialize_is_fixed_placeholder() {
    let e = TACommandError(chained(&["secret outer", "secret inner"]));
    assert_eq!(
        e.serialize_in(ErrorMode::Redacted),
        "errors disabled in production."
    );
    let f = TACommandError(anyhow::Error::msg("other"));
    assert_eq!(
        f.serialize_in(ErrorMode::Redacted),
        "errors disabled in production."
    );
}

#[test]
fn redacted_display_shows_outer_message_only() {
    let e = TACommandError(chained(&["outer", "inner"]));
    assert_eq!(e.to_string_in(ErrorMode::Redacted), "outer");
}

#[test]
fn build_mode_is_verbose() {
    assert_eq!(BUILD_MODE, ErrorMode::Verbose);
    let e = TACommandError(chained(&["a", "b"]));
    assert_eq!(e.serialize(), "a: b");
    assert_eq!(e.to_string(), "a: b");
}

#[test]
fn from_wraps_error() {
    let e = TACommandError::from(anyhow::Error::msg("wrapped"));
    assert_eq!(e.serialize(), "wrapped");
}

#[test]
fn success_passes_through_unchanged() {
    let r: TAResult<i32> = Ok::<i32, anyhow::Error>(5).into_ta_result();
    assert!(matches!(r, Ok(5)));
    let s: TAResult<String> = Ok::<String, std::num::ParseIntError>("v".to_string()).into_ta_result();
    assert_eq!(s.unwrap(), "v");
}

#[test]
fn failure_keeps_anyhow_message() {
    let r: TAResult<i32> = Err::<i32, anyhow::Error>(chained(&["top", "cause"])).into_ta_result();
    assert_eq!(err_text(r), "top: cause");
}

#[test]
fn failure_keeps_std_error_message() {
    let parse_err = "abc".parse::<i32>().unwrap_err();
    let expected = parse_err.to_string();
    let r: TAResult<i32> = Err(parse_err).into_ta_result();
    assert_eq!(err_text(r), expected);
}

#[test]
fn raw_error_becomes_failure() {
    let r: TAResult<String> = anyhow::Error::msg("raw").into_ta_result();
    assert_eq!(err_text(r), "raw");
    let empty: TAResult<()> = anyhow::Error::msg("empty").into_ta_empty_result();
    assert_eq!(err_text(empty), "empty");
}

fn command_with_bail(input: i32, ran: &mut bool) -> TAResult<String> {
    if input < 0 {
        return bail("X");
    }
    *ran = true;
    Ok("done".to_string())
}

#[test]
fn bail_returns_at_once() {
    let mut ran = false;
    let r = command_with_bail(-1, &mut ran);
    assert!(!ran);
    let text = match r {
        Err(e) => e.serialize_in(ErrorMode::Verbose),
        Ok(_) => panic!("expected a failure"),
    };
    assert!(text.contains("X"));
    assert_eq!(text, "X");
    let mut ran2 = false;
    assert_eq!(command_with_bail(1, &mut ran2).unwrap(), "done");
    assert!(ran2);
}

#[test]
fn bail_with_formatted_message() {
    let r: TAResult<()> = bail(&format!("value {} out of range", 7));
    assert_eq!(err_text(r), "value 7 out of range");
}

#[test]
fn bail_error_keeps_error_message() {
    let parse_err = "x1".parse::<u8>().unwrap_err();
    let expected = parse_err.to_string();
    let r: TAResult<u8> = bail_error(parse_err);
    assert_eq!(err_text(r), expected);
    let r2: TAResult<u8> = bail_error(chained(&["c", "d"]));
    assert_eq!(err_text(r2), "c: d");
}

fn command_with_ensure(ran: &mut bool) -> TAResult<String> {
    ensure(1 == 2, "1 == 2")?;
    *ran = true;
    Ok("this should never trigger".to_owned())
}

#[test]
fn ensure_false_names_condition() {
    let mut ran = false;
    let r = command_with_ensure(&mut ran);
    assert!(!ran);
    let text = err_text(r);
    assert!(text.contains("1 == 2"));
    assert_eq!(text, "Condition failed: `1 == 2`");
}

#[test]
fn ensure_true_continues() {
    let r = ensure(1 == 1, "1 == 1");
    assert!(matches!(r, Ok(())));
}

#[test]
fn ensure_or_uses_message() {
    assert_eq!(err_text(ensure_or(false, "custom message")), "custom message");
    assert!(ensure_or(true, "custom message").is_ok());
    let n = 3;
    assert_eq!(
        err_text(ensure_or(n > 5, &format!("{} is too small", n))),
        "3 is too small"
    );
}

#[test]
fn ensure_or_error_uses_error() {
    let parse_err = "q".parse::<i64>().unwrap_err();
    let expected = parse_err.to_string();
    assert_eq!(err_text(ensure_or_error(false, parse_err)), expected);
    assert!(ensure_or_error(true, anyhow::Error::msg("unused")).is_ok());
}

#[test]
fn deep_chain_renders_without_panic() {
    let mut e = anyhow::Error::msg("level 0");
    for i in 1..1000 {
        e = e.context(format!("level {}", i));
    }
    let b = TACommandError(e);
    let text = b.serialize_in(ErrorMode::Verbose);
    assert!(text.starts_with("level 999: level 998"));
    assert!(text.ends_with("level 1: level 0"));
    assert_eq!(text.matches(": ").count(), 999);
    assert_eq!(b.to_string_in(ErrorMode::Redacted), "level 999");
    assert_eq!(
        b.serialize_in(ErrorMode::Redacted),
        "errors disabled in production."
    );
}

#[test]
fn throwing_operation_surfaces_message() {
    let r = test_throw();
    assert_eq!(err_text(r), "Simulating a possible throw");
    let direct: TAResult<()> = function_that_throws().into_ta_result();
    assert_eq!(err_text(direct), "Simulating a possible throw");
}

#[test]
fn demo_commands() {
    assert_eq!(anyhow_tauri::demo::test().unwrap(), "No error thrown.");
    assert_eq!(test_anyhow_success().unwrap(), "this function succeeds");
    assert_eq!(function_that_succeeds().unwrap(), "this function succeeds");
    assert_eq!(
        err_text(test_pure_err_conversion()),
        "Showcase of the .into_ta_result()"
    );
    assert_eq!(err_text(test_bail()), "Showcase of the .bail!()");
    assert_eq!(err_text(test_ensure()), "Condition failed: `1 == 2`");
}
