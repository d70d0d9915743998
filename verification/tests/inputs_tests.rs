use repo_compliance::inputs::{
    gather_inputs, BoolReadError, EnvReadError, InputReader, InputValue, RawInputs,
};

fn all_ok() -> RawInputs {
    RawInputs {
        repository_owner: Ok("octo".to_owned()),
        repository: Ok("octo/repo".to_owned()),
        sha: Ok("abc123".to_owned()),
        token: Ok("tok-one".to_owned()),
        access_token: Ok("tok-one".to_owned()),
        step_summary_path: Ok("summary.md".to_owned()),
        check_dependabot: Ok(true),
        check_yellr: Ok(false),
        check_bundler_audit: Ok(true),
        check_default_branch_protected: Ok(true),
    }
}

#[test]
fn input_value_accessors_are_fallible_not_fatal() {
    let s = InputValue::Str("hello".to_owned());
    assert_eq!(s.as_str().map(|v| v.as_str()), Some("hello"));
    assert_eq!(s.as_bool(), None);

    let b = InputValue::Boolean(true);
    assert_eq!(b.as_bool(), Some(true));
    assert!(b.as_str().is_none());
}

#[test]
fn reader_records_and_returns_values() {
    let mut reader = InputReader::new();
    reader.record_str_env("HOMEWORLD", Ok("kashyyyk".to_owned()));
    reader.record_bool_input("VERBOSE", Ok(true));
    reader.record_str_input("NICKNAME", Ok("chewie".to_owned()));
    assert!(reader.failures.is_empty());
    assert_eq!(reader.get_str_env("HOMEWORLD").map(|v| v.as_str()), Some("kashyyyk"));
    assert_eq!(reader.get_bool_input("VERBOSE"), Some(true));
    assert_eq!(reader.get_str_input("NICKNAME").map(|v| v.as_str()), Some("chewie"));
    // an unknown key yields nothing
    assert!(reader.get_str_env("MISSING").is_none());
    assert!(reader.get_bool_input("MISSING").is_none());
    // a key read the wrong way yields nothing
    assert!(reader.get_bool_input("NICKNAME").is_none());
}

#[test]
fn latest_recording_wins() {
    let mut reader = InputReader::new();
    reader.record_str_env("KEY", Ok("first".to_owned()));
    reader.record_str_env("KEY", Ok("second".to_owned()));
    assert_eq!(reader.get_str_env("KEY").map(|v| v.as_str()), Some("second"));
}

#[test]
fn reader_collects_failure_messages() {
    let mut reader = InputReader::new();
    reader.record_str_env("GITHUB_SHA", Err(EnvReadError::NotPresent));
    reader.record_str_input("ACCESS_TOKEN", Err(EnvReadError::NotUnicode));
    reader.record_bool_input("CHECK_YELLR", Err(BoolReadError::TypeError));
    assert_eq!(
        reader.failures,
        vec![
            "GITHUB_SHA was not provided.".to_owned(),
            "ACCESS_TOKEN was not properly encoded as an input.".to_owned(),
            "CHECK_YELLR was provided as an input, but could not be converted to a boolean value."
                .to_owned(),
        ]
    );
}

#[test]
fn gather_accepts_a_complete_configuration() {
    let inputs = gather_inputs(all_ok()).expect("all values present");
    assert_eq!(inputs.repository_owner, "octo");
    assert_eq!(inputs.repository, "octo/repo");
    assert_eq!(inputs.sha, "abc123");
    assert_eq!(inputs.step_summary_path, "summary.md");
    assert!(inputs.check_dependabot);
    assert!(!inputs.check_yellr);
    assert!(inputs.check_bundler_audit);
    assert!(inputs.check_default_branch_protected);
}

#[test]
fn gather_reports_every_missing_value_in_reading_order() {
    let mut raw = all_ok();
    raw.sha = Err(EnvReadError::NotPresent);
    raw.check_dependabot = Err(BoolReadError::NotPresent);
    let msgs = gather_inputs(raw).expect_err("two values are missing");
    assert_eq!(
        msgs,
        vec![
            "GITHUB_SHA was not provided.".to_owned(),
            "CHECK_DEPENDABOT was not provided as an input.".to_owned(),
        ]
    );
}

#[test]
fn gather_distinguishes_encoding_failures() {
    let mut raw = all_ok();
    raw.token = Err(EnvReadError::NotUnicode);
    let msgs = gather_inputs(raw).expect_err("the token is unreadable");
    assert_eq!(msgs, vec!["GITHUB_TOKEN was not properly encoded.".to_owned()]);
}
