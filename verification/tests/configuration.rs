use ecosystem::configuration::Environment;

#[test]
fn environment_names() {
    assert_eq!(Environment::Local.as_str(), "local");
    assert_eq!(Environment::Production.as_str(), "production");
}

#[test]
fn environment_parses_its_own_name() {
    for e in [Environment::Local, Environment::Production] {
        assert_eq!(Environment::try_from(e.as_str().to_string()), Ok(e));
        assert_eq!(Environment::parse_lowercase(e.as_str().to_string()), Ok(e));
    }
}

#[test]
fn environment_is_case_insensitive() {
    assert_eq!(Environment::try_from("LOCAL".to_string()), Ok(Environment::Local));
    assert_eq!(Environment::try_from("Production".to_string()), Ok(Environment::Production));
    assert_eq!(Environment::try_from("pRoDuCtIoN".to_string()), Ok(Environment::Production));
}

#[test]
fn unknown_environment_is_refused_with_its_lowercase_name() {
    assert_eq!(
        Environment::try_from("Staging".to_string()),
        Err("staging is not a supported environment. Use either `local` or `production`.".to_string())
    );
    assert_eq!(
        Environment::try_from(String::new()),
        Err(" is not a supported environment. Use either `local` or `production`.".to_string())
    );
}

#[test]
fn parse_lowercase_does_not_lowercase() {
    assert_eq!(
        Environment::parse_lowercase("LOCAL".to_string()),
        Err("LOCAL is not a supported environment. Use either `local` or `production`.".to_string())
    );
    assert_eq!(Environment::parse_lowercase("local".to_string()), Ok(Environment::Local));
}

#[test]
fn environment_defaults_to_local() {
    assert_eq!(Environment::select(None), Ok(Environment::Local));
    assert_eq!(Environment::select(Some("PRODUCTION".to_string())), Ok(Environment::Production));
    assert_eq!(
        Environment::select(Some("test".to_string())),
        Err("test is not a supported environment. Use either `local` or `production`.".to_string())
    );
}

#[test]
fn strings_convert_into_environments() {
    let e: Result<Environment, String> = "Local".to_string().try_into();
    assert_eq!(e, Ok(Environment::Local));
    let e: Result<Environment, String> = "nowhere".to_string().try_into();
    assert_eq!(e, Err("nowhere is not a supported environment. Use either `local` or `production`.".to_string()));
}
