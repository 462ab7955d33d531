use wapp::env::EnvVars;

#[test]
fn unset_variable_is_absent() {
    let env = EnvVars::new();
    assert_eq!(env.get("WEATHERAPI_KEY"), None);
}

#[test]
fn latest_setting_wins() {
    let mut env = EnvVars::new();
    env.set("A".into(), "1".into());
    env.set("B".into(), "2".into());
    env.set("A".into(), "3".into());
    assert_eq!(env.get("A").as_deref(), Some("3"));
    assert_eq!(env.get("B").as_deref(), Some("2"));
    assert_eq!(env.get("C"), None);
}
