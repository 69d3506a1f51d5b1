use tunnel::util::{Script, Service};

#[test]
fn the_lenient_role_is_some_or_none() {
    assert_eq!(Service::from_str("--host"), Some(Service::Host));
    assert_eq!(Service::from_str("--connect"), Some(Service::Client));
    assert_eq!(Service::from_str("--serve"), None);
    assert_eq!(Service::from_str(""), None);
    assert_eq!(Service::from_str("--host "), None);
}

#[test]
fn a_script_runs_its_task_and_hands_back_the_result() {
    let ok = Script::new(|| -> Result<(), String> { Ok(()) });
    assert_eq!(ok.run(), Ok(()));
    let failing = Script::new(|| -> Result<(), String> { Err("no route".to_string()) });
    assert_eq!(failing.run(), Err("no route".to_string()));
}

#[test]
fn a_script_does_nothing_until_it_is_run() {
    let mut ran = false;
    let script = Script::new(|| -> Result<(), ()> {
        ran = true;
        Ok(())
    });
    let _ = script.run();
    assert!(ran);
}

fn plain_args(list: &[&str]) -> Vec<String> {
    list.iter().map(|s| s.to_string()).collect()
}

fn plain_port(s: &str) -> Option<u16> {
    s.parse::<u16>().ok()
}

#[test]
fn plain_arguments_are_taken() {
    let config = tunnel::util::Config::from_args(
        &plain_args(&["tunnel", "--host", "8080", "  alice ", " hunter2 "]),
        plain_port,
    )
    .unwrap();
    assert_eq!(config.service(), Service::Host);
    assert_eq!(*config.address(), 8080);
    assert_eq!(config.username(), "alice");
    // The password is hashed as it stands, blanks included.
    assert_eq!(
        config.password(),
        "ece7058f971de7001290f93a504246c662cbb6d2a0d17b15982a77327bbec49f"
    );
    let client = tunnel::util::Config::from_args(
        &plain_args(&["tunnel", "--connect", "1", "bob", "hunter2"]),
        plain_port,
    )
    .unwrap();
    assert_eq!(client.service(), Service::Client);
    assert_eq!(
        client.password(),
        "f8266655a899da70850a108dc3bd54e6d738a3c2bdc39bdd616139452b4b360a"
    );
}

#[test]
fn plain_arguments_are_not_taken_when_one_is_bad() {
    let take = |list: &[&str]| tunnel::util::Config::from_args(&plain_args(list), plain_port);
    assert!(take(&[]).is_none());
    assert!(take(&["tunnel", "--host", "8080", "alice"]).is_none());
    assert!(take(&["tunnel", "--host", "8080", "alice", "pw", "more"]).is_none());
    assert!(take(&["tunnel", " --host", "8080", "alice", "pw"]).is_none());
    assert!(take(&["tunnel", "--host", " 8080", "alice", "pw"]).is_none());
    assert!(take(&["tunnel", "--host", "8080", "   ", "pw"]).is_none());
    assert!(take(&["tunnel", "--host", "8080", &"a".repeat(64), "pw"]).is_none());
    assert!(take(&["tunnel", "--host", "8080", &"a".repeat(63), "pw"]).is_some());
    assert!(take(&["tunnel", "--host", "8080", "alice", ""]).is_some());
}

#[test]
fn the_plain_address_is_parsed_only_behind_a_good_role() {
    let mut calls = 0;
    let _ = tunnel::util::Config::from_args(
        &plain_args(&["tunnel", "--nope", "80", "alice", "pw"]),
        |s: &str| {
            calls += 1;
            plain_port(s)
        },
    );
    assert_eq!(calls, 0);
    let _ = tunnel::util::Config::from_args(
        &plain_args(&["tunnel", "--host", "80", "", "pw"]),
        |s: &str| {
            calls += 1;
            plain_port(s)
        },
    );
    assert_eq!(calls, 1);
}
