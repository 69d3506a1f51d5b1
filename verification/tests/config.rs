use tunnel::config::digest::{password_digest, salted_digest, to_hex, SHA256_LEN};
use tunnel::config::{validate, Config, Error, ErrorKind, Service};

fn args(list: &[&str]) -> Option<Vec<String>> {
    Some(list.iter().map(|s| s.to_string()).collect())
}

/// A stand-in for an address parser: a port number.
fn port(s: &str) -> Result<u16, String> {
    s.parse::<u16>().map_err(|e| e.to_string())
}

fn rejected(list: &[&str]) -> (ErrorKind, String) {
    let e = Config::from_args(args(list), port).unwrap_err();
    (e.kind(), e.error().to_string())
}

#[test]
fn hex_has_two_lowercase_digits_to_the_byte() {
    assert_eq!(to_hex(&[10, 20, 30]), "0a141e");
    assert_eq!(to_hex(&[0x00, 0x09, 0x0a, 0x0f, 0x10, 0x9a, 0xa9, 0xff]), "00090a0f109aa9ff");
    assert_eq!(to_hex(&[]), "");
}

#[test]
fn the_digest_is_the_salted_sha256_in_hex() {
    assert_eq!(SHA256_LEN, 32);
    assert_eq!(
        password_digest("hunter2"),
        "d97045f46e7ddee592f0feee44bbc80247658a510f3f537e7f87f5647461a85b"
    );
    assert_eq!(
        password_digest("pässword"),
        "ba97fc6018a622646b005643b173bc7765611aa773c4393977dd1742923684ce"
    );
    assert_eq!(password_digest("").len(), 64);
}

#[test]
fn validate_hands_the_trimmed_text_on() {
    let s = "  \t hello \n".to_string();
    let seen = validate(&s, |t: &str| t.to_string(), ErrorKind::Username).unwrap();
    assert_eq!(seen, "hello");
    let inner = " a b ".to_string();
    assert_eq!(validate(&inner, |t: &str| t.len(), ErrorKind::Username).unwrap(), 3);
}

#[test]
fn validate_turns_down_what_is_empty() {
    for s in ["", " ", " \t\n ", "\u{a0}\u{2003}"] {
        let e = validate(&s.to_string(), |_: &str| (), ErrorKind::Password).unwrap_err();
        assert_eq!(e.kind(), ErrorKind::Password);
        assert_eq!(e.error(), "Empty");
    }
}

#[test]
fn validate_turns_down_more_than_thirty_two_bytes() {
    let fits = "x".repeat(32);
    assert_eq!(validate(&fits, |t: &str| t.len(), ErrorKind::Username).unwrap(), 32);
    let long = "x".repeat(33);
    let e = validate(&long, |t: &str| t.len(), ErrorKind::Username).unwrap_err();
    assert_eq!((e.kind(), e.error()), (ErrorKind::Username, "Too long"));
    // Eleven characters of three bytes each.
    let wide = "€".repeat(11);
    let e = validate(&wide, |t: &str| t.len(), ErrorKind::Address).unwrap_err();
    assert_eq!((e.kind(), e.error()), (ErrorKind::Address, "Too long"));
    let padded = format!("   {}   ", fits);
    assert_eq!(validate(&padded, |t: &str| t.len(), ErrorKind::Username).unwrap(), 32);
}

#[test]
fn validate_does_not_call_the_function_on_a_bad_argument() {
    let mut called = false;
    let _ = validate(&"   ".to_string(), |_: &str| called = true, ErrorKind::Service);
    assert!(!called);
}

#[test]
fn the_role_is_read_from_its_spelling() {
    assert_eq!(Service::from_str("--host").unwrap(), Service::Host);
    assert_eq!(Service::from_str("--connect").unwrap(), Service::Client);
}

#[test]
fn an_unknown_role_is_quoted_in_the_error() {
    let e = Service::from_str("--serve").unwrap_err();
    assert_eq!(e.kind(), ErrorKind::Service);
    assert_eq!(e.error(), "Unknown service argument provided (--serve)");
    assert!(Service::from_str("").is_err());
    assert!(Service::from_str("--Host").is_err());
    assert!(Service::from_str(" --host").is_err());
}

#[test]
fn an_error_reads_as_kind_and_explanation() {
    let e = Error::new(ErrorKind::Address, "invalid socket address syntax");
    assert_eq!(e.kind(), ErrorKind::Address);
    assert_eq!(e.error(), "invalid socket address syntax");
    assert_eq!(e.message(), "Address: invalid socket address syntax");
    assert_eq!(Error::new(ErrorKind::Argument, "").message(), "Argument: ");
    assert_eq!(Error::new(ErrorKind::Service, "x").message(), "Service: x");
    assert_eq!(Error::new(ErrorKind::Username, "Empty").message(), "Username: Empty");
    assert_eq!(Error::new(ErrorKind::Password, "Too long").message(), "Password: Too long");
}

#[test]
fn good_arguments_make_a_config() {
    let config =
        Config::from_args(args(&["tunnel", " --host ", " 8080", "alice ", " hunter2 "]), port)
            .unwrap();
    assert_eq!(config.service(), Service::Host);
    assert_eq!(*config.address(), 8080);
    assert_eq!(config.username(), "alice");
    assert_eq!(
        config.password(),
        "d97045f46e7ddee592f0feee44bbc80247658a510f3f537e7f87f5647461a85b"
    );
    let client =
        Config::from_args(args(&["tunnel", "--connect", "1", "bob", "secret"]), port).unwrap();
    assert_eq!(client.service(), Service::Client);
    assert_eq!(
        client.password(),
        "273ac1dee407e2c44a75a153a31adc3814977878bf58bc701d32978cfa7480ef"
    );
}

#[test]
fn arguments_that_are_not_text_are_turned_down() {
    let e = Config::from_args(None, port).unwrap_err();
    assert_eq!((e.kind(), e.error()), (ErrorKind::Argument, "Invalid argument data"));
}

#[test]
fn the_number_of_arguments_must_be_five() {
    let expected = (ErrorKind::Argument, "Invalid number of arguments (5 required)".to_string());
    assert_eq!(rejected(&[]), expected);
    assert_eq!(rejected(&["tunnel"]), expected);
    assert_eq!(rejected(&["tunnel", "--host", "8080", "alice"]), expected);
    assert_eq!(rejected(&["tunnel", "--host", "8080", "alice", "pw", "more"]), expected);
}

#[test]
fn each_argument_has_its_own_kind_of_error() {
    assert_eq!(
        rejected(&["tunnel", " ", "8080", "alice", "pw"]),
        (ErrorKind::Service, "Empty".to_string())
    );
    assert_eq!(
        rejected(&["tunnel", "--listen", "8080", "alice", "pw"]),
        (ErrorKind::Service, "Unknown service argument provided (--listen)".to_string())
    );
    assert_eq!(
        rejected(&["tunnel", "--host", "", "alice", "pw"]),
        (ErrorKind::Address, "Empty".to_string())
    );
    assert_eq!(
        rejected(&["tunnel", "--host", &"8".repeat(33), "alice", "pw"]),
        (ErrorKind::Address, "Too long".to_string())
    );
    assert_eq!(
        rejected(&["tunnel", "--host", "port", "alice", "pw"]),
        (ErrorKind::Address, "invalid digit found in string".to_string())
    );
    assert_eq!(
        rejected(&["tunnel", "--host", "8080", "  ", "pw"]),
        (ErrorKind::Username, "Empty".to_string())
    );
    assert_eq!(
        rejected(&["tunnel", "--host", "8080", &"a".repeat(33), "pw"]),
        (ErrorKind::Username, "Too long".to_string())
    );
    assert_eq!(
        rejected(&["tunnel", "--host", "8080", "alice", ""]),
        (ErrorKind::Password, "Empty".to_string())
    );
    assert_eq!(
        rejected(&["tunnel", "--host", "8080", "alice", &"p".repeat(33)]),
        (ErrorKind::Password, "Too long".to_string())
    );
}

#[test]
fn the_first_bad_argument_decides() {
    assert_eq!(
        rejected(&["tunnel", "--nope", "port", "", ""]).0,
        ErrorKind::Service
    );
    assert_eq!(rejected(&["tunnel", "--host", "port", "", ""]).0, ErrorKind::Address);
    assert_eq!(rejected(&["tunnel", "--host", "80", "", ""]).0, ErrorKind::Username);
}

#[test]
fn the_address_is_parsed_only_behind_a_good_role() {
    let mut calls = 0;
    let _ = Config::from_args(args(&["tunnel", "--nope", "80", "alice", "pw"]), |s: &str| {
        calls += 1;
        port(s)
    });
    let _ = Config::from_args(args(&["tunnel", "--host", "  ", "alice", "pw"]), |s: &str| {
        calls += 1;
        port(s)
    });
    assert_eq!(calls, 0);
    let mut seen = String::new();
    let _ = Config::from_args(args(&["tunnel", "--host", " 80 ", "", "pw"]), |s: &str| {
        seen = s.to_string();
        port(s)
    });
    assert_eq!(seen, "80");
}

#[test]
fn measure_checks_what_is_left_after_trimming() {
    assert!(tunnel::config::measure("alice", ErrorKind::Username).is_ok());
    assert!(tunnel::config::measure("a b", ErrorKind::Username).is_ok());
    assert!(tunnel::config::measure("\t", ErrorKind::Username).is_ok());
    let spaces = tunnel::config::measure("   ", ErrorKind::Username).unwrap_err();
    assert_eq!((spaces.kind(), spaces.error()), (ErrorKind::Username, "Empty"));
    assert!(tunnel::config::measure(&"x".repeat(32), ErrorKind::Username).is_ok());
    let empty = tunnel::config::measure("", ErrorKind::Service).unwrap_err();
    assert_eq!((empty.kind(), empty.error()), (ErrorKind::Service, "Empty"));
    let long = tunnel::config::measure(&"x".repeat(33), ErrorKind::Password).unwrap_err();
    assert_eq!((long.kind(), long.error()), (ErrorKind::Password, "Too long"));
}

#[test]
fn the_salt_is_part_of_the_digest() {
    assert_eq!(salted_digest("hunter2", "saltmakesfoodtastegood"), password_digest("hunter2"));
    assert_eq!(
        salted_digest("hello", " world"),
        "b94d27b9934d3e08a52e52d7da7dabfac484efe37a5380ee9088f7ace2efcde9"
    );
    assert_eq!(
        salted_digest("hello world", ""),
        "b94d27b9934d3e08a52e52d7da7dabfac484efe37a5380ee9088f7ace2efcde9"
    );
}

#[test]
fn blank_is_spaces_only() {
    use_is_blank("", true);
    use_is_blank(" ", true);
    use_is_blank("     ", true);
    use_is_blank(" a ", false);
    use_is_blank("\t", false);
    use_is_blank("\u{a0}", false);
    use_is_blank("a", false);
}

fn use_is_blank(s: &str, expected: bool) {
    assert_eq!(tunnel::text::is_blank(s), expected, "{:?}", s);
}
