use filehost::cli::{Args, FileOption};

fn args_with(address: &str, port: u16) -> Args {
    Args {
        address: address.to_string(),
        port,
        quiet: false,
        file: FileOption::Off,
        upload: false,
        count: 0,
        no_index: false,
        paths: Vec::new(),
    }
}

#[test]
fn pretty_address_wildcard_is_localhost() {
    assert_eq!(
        args_with("0.0.0.0", 8080).pretty_address(),
        "http://localhost:8080"
    );
}

#[test]
fn pretty_address_explicit_host() {
    assert_eq!(
        args_with("192.168.0.7", 80).pretty_address(),
        "http://192.168.0.7:80"
    );
    assert_eq!(args_with("example.com", 0).pretty_address(), "http://example.com:0");
    assert_eq!(
        args_with("10.0.0.1", 65535).pretty_address(),
        "http://10.0.0.1:65535"
    );
}

#[test]
fn startup_line_format() {
    assert_eq!(
        args_with("0.0.0.0", 9000).startup_line(),
        "Server up at http://localhost:9000"
    );
}

#[test]
fn file_option_parse_is_case_insensitive() {
    assert_eq!(FileOption::parse("off"), Ok(FileOption::Off));
    assert_eq!(FileOption::parse("OFF"), Ok(FileOption::Off));
    assert_eq!(FileOption::parse("BASH"), Ok(FileOption::Bash));
    assert_eq!(FileOption::parse("Json"), Ok(FileOption::Json));
}

#[test]
fn file_option_parse_rejects_unknown() {
    assert_eq!(
        FileOption::parse("nope"),
        Err("Invalid /file option \"nope\"".to_string())
    );
}
