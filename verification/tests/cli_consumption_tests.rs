use focustime::cli::args::classify_arg;
use focustime::cli::ParsedToken;
use focustime::config::ProfileId;

fn args(items: &[&str]) -> Vec<String> {
    items.iter().map(|s| s.to_string()).collect()
}

#[test]
fn value_option_never_takes_a_dash_led_argument() {
    let a = args(&["--profile", "--json"]);
    assert_eq!(classify_arg(&a, 0), Ok((ParsedToken::Profile(None), 1)));
    assert_eq!(classify_arg(&a, 1), Ok((ParsedToken::Json, 1)));
}

#[test]
fn value_option_takes_the_next_plain_argument() {
    let a = args(&["--profile", "basic"]);
    assert_eq!(classify_arg(&a, 0), Ok((ParsedToken::Profile(Some(ProfileId::Classic)), 2)));
}

#[test]
fn plain_flag_uses_only_itself() {
    let a = args(&["--start", "basic"]);
    assert_eq!(classify_arg(&a, 0), Ok((ParsedToken::Start, 1)));
}
