use cloudflare_dyndns::config::{
    parse_u64, Config, DotenvAction, DotenvFile, DotenvSearch, EnvVars, DEFAULT_CHECK_INTERVAL_SEC,
    DEFAULT_DOMAIN, DEFAULT_RECORD, DEFAULT_TOKEN,
};
use cloudflare_dyndns::record::record_fqdn;

fn some(s: &str) -> Option<String> {
    Some(s.to_string())
}

#[test]
fn defaults_when_env_unset() {
    let cfg = Config::from_env_vars(EnvVars::default());
    assert_eq!(cfg.cloudflare_api_token, DEFAULT_TOKEN);
    assert_eq!(cfg.domain, DEFAULT_DOMAIN);
    assert_eq!(cfg.record, DEFAULT_RECORD);
    assert!(!cfg.debug);
    assert_eq!(cfg.check_interval_sec, DEFAULT_CHECK_INTERVAL_SEC);
}

#[test]
fn debug_only_true_exact() {
    assert!(Config::from_env_vars(EnvVars { debug: some("true"), ..EnvVars::default() }).debug);
    assert!(!Config::from_env_vars(EnvVars { debug: some("TRUE"), ..EnvVars::default() }).debug);
    assert!(!Config::from_env_vars(EnvVars { debug: some("1"), ..EnvVars::default() }).debug);
    assert!(!Config::from_env_vars(EnvVars { debug: some("false"), ..EnvVars::default() }).debug);
}

#[test]
fn parses_interval_and_custom_values() {
    let cfg = Config::from_env_vars(EnvVars {
        cloudflare_api_token: some("tok"),
        domain: some("example.com"),
        record: some("home"),
        check_interval_sec: some("60"),
        ..EnvVars::default()
    });
    assert_eq!(cfg.cloudflare_api_token, "tok");
    assert_eq!(cfg.domain, "example.com");
    assert_eq!(cfg.record, "home");
    assert_eq!(cfg.check_interval_sec, 60);
}

#[test]
fn empty_record_is_root() {
    let cfg = Config::from_env_vars(EnvVars { domain: some("acme.com"), record: some(""), ..EnvVars::default() });
    assert_eq!(cfg.record, "");
    assert_eq!(record_fqdn(&cfg.record, &cfg.domain), "acme.com");
}

#[test]
fn subdomain_fqdn() {
    let cfg = Config::from_env_vars(EnvVars { domain: some("acme.com"), record: some("www"), ..EnvVars::default() });
    assert_eq!(record_fqdn(&cfg.record, &cfg.domain), "www.acme.com");
}

#[test]
fn invalid_interval_falls_back_to_default() {
    let cfg = Config::from_env_vars(EnvVars { check_interval_sec: some("not-a-number"), ..EnvVars::default() });
    assert_eq!(cfg.check_interval_sec, DEFAULT_CHECK_INTERVAL_SEC);
}

#[test]
fn default_values() {
    assert_eq!(DEFAULT_TOKEN, "<your cloudflare token>");
    assert_eq!(DEFAULT_DOMAIN, "acme.com");
    assert_eq!(DEFAULT_RECORD, "www");
    assert_eq!(DEFAULT_CHECK_INTERVAL_SEC, 900);
}

#[test]
fn parse_u64_agrees_with_str_parse() {
    let cases = [
        "", "+", "-", "0", "00", "+7", "-7", "-0", "++1", "12a", " 1", "1 ", "900", "60",
        "18446744073709551615", "18446744073709551616", "+18446744073709551615",
        "99999999999999999999", "0018446744073709551615", "٣", "1_000",
    ];
    for s in cases {
        assert_eq!(parse_u64(s), s.parse::<u64>().ok(), "input {:?}", s);
    }
}

/// Runs the search against a row of directories: `dirs[i]` says whether
/// `.env` and `.env.example` exist `i` levels up; past the row there is no parent.
fn run_search(dirs: &[(bool, bool)]) -> (Option<(usize, DotenvFile)>, usize) {
    let (mut state, mut action) = DotenvSearch::begin();
    let mut level = 0usize;
    let mut questions = 0usize;
    loop {
        let answer = match action {
            DotenvAction::Check(DotenvFile::Env) => dirs[level].0,
            DotenvAction::Check(DotenvFile::EnvExample) => dirs[level].1,
            DotenvAction::GoUp => {
                if level + 1 < dirs.len() {
                    level += 1;
                    true
                } else {
                    false
                }
            }
            DotenvAction::Load(f) => return (Some((level, f)), questions),
            DotenvAction::GiveUp => return (None, questions),
        };
        questions += 1;
        let next = state.next(answer);
        state = next.0;
        action = next.1;
    }
}

#[test]
fn dotenv_search_order() {
    assert_eq!(run_search(&[(true, true)]).0, Some((0, DotenvFile::Env)));
    assert_eq!(run_search(&[(false, true)]).0, Some((0, DotenvFile::EnvExample)));
    assert_eq!(run_search(&[(false, false), (false, false), (true, false)]).0, Some((2, DotenvFile::Env)));
    assert_eq!(run_search(&[(false, false)]).0, None);
    let none = (false, false);
    let six = [none, none, none, none, none, (true, true)];
    assert_eq!(run_search(&six).0, Some((5, DotenvFile::Env)));
    let seven = [none, none, none, none, none, none, (true, true)];
    assert_eq!(run_search(&seven).0, None);
    assert!(run_search(&seven).1 <= 18);
    let five = [none, none, none, none, (false, true), (true, true)];
    assert_eq!(run_search(&five).0, Some((4, DotenvFile::EnvExample)));
}

#[test]
fn dotenv_search_reaches_fifth_parent() {
    let none = (false, false);
    assert_eq!(run_search(&[none, none, none, none, none, (false, true)]).0, Some((5, DotenvFile::EnvExample)));
    assert_eq!(DotenvFile::Env.file_name(), ".env");
    assert_eq!(DotenvFile::EnvExample.file_name(), ".env.example");
}
