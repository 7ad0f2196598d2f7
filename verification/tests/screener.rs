use basic_axum_rate_limit::screener::{
    RequestScreener, ScreeningConfig, ScreeningReason, ScreeningResult,
};

fn test_config() -> ScreeningConfig {
    ScreeningConfig::new()
        .with_path_patterns(vec![
            r"\.php\d?$".to_string(),
            r"/vendor/".to_string(),
            r"/\.git/".to_string(),
        ])
        .with_user_agent_patterns(vec!["libredtail-http".to_string()])
}

fn path_pattern(result: Option<ScreeningResult>) -> String {
    match result {
        Some(ScreeningResult { reason: ScreeningReason::MaliciousPath(pattern) }) => pattern,
        other => panic!("no path pattern in {:?}", other),
    }
}

fn agent_pattern(result: Option<ScreeningResult>) -> String {
    match result {
        Some(ScreeningResult { reason: ScreeningReason::MaliciousUserAgent(pattern) }) => pattern,
        other => panic!("no user-agent pattern in {:?}", other),
    }
}

#[test]
fn test_catches_php() {
    let screener = RequestScreener::new(&test_config()).unwrap();

    let result = screener.check(
        "/vendor/phpunit/phpunit/src/Util/PHP/eval-stdin.php",
        "Mozilla/5.0",
    );
    assert!(result.is_some());
}

#[test]
fn test_catches_git() {
    let screener = RequestScreener::new(&test_config()).unwrap();

    let result = screener.check("/.git/config", "Mozilla/5.0");
    assert!(result.is_some());
}

#[test]
fn test_catches_malicious_user_agent() {
    let screener = RequestScreener::new(&test_config()).unwrap();

    let result = screener.check("/", "libredtail-http");
    assert!(result.is_some());
}

#[test]
fn test_allows_legitimate_requests() {
    let screener = RequestScreener::new(&test_config()).unwrap();

    let result = screener.check(
        "/blog/hello-world",
        "Mozilla/5.0 (Windows NT 10.0; Win64; x64)",
    );
    assert!(result.is_none());
}

#[test]
fn test_user_agent_case_insensitive() {
    let screener = RequestScreener::new(&test_config()).unwrap();

    let result = screener.check("/", "LIBREDTAIL-HTTP");
    assert!(result.is_some());
}

#[test]
fn test_default_config_is_empty() {
    let config = ScreeningConfig::default();
    assert!(config.path_patterns.is_empty());
    assert!(config.user_agent_patterns.is_empty());
}

#[test]
fn first_matching_path_pattern_is_the_reason() {
    let screener = RequestScreener::new(&test_config()).unwrap();
    // the first and the second pattern both match; the first is reported
    let both = screener.check("/vendor/phpunit/eval-stdin.php", "Mozilla/5.0");
    assert_eq!(path_pattern(both), r"\.php\d?$");
    let second = screener.check("/vendor/autoload", "Mozilla/5.0");
    assert_eq!(path_pattern(second), r"/vendor/");
    let third = screener.check("/.git/config", "Mozilla/5.0");
    assert_eq!(path_pattern(third), r"/\.git/");
    let digit = screener.check("/index.php7", "Mozilla/5.0");
    assert_eq!(path_pattern(digit), r"\.php\d?$");
    assert!(screener.check("/index.phpx", "Mozilla/5.0").is_none());
}

#[test]
fn path_is_tested_before_user_agent() {
    let screener = RequestScreener::new(&test_config()).unwrap();
    let result = screener.check("/.git/config", "libredtail-http");
    assert_eq!(path_pattern(result), r"/\.git/");
}

#[test]
fn user_agent_pattern_is_a_piece_of_text_in_any_case() {
    let config = ScreeningConfig::new()
        .with_user_agent_pattern("ZGrab")
        .with_user_agent_pattern("nuclei")
        .with_user_agent_pattern("a.c");
    let screener = RequestScreener::new(&config).unwrap();
    // the pattern is reported as it was configured
    assert_eq!(agent_pattern(screener.check("/", "Mozilla/5.0 zgrab/0.x")), "ZGrab");
    assert_eq!(agent_pattern(screener.check("/", "xxZGRABxx")), "ZGrab");
    assert_eq!(agent_pattern(screener.check("/", "Nuclei - Open-source")), "nuclei");
    // the first pattern that the user agent holds wins
    assert_eq!(agent_pattern(screener.check("/", "nuclei and zgrab")), "ZGrab");
    // a pattern is plain text: the dot stands for itself
    assert!(screener.check("/", "abc").is_none());
    assert_eq!(agent_pattern(screener.check("/", "xA.Cx")), "a.c");
    assert!(screener.check("/", "zgra").is_none());
    assert!(screener.check("/", "").is_none());
}

#[test]
fn empty_user_agent_pattern_is_in_every_user_agent() {
    let config = ScreeningConfig::new().with_user_agent_pattern("");
    let screener = RequestScreener::new(&config).unwrap();
    assert_eq!(agent_pattern(screener.check("/", "")), "");
    assert_eq!(agent_pattern(screener.check("/", "anything")), "");
}

#[test]
fn screener_without_patterns_passes_everything() {
    let screener = RequestScreener::new(&ScreeningConfig::new()).unwrap();
    assert!(screener.check("/.git/config", "libredtail-http").is_none());
}

#[test]
fn invalid_pattern_fails_construction_and_is_named() {
    let config = ScreeningConfig::new()
        .with_path_pattern(r"/ok/")
        .with_path_pattern(r"(unclosed")
        .with_path_pattern(r"[also")
        .with_user_agent_pattern("zgrab");
    let error = match RequestScreener::new(&config) {
        Ok(_) => panic!("an invalid pattern was compiled"),
        Err(error) => error,
    };
    assert_eq!(error.index, Some(1));
    assert!(!error.message.is_empty());
    assert!(error.message.contains("unclosed"));
}

#[test]
fn user_agent_patterns_are_never_compiled() {
    let config = ScreeningConfig::new().with_user_agent_pattern("(unclosed");
    let screener = RequestScreener::new(&config).unwrap();
    assert_eq!(agent_pattern(screener.check("/", "an (UNCLOSED bracket")), "(unclosed");
}

#[test]
fn builders_append_in_order() {
    let config = ScreeningConfig::new()
        .with_path_pattern("a")
        .with_path_patterns(vec!["b".to_string(), "c".to_string()])
        .with_user_agent_pattern("x")
        .with_user_agent_patterns(vec!["y".to_string()])
        .with_path_pattern("d");
    assert_eq!(config.path_patterns, vec!["a", "b", "c", "d"]);
    assert_eq!(config.user_agent_patterns, vec!["x", "y"]);
}

#[test]
fn reason_in_words() {
    assert_eq!(
        ScreeningReason::MaliciousPath(r"\.php\d?$".to_string()).to_string(),
        r"malicious path pattern: \.php\d?$"
    );
    assert_eq!(
        ScreeningReason::MaliciousUserAgent("zgrab".to_string()).to_string(),
        "malicious user agent: zgrab"
    );
}

#[test]
fn user_agent_case_is_ignored_beyond_ascii() {
    let config = ScreeningConfig::new()
        .with_user_agent_pattern("é")
        .with_user_agent_pattern("СКАНЕР")
        .with_user_agent_pattern("Straße");
    let screener = RequestScreener::new(&config).unwrap();
    assert_eq!(agent_pattern(screener.check("/", "É")), "é");
    assert_eq!(agent_pattern(screener.check("/", "café")), "é");
    assert_eq!(agent_pattern(screener.check("/", "CAFÉ/1.0")), "é");
    assert_eq!(agent_pattern(screener.check("/", "мой сканер 2")), "СКАНЕР");
    assert_eq!(agent_pattern(screener.check("/", "Мой Сканер 2")), "СКАНЕР");
    assert_eq!(agent_pattern(screener.check("/", "STRAßE")), "Straße");
    // letters without the accent are other letters
    assert!(screener.check("/", "CAFE").is_none());
    assert!(screener.check("/", "e").is_none());
}

#[test]
fn cloned_screener_gives_the_same_answers() {
    let screener = RequestScreener::new(&test_config()).unwrap();
    let copy = screener.clone();
    drop(screener);
    assert_eq!(path_pattern(copy.check("/.git/config", "Mozilla/5.0")), r"/\.git/");
    assert_eq!(agent_pattern(copy.check("/", "LibRedTail-HTTP")), "libredtail-http");
    assert!(copy.check("/blog/hello-world", "Mozilla/5.0").is_none());
}
