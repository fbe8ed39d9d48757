use botagent::cache::init_pattern;
use botagent::pattern::join_alternation;
use botagent::{
    create_is_bot, generate_pattern, is_bot, is_bot_match, is_bot_matches, is_bot_pattern,
    is_bot_patterns, parse_pattern_list, BotDetectorError, CompiledMatcher, MatcherCache,
    ScanPolicy,
};

const GOOGLEBOT_UA: &str = "Mozilla/5.0 (compatible; Googlebot/2.1; +http://www.google.com/bot.html)";

fn list(patterns: &[&str]) -> Vec<String> {
    patterns.iter().map(|p| p.to_string()).collect()
}

#[test]
fn test_is_bot() {
    let mut cache = MatcherCache::new();
    let patterns = list(&["Googlebot"]);
    assert!(is_bot(&mut cache, GOOGLEBOT_UA, &patterns).unwrap());
}

#[test]
fn test_is_bot_match() {
    let mut cache = MatcherCache::new();
    let patterns = list(&["Googlebot"]);
    assert_eq!(
        is_bot_match(&mut cache, GOOGLEBOT_UA, &patterns).unwrap(),
        Some("Googlebot".to_string())
    );
}

#[test]
fn test_is_bot_matches() {
    let patterns = list(&["Google", "Googlebot", "bot", "http"]);
    let matches = is_bot_matches(GOOGLEBOT_UA, &patterns);
    assert!(matches.contains(&"Google".to_string()));
    assert_eq!(matches.len(), 4);
}

#[test]
fn test_is_bot_pattern() {
    let expected_pattern = r"(?<! (?:channel/|google/))google(?!(app|/google| pixel))";
    let patterns = list(&[expected_pattern]);
    let result = is_bot_pattern(GOOGLEBOT_UA, &patterns).expect("Failed to execute is_bot_pattern");
    assert_eq!(result, Some(expected_pattern.to_string()));
}

#[test]
fn test_is_bot_patterns() {
    let patterns = [
        r"(?<! (?:channel/|google/))google(?!(app|/google| pixel))",
        r"(?<! cu)bots?(?:\b|_)",
        r"(?<!(?:lib))http",
        r"\.com",
    ];
    let result = is_bot_patterns(GOOGLEBOT_UA, &list(&patterns));
    for pattern in patterns.iter() {
        assert!(result.contains(&pattern.to_string()));
    }
    assert_eq!(result.len(), 4);
}

#[test]
fn test_create_is_bot() {
    let custom_pattern = CompiledMatcher::new(r"bot").unwrap();
    let custom_is_bot = create_is_bot(custom_pattern);
    assert!(custom_is_bot.is_bot(GOOGLEBOT_UA));
}

#[test]
fn test_invalid_inputs() {
    let patterns = list(&["Googlebot"]);
    let mut cache = MatcherCache::new();
    assert!(!is_bot(&mut cache, "", &patterns).unwrap());
    assert_eq!(is_bot_match(&mut cache, "", &patterns).unwrap(), None);
}

#[test]
fn pattern_contained_in_agent_matches_regardless_of_case() {
    let mut cache = MatcherCache::new();
    let patterns = list(&["curl", "GOOGLEBOT", "spider"]);
    assert!(is_bot(&mut cache, GOOGLEBOT_UA, &patterns).unwrap());
    let mut other = MatcherCache::new();
    assert!(is_bot(&mut other, "some googlebot here", &list(&["GoogleBot"])).unwrap());
}

#[test]
fn empty_agent_is_never_a_bot() {
    let mut cache = MatcherCache::new();
    // a pattern that matches the empty string still does not make "" a bot
    assert!(!is_bot(&mut cache, "", &list(&["x*"])).unwrap());
}

#[test]
fn enumeration_gives_the_same_answer_twice() {
    let patterns = list(&["Google", "(broken", "bot", "Safari"]);
    let first = is_bot_matches(GOOGLEBOT_UA, &patterns);
    let second = is_bot_matches(GOOGLEBOT_UA, &patterns);
    assert_eq!(first, second);
    assert_eq!(first, list(&["Google", "bot"]));
}

#[test]
fn first_matching_pattern_is_lowest_index() {
    let patterns = list(&["Google", "Googlebot", "bot", "http"]);
    assert_eq!(is_bot_pattern(GOOGLEBOT_UA, &patterns).unwrap(), Some("Google".to_string()));
    let reordered = list(&["Safari", "http", "Googlebot"]);
    assert_eq!(is_bot_pattern(GOOGLEBOT_UA, &reordered).unwrap(), Some("http".to_string()));
}

#[test]
fn first_matching_pattern_is_none_without_match() {
    let patterns = list(&["Safari", "Chrome"]);
    assert_eq!(is_bot_pattern(GOOGLEBOT_UA, &patterns).unwrap(), None);
}

#[test]
fn first_matching_pattern_fails_on_invalid_pattern_before_match() {
    let patterns = list(&["Safari", "(unclosed", "Googlebot"]);
    let result = is_bot_pattern(GOOGLEBOT_UA, &patterns);
    assert!(matches!(result, Err(BotDetectorError::RegexCompile(_))));
    // an invalid pattern after the first match is never reached
    let later = list(&["Googlebot", "(unclosed"]);
    assert_eq!(is_bot_pattern(GOOGLEBOT_UA, &later).unwrap(), Some("Googlebot".to_string()));
}

#[test]
fn first_matching_pattern_keeps_case_as_written() {
    let patterns = list(&["GOOGLEBOT", "(?i)GOOGLEBOT"]);
    assert_eq!(
        is_bot_pattern(GOOGLEBOT_UA, &patterns).unwrap(),
        Some("(?i)GOOGLEBOT".to_string())
    );
}

#[test]
fn cache_keeps_the_first_matcher() {
    let mut cache = MatcherCache::new();
    assert!(cache.get().is_none());
    assert!(is_bot(&mut cache, GOOGLEBOT_UA, &list(&["Googlebot"])).unwrap());
    // a second, different pattern list is ignored: the first matcher stays
    assert!(!is_bot(&mut cache, "Mozilla/5.0 (Macintosh)", &list(&["Macintosh"])).unwrap());
    assert!(is_bot(&mut cache, GOOGLEBOT_UA, &list(&["Macintosh"])).unwrap());
    assert!(cache.get().is_some());
    let again = init_pattern(&mut cache, &list(&["other"])).unwrap();
    assert!(again.matches(GOOGLEBOT_UA));
}

#[test]
fn cache_stays_empty_after_failed_build() {
    let mut cache = MatcherCache::new();
    let result = is_bot(&mut cache, GOOGLEBOT_UA, &list(&["(unclosed"]));
    assert!(matches!(result, Err(BotDetectorError::RegexCompile(_))));
    assert!(cache.get().is_none());
    assert!(is_bot(&mut cache, GOOGLEBOT_UA, &list(&["Googlebot"])).unwrap());
}

#[test]
fn empty_pattern_list_is_refused() {
    let mut cache = MatcherCache::new();
    let result = is_bot(&mut cache, GOOGLEBOT_UA, &Vec::new());
    assert!(matches!(result, Err(BotDetectorError::EmptyPatternSet)));
    assert!(matches!(generate_pattern(&Vec::new()), Err(BotDetectorError::EmptyPatternSet)));
    let mut other = MatcherCache::new();
    assert!(matches!(
        is_bot_match(&mut other, GOOGLEBOT_UA, &Vec::new()),
        Err(BotDetectorError::EmptyPatternSet)
    ));
}

#[test]
fn custom_predicate_from_bot_pattern() {
    let predicate = create_is_bot(CompiledMatcher::new("bot").unwrap());
    assert!(predicate.is_bot(GOOGLEBOT_UA));
    assert!(!predicate.is_bot(""));
    assert!(!predicate.is_bot("Mozilla/5.0 (Macintosh)"));
}

#[test]
fn combined_matcher_round_trip() {
    let matcher = generate_pattern(&list(&["Googlebot"])).unwrap();
    assert!(matcher.matches(GOOGLEBOT_UA));
    assert!(!matcher.matches("Mozilla/5.0 (Macintosh)"));
}

#[test]
fn combined_matcher_ignores_case() {
    let matcher = generate_pattern(&list(&["GOOGLEBOT", "spider"])).unwrap();
    assert!(matcher.matches(GOOGLEBOT_UA));
    assert!(matcher.matches("A SPIDER"));
    assert_eq!(matcher.is_match("nothing").unwrap(), false);
}

#[test]
fn combined_matcher_refuses_invalid_alternation() {
    assert!(matches!(
        generate_pattern(&list(&["ok", "(bad"])),
        Err(BotDetectorError::RegexCompile(_))
    ));
}

#[test]
fn all_four_patterns_in_order() {
    let patterns = list(&["Google", "Googlebot", "bot", "http"]);
    assert_eq!(is_bot_matches(GOOGLEBOT_UA, &patterns), patterns);
}

#[test]
fn enumeration_folds_case_but_as_written_does_not() {
    let patterns = list(&["GOOGLEBOT", "google", "[invalid"]);
    assert_eq!(is_bot_matches(GOOGLEBOT_UA, &patterns), list(&["GOOGLEBOT", "google"]));
    assert_eq!(is_bot_patterns(GOOGLEBOT_UA, &patterns), list(&["google"]));
}

#[test]
fn first_match_text_is_the_whole_match() {
    let mut cache = MatcherCache::new();
    let patterns = list(&["google(bot)/\\d", "http"]);
    assert_eq!(
        is_bot_match(&mut cache, GOOGLEBOT_UA, &patterns).unwrap(),
        Some("Googlebot/2".to_string())
    );
    assert_eq!(is_bot_match(&mut cache, "Mozilla/5.0 (Macintosh)", &patterns).unwrap(), None);
}

#[test]
fn matcher_first_match_directly() {
    let matcher = CompiledMatcher::caseless("BOT").unwrap();
    assert_eq!(matcher.first_match(GOOGLEBOT_UA), Some("bot".to_string()));
    assert_eq!(matcher.first_match("human"), None);
}

#[test]
fn alternation_joins_with_bars() {
    assert_eq!(join_alternation(&list(&["a", "b", "c"])), "a|b|c");
    assert_eq!(join_alternation(&list(&["only"])), "only");
    assert_eq!(join_alternation(&Vec::new()), "");
}

#[test]
fn pattern_list_parses_json_array() {
    let parsed = parse_pattern_list(r#"["Googlebot", "bot\\d", "http"]"#).unwrap();
    assert_eq!(parsed, list(&["Googlebot", "bot\\d", "http"]));
    assert_eq!(parse_pattern_list("[]").unwrap(), Vec::<String>::new());
}

#[test]
fn pattern_list_refuses_other_shapes() {
    assert!(matches!(parse_pattern_list("{\"a\": 1}"), Err(BotDetectorError::JsonParse(_))));
    assert!(matches!(parse_pattern_list("[1, 2]"), Err(BotDetectorError::JsonParse(_))));
    assert!(matches!(parse_pattern_list("not json"), Err(BotDetectorError::JsonParse(_))));
}

#[test]
fn error_messages_name_the_kind() {
    let io = BotDetectorError::Io(std::io::Error::new(std::io::ErrorKind::Other, "on error"));
    assert_eq!(io.error_message(), "IO error: on error");
    assert_eq!(BotDetectorError::EmptyPatternSet.error_message(), "Pattern list is empty");
    let json = parse_pattern_list("{").unwrap_err();
    assert!(json.error_message().starts_with("JSON Parse error: "));
    assert!(json.error_message().len() > "JSON Parse error: ".len());
    let compile = generate_pattern(&list(&["(x"])).unwrap_err();
    assert!(compile.error_message().starts_with("Regex compilation error: "));
}

#[test]
fn scan_policy_choices() {
    let patterns = list(&["(bad", "bot", "http"]);
    let skipped = botagent::scan::scan_patterns(GOOGLEBOT_UA, &patterns, false, ScanPolicy::SkipInvalid).unwrap();
    assert_eq!(skipped, list(&["bot", "http"]));
    assert!(botagent::scan::scan_patterns(GOOGLEBOT_UA, &patterns, false, ScanPolicy::FailFast).is_err());
    let fast = botagent::scan::scan_patterns(GOOGLEBOT_UA, &list(&["bot", "http"]), false, ScanPolicy::FailFast).unwrap();
    assert_eq!(fast, list(&["bot"]));
}
