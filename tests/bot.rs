use lichessbot::lichessbot::{BotState, LichessBot, DEFAULT_BOOK_DEPTH, DEFAULT_BOOK_MIXED};

#[test]
fn bot_state_setters() {
    let s = BotState::default();
    assert!(s.current_fen.is_none() && !s.engine_thinking && !s.streaming);
    let s = s.set_current_fen(Some("fen".to_string())).set_engine_thinking(true).set_streaming(true);
    assert_eq!(s.current_fen, Some("fen".to_string()));
    assert!(s.engine_thinking);
    assert!(s.streaming);
    let s = s.set_engine_thinking(false);
    assert!(!s.engine_thinking);
    assert!(s.streaming);
}

#[test]
fn new_bot_defaults() {
    let bot = LichessBot::new("mybot".to_string(), None);
    assert_eq!(bot.bot_name, "mybot");
    assert_eq!(bot.max_book_depth, DEFAULT_BOOK_DEPTH);
    assert_eq!(bot.book_mixed, DEFAULT_BOOK_MIXED);
    assert_eq!(bot.book.max_depth, DEFAULT_BOOK_DEPTH);
    assert_eq!(bot.book.me, Some("mybot".to_string()));
    assert!(bot.book.positions.is_empty());
    assert!(bot.uci_options.is_empty());
    assert!(!bot.policy.enable_casual);
}

#[test]
fn builders_set_flags_and_depth() {
    let bot = LichessBot::new("mybot".to_string(), None)
        .enable_classical(true)
        .enable_rapid(true)
        .disable_blitz(true)
        .disable_bullet(true)
        .enable_ultrabullet(true)
        .enable_casual(true)
        .disable_rated(true)
        .max_book_depth(7);
    assert!(bot.policy.enable_classical && bot.policy.enable_rapid);
    assert!(bot.policy.disable_blitz && bot.policy.disable_bullet);
    assert!(bot.policy.enable_ultrabullet && bot.policy.enable_casual && bot.policy.disable_rated);
    assert_eq!(bot.max_book_depth, 7);
    assert_eq!(bot.book.max_depth, 7);
}

#[test]
fn uci_options_replace_values_of_the_same_name() {
    let bot = LichessBot::new("mybot".to_string(), None)
        .uci_opt("Move Overhead", "500")
        .uci_opt("Threads", "4")
        .uci_opt("Hash", "128")
        .uci_opt("Threads", "8");
    assert_eq!(
        bot.uci_options,
        vec![
            ("Move Overhead".to_string(), "500".to_string()),
            ("Threads".to_string(), "8".to_string()),
            ("Hash".to_string(), "128".to_string()),
        ]
    );
}

#[test]
fn session_takes_the_profile_settings() {
    let bot = LichessBot::new("mybot".to_string(), Some("stockfish".to_string())).max_book_depth(4);
    let s = bot.start_session("g".to_string());
    assert_eq!(s.game_id, "g");
    assert_eq!(s.bot_name, "mybot");
    assert!(s.has_engine);
    assert_eq!(s.max_book_depth, 4);
    assert!(s.bot_white);
}
