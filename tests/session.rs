use lichessbot::board::ReplayError;
use lichessbot::book::book_candidate;
use lichessbot::clock::Clock;
use lichessbot::history::replay;
use lichessbot::lichessbot::{make_uci_moves, AccountEvent, Dispatch, LichessBot};
use lichessbot::policy::{Challenge, DeclineCode, Speed};
use lichessbot::ponder::{PonderOutcome, PonderState};
use lichessbot::session::{
    Action, GameSession, GameState, GameUpdate, MoveSource, Observation, SearchOutcome,
};
use pgnparse::parser::{Book, BookMove, BookPosition};

fn clock() -> Clock {
    Clock { wtime: 60000, btime: 60000, winc: 1000, binc: 1000 }
}

fn state(moves: &str) -> GameUpdate {
    GameUpdate::State(GameState { moves: moves.to_string(), clock: clock(), status: "started".to_string() })
}

fn full(white: &str, black: &str, moves: &str) -> GameUpdate {
    GameUpdate::Full {
        white: white.to_string(),
        black: black.to_string(),
        state: GameState { moves: moves.to_string(), clock: clock(), status: "started".to_string() },
    }
}

fn book_with(history: &str, reply: &str) -> Book {
    let (_, epd) = make_uci_moves(history).unwrap();
    let mut position = BookPosition::new(epd.clone());
    position.moves.insert(
        reply.to_string(),
        BookMove { win: 1, draw: 0, loss: 0, uci: reply.to_string(), san: reply.to_string() },
    );
    let mut book = Book::new();
    book.positions.insert(epd, position);
    book
}

fn empty_book() -> Book {
    Book::new()
}

fn observation(moves: &str, last: Option<&str>, white_to_move: bool, legal: &[&str]) -> Observation {
    Observation {
        moves: moves.to_string(),
        last_move: last.map(|s| s.to_string()),
        white_to_move,
        legal: legal.iter().map(|s| s.to_string()).collect(),
        clock: clock(),
    }
}

#[test]
fn end_to_end_black_bot_acts_on_odd_ply_counts() {
    let bot = LichessBot::new("mybot".to_string(), None).enable_casual(true);
    let challenge = Challenge {
        id: "c1".to_string(),
        variant_key: "standard".to_string(),
        speed: Speed::Blitz,
        rated: false,
    };
    match bot.dispatch(&AccountEvent::Challenge(challenge)) {
        Dispatch::Accept { challenge_id } => assert_eq!(challenge_id, "c1"),
        other => panic!("expected accept, got {:?}", other),
    }
    let game = match bot.dispatch(&AccountEvent::GameStart { game_id: "g1".to_string() }) {
        Dispatch::Play { game_id } => game_id,
        other => panic!("expected play, got {:?}", other),
    };
    let mut session = bot.start_session(game);
    let book = empty_book();
    assert!(matches!(session.on_update(&full("someone", "mybot", ""), &book), Action::Wait));
    assert!(!session.bot_white);
    match session.on_update(&state("e2e4"), &book) {
        Action::Play { token, source, discard_ponder } => {
            assert_eq!(source, MoveSource::RandomFallback);
            assert!(!discard_ponder);
            let board = replay("e2e4").unwrap();
            assert!(board.legal_tokens().contains(&token));
        }
        other => panic!("expected a move, got {:?}", other),
    }
    assert!(matches!(session.on_update(&state("e2e4 e7e5"), &book), Action::Wait));
    assert!(session.progressed);
    assert_eq!(
        session.current_fen.clone().unwrap(),
        make_uci_moves("e2e4 e7e5").unwrap().0
    );
}

#[test]
fn white_bot_acts_on_even_ply_counts() {
    let bot = LichessBot::new("mybot".to_string(), None);
    let mut session = bot.start_session("g2".to_string());
    let book = empty_book();
    assert!(matches!(session.on_update(&full("mybot", "other", ""), &book), Action::Play { .. }));
    assert!(session.bot_white);
    assert!(!session.progressed);
    assert!(matches!(session.on_update(&state("e2e4"), &book), Action::Wait));
}

#[test]
fn aborted_status_and_other_messages_are_informational() {
    let bot = LichessBot::new("mybot".to_string(), None);
    let mut session = bot.start_session("g3".to_string());
    let book = empty_book();
    let aborted = GameUpdate::State(GameState {
        moves: "".to_string(),
        clock: clock(),
        status: "aborted".to_string(),
    });
    assert!(matches!(session.on_update(&aborted, &book), Action::Wait));
    assert!(session.current_fen.is_none());
    assert!(matches!(session.on_update(&GameUpdate::Other, &book), Action::Wait));
    assert!(matches!(session.on_update(&state(""), &book), Action::Play { .. }));
}

#[test]
fn broken_history_ends_the_session() {
    let bot = LichessBot::new("mybot".to_string(), None);
    let mut session = bot.start_session("g4".to_string());
    let book = empty_book();
    assert!(matches!(session.on_update(&state("e2e4 e7e6 e4e6"), &book), Action::Fatal(ReplayError::Illegal)));
    assert!(matches!(session.on_update(&state("e2e4 x"), &book), Action::Fatal(ReplayError::Unparsable)));
}

#[test]
fn checkmate_gives_no_move() {
    let bot = LichessBot::new("mybot".to_string(), None);
    let mut session = bot.start_session("g5".to_string());
    let book = empty_book();
    assert!(matches!(session.on_update(&state("f2f3 e7e5 g2g4 d8h4"), &book), Action::NoLegalMove));
}

#[test]
fn book_is_not_consulted_beyond_its_depth() {
    let history = "e2e4 e7e5 g1f3";
    let book = book_with(history, "b8c6");
    let board = replay(history).unwrap();
    assert_eq!(book_candidate(&book, &board, 3, 2, 90), None);
    assert_eq!(book_candidate(&book, &board, 3, 3, 90), Some("b8c6".to_string()));
    assert_eq!(book_candidate(&book, &board, 3, 3, 0), Some("b8c6".to_string()));

    let bot = LichessBot::new("mybot".to_string(), None).max_book_depth(2);
    let mut session = bot.start_session("g6".to_string());
    session.on_update(&full("other", "mybot", ""), &book);
    match session.on_update(&state(history), &book) {
        Action::Play { source, .. } => assert_eq!(source, MoveSource::RandomFallback),
        other => panic!("expected a move, got {:?}", other),
    }
    let bot = LichessBot::new("mybot".to_string(), None).max_book_depth(3);
    let mut session = bot.start_session("g7".to_string());
    session.on_update(&full("other", "mybot", ""), &book);
    match session.on_update(&state(history), &book) {
        Action::Play { token, source, .. } => {
            assert_eq!(source, MoveSource::Book);
            assert_eq!(token, "b8c6");
        }
        other => panic!("expected a move, got {:?}", other),
    }
}

#[test]
fn book_without_the_position_gives_nothing() {
    let book = book_with("d2d4", "d7d5");
    let board = replay("e2e4").unwrap();
    assert_eq!(book_candidate(&book, &board, 1, 20, 90), None);
}

#[test]
fn fallback_when_engine_gives_nothing() {
    let bot = LichessBot::new("mybot".to_string(), Some("engine".to_string()));
    let mut session = bot.start_session("g8".to_string());
    let book = empty_book();
    let request = match session.on_update(&full("mybot", "other", "e2e4 e7e5"), &book) {
        Action::Search(req) => req,
        other => panic!("expected a search, got {:?}", other),
    };
    assert_eq!(request.kind, PonderOutcome::Fresh);
    assert!(request.apply_options);
    assert_eq!(request.moves, "e2e4 e7e5");
    let legal = replay("e2e4 e7e5").unwrap().legal_tokens();
    let reply = session.on_search_result(&request, None, 300);
    assert_eq!(reply.source, MoveSource::RandomFallback);
    assert!(legal.contains(&reply.token));
    assert!(reply.ponder_job.is_none());
    let empty = SearchOutcome { bestmove: None, ponder: None };
    let reply = session.on_search_result(&request, Some(empty), 300);
    assert_eq!(reply.source, MoveSource::RandomFallback);
    assert!(legal.contains(&reply.token));
}

#[test]
fn ponder_hit_and_miss() {
    let bot = LichessBot::new("mybot".to_string(), Some("engine".to_string()));
    let mut session = bot.start_session("g9".to_string());
    let book = empty_book();
    let request = match session.on_update(&full("mybot", "other", ""), &book) {
        Action::Search(req) => req,
        other => panic!("expected a search, got {:?}", other),
    };
    let outcome = SearchOutcome { bestmove: Some("e2e4".to_string()), ponder: Some("e7e5".to_string()) };
    let reply = session.on_search_result(&request, Some(outcome), 1500);
    assert_eq!(reply.token, "e2e4");
    assert_eq!(reply.source, MoveSource::Search);
    let job = reply.ponder_job.unwrap();
    assert_eq!(job.moves, "e2e4 e7e5");
    assert_eq!(job.clock, Clock { wtime: 58500, btime: 58500, winc: 1000, binc: 1000 });
    assert!(matches!(&session.ponder, PonderState::Pondering(p) if p == "e7e5"));

    let mut hit = session.clone();
    match hit.on_update(&state("e2e4 e7e5"), &book) {
        Action::Search(req) => {
            assert_eq!(req.kind, PonderOutcome::Hit);
            assert!(!req.apply_options);
        }
        other => panic!("expected a search, got {:?}", other),
    }
    assert!(matches!(hit.ponder, PonderState::Idle));

    let mut miss = session.clone();
    match miss.on_update(&state("e2e4 c7c5"), &book) {
        Action::Search(req) => {
            assert_eq!(req.kind, PonderOutcome::Miss);
            assert!(req.apply_options);
            assert_eq!(req.moves, "e2e4 c7c5");
        }
        other => panic!("expected a search, got {:?}", other),
    }
    assert!(matches!(miss.ponder, PonderState::Idle));
    assert!(miss.on_stream_end());
}

#[test]
fn ponder_tracker_reconciles() {
    let mut p = PonderState::Pondering("e7e5".to_string());
    assert_eq!(p.reconcile(Some(&"e7e5".to_string())), PonderOutcome::Hit);
    assert!(matches!(p, PonderState::Idle));
    let mut p = PonderState::Pondering("e7e5".to_string());
    assert_eq!(p.reconcile(Some(&"c7c5".to_string())), PonderOutcome::Miss);
    assert!(matches!(p, PonderState::Idle));
    let mut p = PonderState::Idle;
    assert_eq!(p.reconcile(Some(&"c7c5".to_string())), PonderOutcome::Fresh);
    let mut p = PonderState::Pondering("e7e5".to_string());
    assert_eq!(p.reconcile(None), PonderOutcome::Fresh);
}

#[test]
fn decide_follows_book_search_fallback_precedence() {
    let mut s = GameSession::new("g".to_string(), "bot".to_string(), true, 20, 90);
    let obs = observation("", None, true, &["a2a3", "e2e4"]);
    match s.decide(obs, 1, Some("d2d4".to_string())) {
        Action::Play { token, source, .. } => {
            assert_eq!(token, "d2d4");
            assert_eq!(source, MoveSource::Book);
        }
        other => panic!("unexpected {:?}", other),
    }
    let obs = observation("", None, true, &["a2a3", "e2e4"]);
    match s.decide(obs, 1, None) {
        Action::Search(req) => {
            assert_eq!(req.fallback, 1);
            assert_eq!(req.legal[req.fallback], "e2e4");
        }
        other => panic!("unexpected {:?}", other),
    }
    let mut t = GameSession::new("g".to_string(), "bot".to_string(), false, 20, 90);
    let obs = observation("", None, true, &["a2a3", "e2e4"]);
    match t.decide(obs, 0, None) {
        Action::Play { token, source, .. } => {
            assert_eq!(token, "a2a3");
            assert_eq!(source, MoveSource::RandomFallback);
        }
        other => panic!("unexpected {:?}", other),
    }
    let obs = observation("e2e4", Some("e2e4"), false, &["e7e5"]);
    assert!(matches!(t.decide(obs, 0, None), Action::Wait));
    let obs = observation("", None, true, &[]);
    assert!(matches!(t.decide(obs, 0, None), Action::NoLegalMove));
}

#[test]
fn book_move_discards_pending_ponder() {
    let mut s = GameSession::new("g".to_string(), "bot".to_string(), true, 20, 90);
    s.ponder = PonderState::Pondering("e7e5".to_string());
    let obs = observation("e2e4 e7e5", Some("e7e5"), true, &["g1f3"]);
    match s.decide(obs, 0, Some("g1f3".to_string())) {
        Action::Play { discard_ponder, .. } => assert!(discard_ponder),
        other => panic!("unexpected {:?}", other),
    }
    assert!(matches!(s.ponder, PonderState::Idle));
}

#[test]
fn dispatch_declines_with_the_reported_code() {
    let bot = LichessBot::new("mybot".to_string(), None);
    let challenge = Challenge {
        id: "c2".to_string(),
        variant_key: "standard".to_string(),
        speed: Speed::Rapid,
        rated: true,
    };
    match bot.dispatch(&AccountEvent::Challenge(challenge)) {
        Dispatch::Decline { challenge_id, code, reasons } => {
            assert_eq!(challenge_id, "c2");
            assert_eq!(code, DeclineCode::TimeControl);
            assert_eq!(reasons.len(), 1);
        }
        other => panic!("expected decline, got {:?}", other),
    }
    assert!(matches!(bot.dispatch(&AccountEvent::Other), Dispatch::Ignore));
}
