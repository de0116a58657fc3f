use vstd::prelude::*;

use pgnparse::parser::Book;
use rand::Rng;

use crate::board::{epd_after, fen_after, legal_after, replay_error_of, replayable, ReplayError};
use crate::book::{book_candidate, book_replies};
use crate::clock::{charged, Clock};
use crate::history::{append_move, extended, history_tokens, replay_tokens, split_moves};
use crate::ponder::{reconciled, PonderOutcome, PonderState};
use crate::text::same_text;

verus! {

/// Relies on `rand::Rng::gen_range` over `rand::thread_rng`: an index drawn
/// uniformly below `n`.
#[verifier::external_body]
fn random_below(n: usize) -> (r: usize)
    requires
        n > 0,
    ensures
        r < n,
{
    rand::thread_rng().gen_range(0..n)
}

/// Where a played move came from.
#[derive(Clone, Copy, Debug, PartialEq, Eq, Structural)]
pub enum MoveSource {
    Book,
    Search,
    RandomFallback,
}

/// A state report of a game: the whole move history, the clock and the
/// game's status.
#[derive(Clone, Debug)]
pub struct GameState {
    pub moves: String,
    pub clock: Clock,
    pub status: String,
}

/// One message of a game's stream.
#[derive(Clone, Debug)]
pub enum GameUpdate {
    /// The first message: both players and the state so far.
    Full { white: String, black: String, state: GameState },
    /// A later state report.
    State(GameState),
    /// Anything else (chat and the like).
    Other,
}

/// What the controller learns of the position of a state report.
#[derive(Clone, Debug)]
pub struct Observation {
    pub moves: String,
    pub last_move: Option<String>,
    pub white_to_move: bool,
    pub legal: Vec<String>,
    pub clock: Clock,
}

/// A request to the search engine. `legal[fallback]` is played if the
/// engine gives no move.
#[derive(Clone, Debug)]
pub struct SearchRequest {
    /// Fresh search, ponder hit (the running search goes on), or ponder miss
    /// (the running search is dropped and a new one starts on `moves`).
    pub kind: PonderOutcome,
    pub moves: String,
    pub clock: Clock,
    /// Whether the fixed engine options go with the request: for every
    /// search that starts anew.
    pub apply_options: bool,
    pub legal: Vec<String>,
    pub fallback: usize,
}

/// What the controller asks for after a state report.
#[derive(Clone, Debug)]
pub enum Action {
    /// Nothing to do: not the bot's turn, or no state to act on.
    Wait,
    /// The side to move has no legal move: the game is over.
    NoLegalMove,
    /// The history cannot be replayed: the session ends.
    Fatal(ReplayError),
    /// Submit this move now; stop the speculative search first if asked.
    Play { token: String, source: MoveSource, discard_ponder: bool },
    /// Ask the engine, then hand its answer to `on_search_result`.
    Search(SearchRequest),
}

/// What the engine answered.
#[derive(Clone, Debug)]
pub struct SearchOutcome {
    pub bestmove: Option<String>,
    pub ponder: Option<String>,
}

/// A speculative search to start on a predicted reply.
#[derive(Clone, Debug)]
pub struct PonderJob {
    pub moves: String,
    pub clock: Clock,
}

/// The move to submit after a search, and the speculative search to start.
#[derive(Clone, Debug)]
pub struct Reply {
    pub token: String,
    pub source: MoveSource,
    pub ponder_job: Option<PonderJob>,
}

/// The state of one game, owned by its controller.
#[derive(Clone, Debug)]
pub struct GameSession {
    pub game_id: String,
    pub bot_name: String,
    pub bot_white: bool,
    pub has_engine: bool,
    pub max_book_depth: usize,
    pub book_mixed: usize,
    pub ponder: PonderState,
    pub current_fen: Option<String>,
    /// Whether a move has been seen in the game. Until then the game may be
    /// aborted so that it is not left hanging.
    pub progressed: bool,
}

/// The state report a message carries, if the controller acts on it.
/// Aborted status reports are informational only.
pub open spec fn observed_state(u: GameUpdate) -> Option<GameState> {
    match u {
        GameUpdate::Full { state, .. } => Some(state),
        GameUpdate::State(st) => if st.status@ == "aborted"@ {
            None
        } else {
            Some(st)
        },
        GameUpdate::Other => None,
    }
}

/// Whether a message reports at least one move.
pub open spec fn moves_seen(u: GameUpdate) -> bool {
    match observed_state(u) {
        Some(st) => history_tokens(st.moves@).len() > 0,
        None => false,
    }
}

pub open spec fn view_of(t: Option<String>) -> Option<Seq<char>> {
    match t {
        Some(s) => Some(s@),
        None => None,
    }
}

pub open spec fn last_of(h: Seq<Seq<char>>) -> Option<Seq<char>> {
    if h.len() > 0 {
        Some(h.last())
    } else {
        None
    }
}

pub open spec fn clock_after(c: Clock, elapsed: u64) -> Clock {
    Clock {
        wtime: charged(c.wtime, elapsed),
        btime: charged(c.btime, elapsed),
        winc: c.winc,
        binc: c.binc,
    }
}

impl GameSession {
    /// The settings of a session, which no message changes.
    pub open spec fn same_settings(&self, other: GameSession) -> bool {
        &&& self.game_id == other.game_id
        &&& self.bot_name == other.bot_name
        &&& self.has_engine == other.has_engine
        &&& self.max_book_depth == other.max_book_depth
        &&& self.book_mixed == other.book_mixed
    }

    /// A session for a game that just started. The bot plays White until
    /// the first message says otherwise.
    pub fn new(
        game_id: String,
        bot_name: String,
        has_engine: bool,
        max_book_depth: usize,
        book_mixed: usize,
    ) -> (r: GameSession)
        ensures
            r.game_id == game_id,
            r.bot_name == bot_name,
            r.has_engine == has_engine,
            r.max_book_depth == max_book_depth,
            r.book_mixed == book_mixed,
            r.bot_white,
            r.ponder is Idle,
            r.current_fen is None,
            !r.progressed,
    {
        GameSession {
            game_id,
            bot_name,
            bot_white: true,
            has_engine,
            max_book_depth,
            book_mixed,
            ponder: PonderState::Idle,
            current_fen: None,
            progressed: false,
        }
    }

    /// Chooses what to do in an observed position, given a fallback index
    /// drawn among the legal moves and the reply the book offered, if any.
    /// Book comes before search, and search before the random fallback.
    pub fn decide(&mut self, obs: Observation, fallback: usize, book_move: Option<String>) -> (r:
        Action)
        requires
            obs.legal@.len() > 0 ==> fallback < obs.legal@.len(),
        ensures
            final(self).same_settings(*old(self)),
            final(self).bot_white == old(self).bot_white,
            final(self).current_fen == old(self).current_fen,
            final(self).progressed == old(self).progressed,
            obs.legal@.len() == 0 ==> r is NoLegalMove && final(self).ponder == old(self).ponder,
            obs.legal@.len() > 0 && obs.white_to_move != old(self).bot_white ==> r is Wait
                && final(self).ponder == old(self).ponder,
            obs.legal@.len() > 0 && obs.white_to_move == old(self).bot_white ==> final(self).ponder is Idle,
            obs.legal@.len() > 0 && obs.white_to_move == old(self).bot_white && book_move is Some
                ==> (r matches Action::Play { token, source, discard_ponder } && token
                == book_move->0 && source == MoveSource::Book && discard_ponder
                == old(self).ponder.is_pending()),
            obs.legal@.len() > 0 && obs.white_to_move == old(self).bot_white && book_move is None
                && !old(self).has_engine ==> (r matches Action::Play {
                token,
                source,
                discard_ponder,
            } && token == obs.legal@[fallback as int] && source == MoveSource::RandomFallback
                && discard_ponder == old(self).ponder.is_pending()),
            obs.legal@.len() > 0 && obs.white_to_move == old(self).bot_white && book_move is None
                && old(self).has_engine ==> (r matches Action::Search(req) && req.kind
                == reconciled(old(self).ponder, view_of(obs.last_move)) && req.moves == obs.moves
                && req.clock == obs.clock && req.apply_options == (req.kind != PonderOutcome::Hit)
                && req.legal == obs.legal && req.fallback == fallback),
    {
        if obs.legal.len() == 0 {
            return Action::NoLegalMove;
        }
        if obs.white_to_move != self.bot_white {
            return Action::Wait;
        }
        let pending = match self.ponder {
            PonderState::Pondering(_) => true,
            PonderState::Idle => false,
        };
        match book_move {
            Some(m) => {
                self.ponder = PonderState::Idle;
                Action::Play { token: m, source: MoveSource::Book, discard_ponder: pending }
            },
            None => {
                if !self.has_engine {
                    self.ponder = PonderState::Idle;
                    let token = obs.legal[fallback].clone();
                    Action::Play { token, source: MoveSource::RandomFallback, discard_ponder: pending }
                } else {
                    let kind = self.ponder.reconcile(obs.last_move.as_ref());
                    let apply_options = match kind {
                        PonderOutcome::Hit => false,
                        _ => true,
                    };
                    Action::Search(
                        SearchRequest {
                            kind,
                            moves: obs.moves,
                            clock: obs.clock,
                            apply_options,
                            legal: obs.legal,
                            fallback,
                        },
                    )
                }
            },
        }
    }

    /// Handles one message of the game's stream. The first message tells
    /// the bot's color; every state report is replayed from the initial
    /// position, and on the bot's turn a move is chosen: from the book while
    /// the game is within the book depth, else by the engine if there is one,
    /// else at random among the legal moves.
    pub fn on_update(&mut self, update: &GameUpdate, book: &Book) -> (r: Action)
        ensures
            final(self).same_settings(*old(self)),
            update matches GameUpdate::Full { black, .. } ==> final(self).bot_white == (
            old(self).bot_name@ != black@),
            !(update is Full) ==> final(self).bot_white == old(self).bot_white,
            observed_state(*update) is None ==> r is Wait && *final(self) == *old(self),
            final(self).progressed == (old(self).progressed || moves_seen(*update)),
            observed_state(*update) matches Some(st) ==> ({
                let h = history_tokens(st.moves@);
                &&& r is Fatal <==> !replayable(h)
                &&& r matches Action::Fatal(e) ==> replay_error_of(h, e)
                &&& replayable(h) && legal_after(h).len() > 0 ==> ((r is Play || r is Search) <==> (
                h.len() % 2 == 0) == final(self).bot_white)
                &&& (r is Play || r is Search) ==> (h.len() % 2 == 0) == final(self).bot_white
                &&& !(r is Fatal) ==> (r is NoLegalMove <==> legal_after(h).len() == 0)
                &&& !(r is Fatal) && legal_after(h).len() > 0 ==> ((r is Wait) <==> (h.len() % 2
                    == 0) != final(self).bot_white)
                &&& !(r is Fatal) ==> (final(self).current_fen matches Some(f) && f@ == fen_after(
                    h,
                ))
                &&& (r is Wait || r is Fatal) ==> final(self).ponder == old(self).ponder
                &&& r is Play || r is Search ==> final(self).ponder is Idle
                &&& r matches Action::Play { token, source, .. } ==> (if source == MoveSource::Book {
                    h.len() <= final(self).max_book_depth && book_replies(*book).contains_key(
                        epd_after(h),
                    ) && book_replies(*book)[epd_after(h)].contains(token@)
                } else {
                    !old(self).has_engine && source == MoveSource::RandomFallback
                        && legal_after(h).contains(token@)
                })
                &&& r matches Action::Search(req) ==> old(self).has_engine && req.moves == st.moves
                    && req.clock == st.clock && req.kind == reconciled(old(self).ponder, last_of(h))
                    && req.fallback < req.legal@.len()
                    && req.legal@.map_values(|t: String| t@) == legal_after(h)
                    && req.apply_options == (req.kind != PonderOutcome::Hit)
            }),
    {
        proof {
            reveal_strlit("aborted");
        }
        let state = match update {
            GameUpdate::Full { white: _, black, state } => {
                self.bot_white = !same_text(self.bot_name.as_str(), black.as_str());
                state
            },
            GameUpdate::State(st) => {
                if same_text(st.status.as_str(), "aborted") {
                    return Action::Wait;
                }
                st
            },
            GameUpdate::Other => {
                return Action::Wait;
            },
        };
        let ghost h = history_tokens(state.moves@);
        let tokens = split_moves(state.moves.as_str());
        if tokens.len() > 0 {
            self.progressed = true;
        }
        let board = match replay_tokens(&tokens) {
            Ok(b) => b,
            Err(e) => {
                return Action::Fatal(e);
            },
        };
        self.current_fen = Some(board.fen());
        let legal = board.legal_tokens();
        let plies = tokens.len();
        let last_move = if plies > 0 {
            Some(tokens[plies - 1].clone())
        } else {
            None
        };
        assert(view_of(last_move) == last_of(h));
        let ghost lv = legal@;
        assert(lv.map_values(|t: String| t@).len() == lv.len());
        let white_to_move = board.white_to_move();
        let n = legal.len();
        let fallback = if n > 0 {
            random_below(n)
        } else {
            0
        };
        let book_move = if n > 0 && white_to_move == self.bot_white {
            book_candidate(book, &board, plies, self.max_book_depth, self.book_mixed)
        } else {
            None
        };
        let obs = Observation { moves: state.moves.clone(), last_move, white_to_move, legal, clock: state.clock };
        let r = self.decide(obs, fallback, book_move);
        proof {
            if lv.len() > 0 {
                assert(legal_after(h)[fallback as int] == lv[fallback as int]@);
            }
        }
        r
    }

    /// Takes the engine's answer to a request (`None` if it gave none) and
    /// the milliseconds it took. The engine's move is played if it gave one,
    /// else the fallback; a predicted reply starts a speculative search on
    /// the history, the move played and the prediction, with both clocks
    /// charged for the time spent.
    pub fn on_search_result(
        &mut self,
        request: &SearchRequest,
        outcome: Option<SearchOutcome>,
        elapsed_ms: u64,
    ) -> (r: Reply)
        requires
            request.fallback < request.legal@.len(),
        ensures
            final(self).same_settings(*old(self)),
            final(self).bot_white == old(self).bot_white,
            final(self).current_fen == old(self).current_fen,
            final(self).progressed == old(self).progressed,
            match outcome {
                Some(SearchOutcome { bestmove: Some(b), .. }) => r.token == b && r.source
                    == MoveSource::Search,
                _ => r.token == request.legal@[request.fallback as int] && r.source
                    == MoveSource::RandomFallback,
            },
            r.source == MoveSource::RandomFallback ==> exists|i: int|
                0 <= i < request.legal@.len() && r.token == request.legal@[i],
            match outcome {
                Some(SearchOutcome { ponder: Some(p), .. }) => final(self).ponder
                    == PonderState::Pondering(p) && (r.ponder_job matches Some(job) && job.moves@
                    == extended(extended(request.moves@, r.token@), p@) && job.clock == clock_after(
                    request.clock,
                    elapsed_ms,
                )),
                _ => final(self).ponder is Idle && r.ponder_job is None,
            },
    {
        let fallback = request.legal[request.fallback].clone();
        let (token, source, predicted) = match outcome {
            Some(o) => match o.bestmove {
                Some(b) => (b, MoveSource::Search, o.ponder),
                None => (fallback, MoveSource::RandomFallback, o.ponder),
            },
            None => (fallback, MoveSource::RandomFallback, None),
        };
        let ponder_job = match predicted {
            Some(p) => {
                let played = append_move(request.moves.as_str(), token.as_str());
                let moves = append_move(played.as_str(), p.as_str());
                self.ponder = PonderState::Pondering(p);
                Some(PonderJob { moves, clock: request.clock.after_thinking(elapsed_ms) })
            },
            None => {
                self.ponder = PonderState::Idle;
                None
            },
        };
        Reply { token, source, ponder_job }
    }

    /// Ends the session: any speculation is dropped. Returns whether an
    /// engine is to be told to stop and then to quit.
    pub fn on_stream_end(&mut self) -> (r: bool)
        ensures
            r == old(self).has_engine,
            final(self).ponder is Idle,
            final(self).progressed == old(self).progressed,
            final(self).same_settings(*old(self)),
    {
        self.ponder = PonderState::Idle;
        self.has_engine
    }
}

/// A move played without a book reply and without a move from the engine is
/// one of the legal moves of the position: `on_update` hands the engine the
/// legal moves of the replayed history, and a reply of `on_search_result`
/// from the random fallback is one of them.
pub proof fn law_fallback_is_legal(history: Seq<Seq<char>>, request: SearchRequest, reply: Reply)
    requires
        request.legal@.map_values(|t: String| t@) == legal_after(history),
        exists|i: int| 0 <= i < request.legal@.len() && reply.token == request.legal@[i],
    ensures
        legal_after(history).contains(reply.token@),
{
    let i = choose|i: int| 0 <= i < request.legal@.len() && reply.token == request.legal@[i];
    assert(legal_after(history)[i] == reply.token@);
}

} // verus!
