use vstd::prelude::*;

use shakmaty::uci::Uci;
use shakmaty::{Chess, Color, Move, Position, Setup};

verus! {

#[verifier::external_type_specification]
#[verifier::external_body]
pub struct ExChess(Chess);

#[verifier::external_type_specification]
#[verifier::external_body]
pub struct ExMove(Move);

pub open spec fn is_file_char(c: char) -> bool {
    'a' <= c <= 'h'
}

pub open spec fn is_rank_char(c: char) -> bool {
    '1' <= c <= '8'
}

/// `p n b r q k`, in either case.
pub open spec fn is_role_char(c: char) -> bool {
    c == 'p' || c == 'P' || c == 'n' || c == 'N' || c == 'b' || c == 'B' || c == 'r' || c == 'R'
        || c == 'q' || c == 'Q' || c == 'k' || c == 'K'
}

/// Well-formed UCI move text: four or five ASCII characters forming a null
/// move `0000`, a drop such as `Q@f7` (a fifth character is ignored), or a
/// move such as `e2e4` or `e7e8q`.
pub open spec fn uci_text(t: Seq<char>) -> bool {
    &&& t.len() == 4 || t.len() == 5
    &&& forall|i: int| 0 <= i < t.len() ==> (t[i] as u32) < 128
    &&& t =~= seq!['0', '0', '0', '0'] || (is_file_char(t[2]) && is_rank_char(t[3]) && if t[1]
        == '@' {
        is_role_char(t[0])
    } else {
        is_file_char(t[0]) && is_rank_char(t[1]) && (t.len() == 5 ==> is_role_char(t[4]))
    })
}

/// FEN of the position reached by playing a history from the initial position.
pub uninterp spec fn fen_after(history: Seq<Seq<char>>) -> Seq<char>;

/// EPD (the FEN without move counters) of the position reached by playing a
/// history from the initial position. It is the key of the opening book.
pub uninterp spec fn epd_after(history: Seq<Seq<char>>) -> Seq<char>;

/// Whether UCI move text denotes a legal move in the position reached by
/// playing a history from the initial position.
pub uninterp spec fn legal_uci_after(history: Seq<Seq<char>>, token: Seq<char>) -> bool;

/// A history every move of which is UCI text and legal after the moves
/// before it.
pub open spec fn replayable(history: Seq<Seq<char>>) -> bool {
    forall|i: int|
        0 <= i < history.len() ==> uci_text(#[trigger] history[i]) && legal_uci_after(
            history.take(i),
            history[i],
        )
}

/// `i` is the first move of a history that is not UCI text or not legal
/// after the moves before it.
pub open spec fn first_failure(history: Seq<Seq<char>>, i: int) -> bool {
    &&& 0 <= i < history.len()
    &&& !(uci_text(history[i]) && legal_uci_after(history.take(i), history[i]))
    &&& replayable(history.take(i))
}

/// The error replaying a history gives: at its first failing move,
/// `Unparsable` if that move is not UCI text, else `Illegal`.
pub open spec fn replay_error_of(history: Seq<Seq<char>>, e: ReplayError) -> bool {
    exists|i: int|
        first_failure(history, i) && (e == ReplayError::Unparsable <==> !uci_text(
            #[trigger] history[i],
        ))
}

/// The legal moves, as UCI text, of the position reached by playing a
/// history from the initial position, in the order the rules library
/// generates them.
pub uninterp spec fn legal_after(history: Seq<Seq<char>>) -> Seq<Seq<char>>;

/// Why a move history cannot be replayed.
#[derive(Clone, Copy, Debug, PartialEq, Eq, Structural)]
pub enum ReplayError {
    /// A token is not UCI move text.
    Unparsable,
    /// A token is not a legal move in the position it is played in.
    Illegal,
}

/// A standard chess position together with the moves that led to it from
/// the initial position. It is made only by `Board::initial` and
/// `Board::play`, so the position is always the one its history reaches.
pub struct Board {
    chess: Chess,
    played: Ghost<Seq<Seq<char>>>,
}

impl View for Board {
    type V = Seq<Seq<char>>;

    closed spec fn view(&self) -> Seq<Seq<char>> {
        self.played@
    }
}

/// Relies on `Chess::default`: the standard initial position.
#[verifier::external_body]
fn initial_chess() -> (r: Chess) {
    Chess::default()
}

/// Relies on `Uci::from_str` (`Uci::from_ascii`), which accepts exactly the
/// well-formed move texts. It reads bytes: four or five of them, all ASCII
/// in any text it accepts, so bytes and characters coincide there.
#[verifier::external_body]
fn is_uci_text(token: &str) -> (r: bool)
    ensures
        r == uci_text(token@),
{
    token.parse::<Uci>().is_ok()
}

/// Relies on `Uci::to_move`, applied to the parse of `token`: the move it
/// denotes, if the text is well formed and the move is legal in the board's
/// position. That position is the one the board's history reaches, so the
/// outcome depends on the history and the text alone.
#[verifier::external_body]
fn legal_move_for(b: &Board, token: &str) -> (r: Option<Move>)
    ensures
        (r is Some) == (uci_text(token@) && legal_uci_after(b@, token@)),
{
    match token.parse::<Uci>() {
        Ok(uci) => uci.to_move(&b.chess).ok(),
        Err(_) => None,
    }
}

/// Relies on `Position::play_unchecked`, which plays a move without testing
/// it and cannot fail. It is handed only moves that `Uci::to_move` found
/// legal in the same position, for which it does what `Position::play` does.
#[verifier::external_body]
fn play_legal(pos: &Chess, m: &Move) -> (r: Chess) {
    let mut next = pos.clone();
    next.play_unchecked(m);
    next
}

/// Relies on `shakmaty::fen::fen`. The board's position is the one its
/// history reaches, so the text depends on the history alone.
#[verifier::external_body]
fn fen_of(b: &Board) -> (r: String)
    ensures
        r@ == fen_after(b@),
{
    shakmaty::fen::fen(&b.chess)
}

/// Relies on `shakmaty::fen::epd`. The board's position is the one its
/// history reaches, so the text depends on the history alone.
#[verifier::external_body]
fn epd_of(b: &Board) -> (r: String)
    ensures
        r@ == epd_after(b@),
{
    shakmaty::fen::epd(&b.chess)
}

/// Relies on `Setup::turn`. In standard chess White moves first and every
/// legal move passes the turn, so White is to move after an even number of
/// plies.
#[verifier::external_body]
fn white_to_move_on(b: &Board) -> (r: bool)
    ensures
        r == (b@.len() % 2 == 0),
{
    match b.chess.turn() {
        Color::White => true,
        Color::Black => false,
    }
}

/// Relies on `Position::legal_moves`, each move written by
/// `Uci::from_standard` and its `Display`: the legal moves of the board's
/// position, as UCI text (a from square and a to square, with a promotion
/// letter where there is one; castling as the king's move). The board's
/// position is the one its history reaches, so the list depends on the
/// history alone.
#[verifier::external_body]
fn legal_texts(b: &Board) -> (r: Vec<String>)
    ensures
        r@.map_values(|t: String| t@) == legal_after(b@),
{
    b.chess.legal_moves().iter().map(|m| Uci::from_standard(m).to_string()).collect()
}

impl Board {
    /// The initial position, with no move played.
    pub fn initial() -> (r: Board)
        ensures
            r@ == Seq::<Seq<char>>::empty(),
    {
        Board { chess: initial_chess(), played: Ghost(Seq::empty()) }
    }

    /// Plays one UCI move token. It fails as `Unparsable` on text that is
    /// not UCI, and as `Illegal` on a move the position does not allow.
    pub fn play(&self, token: &str) -> (r: Result<Board, ReplayError>)
        ensures
            r is Ok <==> uci_text(token@) && legal_uci_after(self@, token@),
            r matches Ok(next) ==> next@ == self@.push(token@),
            r matches Err(e) ==> (e == ReplayError::Unparsable <==> !uci_text(token@)),
    {
        if !is_uci_text(token) {
            return Err(ReplayError::Unparsable);
        }
        match legal_move_for(self, token) {
            None => Err(ReplayError::Illegal),
            Some(m) => Ok(
                Board { chess: play_legal(&self.chess, &m), played: Ghost(self.played@.push(token@)) },
            ),
        }
    }

    /// FEN of the position.
    pub fn fen(&self) -> (r: String)
        ensures
            r@ == fen_after(self@),
    {
        fen_of(self)
    }

    /// EPD of the position: the key under which the opening book lists it.
    pub fn epd(&self) -> (r: String)
        ensures
            r@ == epd_after(self@),
    {
        epd_of(self)
    }

    /// Whether White is the side to move.
    pub fn white_to_move(&self) -> (r: bool)
        ensures
            r == (self@.len() % 2 == 0),
    {
        white_to_move_on(self)
    }

    /// The legal moves of the position as UCI move tokens.
    pub fn legal_tokens(&self) -> (r: Vec<String>)
        ensures
            r@.map_values(|t: String| t@) == legal_after(self@),
    {
        legal_texts(self)
    }
}

} // verus!
