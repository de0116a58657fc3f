use vstd::prelude::*;

use pgnparse::parser::Book;

use crate::board::{epd_after, fen_after, replay_error_of, replayable, ReplayError};
use crate::book::{book_of_owner, book_replies, book_with_depth, empty_book};
use crate::history::{history_tokens, replay};
use crate::policy::{
    evaluate, reported_code, violations, AcceptancePolicy, Challenge, DeclineCode, Violation,
};
use crate::session::GameSession;
use crate::text::same_text;

verus! {

/// Book depth, in plies, used until configured otherwise.
pub const DEFAULT_BOOK_DEPTH: usize = 20;

/// Share, out of 100, of book draws weighted by plays rather than by
/// performance, used until configured otherwise.
pub const DEFAULT_BOOK_MIXED: usize = 90;

/// Plays a space-separated history of UCI moves from the initial position
/// and returns the FEN and the EPD of the position reached. It fails exactly
/// when some move is not UCI text or not legal after the moves before it,
/// with the error of the first such move.
pub fn make_uci_moves(ucis: &str) -> (r: Result<(String, String), ReplayError>)
    ensures
        r is Ok <==> replayable(history_tokens(ucis@)),
        r matches Err(e) ==> replay_error_of(history_tokens(ucis@), e),
        r matches Ok((fen, epd)) ==> fen@ == fen_after(history_tokens(ucis@)) && epd@ == epd_after(
            history_tokens(ucis@),
        ),
{
    match replay(ucis) {
        Ok(board) => Ok((board.fen(), board.epd())),
        Err(e) => Err(e),
    }
}

/// Status of the bot, mirrored for outside inspection.
#[derive(Clone, Debug)]
pub struct BotState {
    /// FEN of the position the bot last looked at.
    pub current_fen: Option<String>,
    /// Whether the engine is thinking.
    pub engine_thinking: bool,
    /// Whether the event stream is being consumed.
    pub streaming: bool,
}

impl BotState {
    pub fn default() -> (r: BotState)
        ensures
            r.current_fen is None,
            !r.engine_thinking,
            !r.streaming,
    {
        BotState { current_fen: None, engine_thinking: false, streaming: false }
    }

    /// Sets the current FEN.
    pub fn set_current_fen(self, fen: Option<String>) -> (r: BotState)
        ensures
            r.current_fen == fen,
            r.engine_thinking == self.engine_thinking,
            r.streaming == self.streaming,
    {
        BotState { current_fen: fen, ..self }
    }

    /// Sets whether the engine is thinking.
    pub fn set_engine_thinking(self, engine_thinking: bool) -> (r: BotState)
        ensures
            r.current_fen == self.current_fen,
            r.engine_thinking == engine_thinking,
            r.streaming == self.streaming,
    {
        BotState { engine_thinking, ..self }
    }

    /// Sets whether the event stream is being consumed.
    pub fn set_streaming(self, streaming: bool) -> (r: BotState)
        ensures
            r.current_fen == self.current_fen,
            r.engine_thinking == self.engine_thinking,
            r.streaming == streaming,
    {
        BotState { streaming, ..self }
    }
}

/// An event of the account's stream.
#[derive(Clone, Debug)]
pub enum AccountEvent {
    Challenge(Challenge),
    GameStart { game_id: String },
    /// Any other event, which the bot ignores.
    Other,
}

/// What to do about an account event.
#[derive(Clone, Debug)]
pub enum Dispatch {
    Accept { challenge_id: String },
    Decline { challenge_id: String, code: DeclineCode, reasons: Vec<Violation> },
    Play { game_id: String },
    Ignore,
}

/// Engine option names and values, each name at most once.
pub open spec fn options_unique(opts: Seq<(String, String)>) -> bool {
    forall|i: int, j: int|
        0 <= i < opts.len() && 0 <= j < opts.len() && i != j ==> (#[trigger] opts[i]).0@ != (
        #[trigger] opts[j]).0@
}

pub open spec fn option_views(opts: Seq<(String, String)>) -> Seq<(Seq<char>, Seq<char>)> {
    opts.map_values(|p: (String, String)| (p.0@, p.1@))
}

/// Whether `i` is the position of the first option named `key`.
pub open spec fn first_named(opts: Seq<(String, String)>, key: Seq<char>, i: int) -> bool {
    0 <= i < opts.len() && opts[i].0@ == key && forall|j: int|
        0 <= j < i ==> (#[trigger] opts[j]).0@ != key
}

/// Position of the first option named `key`, if there is one.
pub open spec fn option_index(opts: Seq<(String, String)>, key: Seq<char>) -> Option<int> {
    if exists|i: int| first_named(opts, key, i) {
        Some(choose|i: int| first_named(opts, key, i))
    } else {
        None
    }
}

proof fn lemma_option_index(opts: Seq<(String, String)>, key: Seq<char>, i: int)
    requires
        0 <= i <= opts.len(),
        forall|j: int| 0 <= j < i ==> (#[trigger] opts[j]).0@ != key,
        i < opts.len() ==> opts[i].0@ == key,
    ensures
        i < opts.len() ==> option_index(opts, key) == Some(i),
        i == opts.len() ==> option_index(opts, key) is None,
{
    if i < opts.len() {
        assert(first_named(opts, key, i));
        let k = choose|k: int| first_named(opts, key, k);
        if k < i {
            assert(opts[k].0@ != key);
        }
        if k > i {
            assert(opts[i].0@ != key);
        }
        assert(k == i);
    } else {
        if exists|k: int| first_named(opts, key, k) {
            let k = choose|k: int| first_named(opts, key, k);
            assert(opts[k].0@ != key);
        }
    }
}

/// The bot's profile: its account name, its engine, its engine options, the
/// challenges it accepts and its opening book.
pub struct LichessBot {
    /// Account name of the bot.
    pub bot_name: String,
    /// Engine executable, if the bot has one.
    pub engine_name: Option<String>,
    /// Fixed engine options.
    pub uci_options: Vec<(String, String)>,
    /// Which challenges to accept.
    pub policy: AcceptancePolicy,
    /// Opening book.
    pub book: Book,
    /// The book is consulted while at most this many plies are played.
    pub max_book_depth: usize,
    /// Share, out of 100, of book draws weighted by plays.
    pub book_mixed: usize,
}

impl LichessBot {
    pub open spec fn well_formed(&self) -> bool {
        options_unique(self.uci_options@)
    }

    /// A bot with an empty book and a policy that accepts only what no flag
    /// restricts: blitz, bullet and rated games of standard chess.
    pub fn new(bot_name: String, engine_name: Option<String>) -> (r: LichessBot)
        ensures
            r.well_formed(),
            r.bot_name == bot_name,
            r.engine_name == engine_name,
            r.uci_options@.len() == 0,
            r.policy == (AcceptancePolicy {
                enable_classical: false,
                enable_rapid: false,
                disable_blitz: false,
                disable_bullet: false,
                enable_ultrabullet: false,
                enable_casual: false,
                disable_rated: false,
            }),
            book_replies(r.book).dom() == Set::<Seq<char>>::empty(),
            r.max_book_depth == DEFAULT_BOOK_DEPTH,
            r.book_mixed == DEFAULT_BOOK_MIXED,
    {
        let book = book_with_depth(book_of_owner(empty_book(), bot_name.as_str()), DEFAULT_BOOK_DEPTH);
        LichessBot {
            bot_name,
            engine_name,
            uci_options: Vec::new(),
            policy: AcceptancePolicy {
                enable_classical: false,
                enable_rapid: false,
                disable_blitz: false,
                disable_bullet: false,
                enable_ultrabullet: false,
                enable_casual: false,
                disable_rated: false,
            },
            book,
            max_book_depth: DEFAULT_BOOK_DEPTH,
            book_mixed: DEFAULT_BOOK_MIXED,
        }
    }

    /// Sets how many plies deep the book is read and consulted.
    pub fn max_book_depth(self, max_book_depth: usize) -> (r: LichessBot)
        ensures
            r.max_book_depth == max_book_depth,
            book_replies(r.book) == book_replies(self.book),
            r.bot_name == self.bot_name,
            r.engine_name == self.engine_name,
            r.uci_options == self.uci_options,
            r.policy == self.policy,
            r.book_mixed == self.book_mixed,
    {
        let LichessBot { bot_name, engine_name, uci_options, policy, book, max_book_depth: _, book_mixed } = self;
        LichessBot {
            bot_name,
            engine_name,
            uci_options,
            policy,
            book: book_with_depth(book, max_book_depth),
            max_book_depth,
            book_mixed,
        }
    }

    /// The whole profile but the acceptance policy is the same.
    pub open spec fn same_but_policy(&self, other: LichessBot) -> bool {
        &&& self.bot_name == other.bot_name
        &&& self.engine_name == other.engine_name
        &&& self.uci_options == other.uci_options
        &&& self.book == other.book
        &&& self.max_book_depth == other.max_book_depth
        &&& self.book_mixed == other.book_mixed
    }

    /// Sets whether classical games are accepted.
    pub fn enable_classical(self, value: bool) -> (r: LichessBot)
        ensures
            r.same_but_policy(self),
            r.policy == (AcceptancePolicy { enable_classical: value, ..self.policy }),
    {
        let policy = AcceptancePolicy { enable_classical: value, ..self.policy };
        LichessBot { policy, ..self }
    }

    /// Sets whether rapid games are accepted.
    pub fn enable_rapid(self, value: bool) -> (r: LichessBot)
        ensures
            r.same_but_policy(self),
            r.policy == (AcceptancePolicy { enable_rapid: value, ..self.policy }),
    {
        let policy = AcceptancePolicy { enable_rapid: value, ..self.policy };
        LichessBot { policy, ..self }
    }

    /// Sets whether blitz games are refused.
    pub fn disable_blitz(self, value: bool) -> (r: LichessBot)
        ensures
            r.same_but_policy(self),
            r.policy == (AcceptancePolicy { disable_blitz: value, ..self.policy }),
    {
        let policy = AcceptancePolicy { disable_blitz: value, ..self.policy };
        LichessBot { policy, ..self }
    }

    /// Sets whether bullet games are refused.
    pub fn disable_bullet(self, value: bool) -> (r: LichessBot)
        ensures
            r.same_but_policy(self),
            r.policy == (AcceptancePolicy { disable_bullet: value, ..self.policy }),
    {
        let policy = AcceptancePolicy { disable_bullet: value, ..self.policy };
        LichessBot { policy, ..self }
    }

    /// Sets whether ultrabullet games are accepted.
    pub fn enable_ultrabullet(self, value: bool) -> (r: LichessBot)
        ensures
            r.same_but_policy(self),
            r.policy == (AcceptancePolicy { enable_ultrabullet: value, ..self.policy }),
    {
        let policy = AcceptancePolicy { enable_ultrabullet: value, ..self.policy };
        LichessBot { policy, ..self }
    }

    /// Sets whether casual games are accepted.
    pub fn enable_casual(self, value: bool) -> (r: LichessBot)
        ensures
            r.same_but_policy(self),
            r.policy == (AcceptancePolicy { enable_casual: value, ..self.policy }),
    {
        let policy = AcceptancePolicy { enable_casual: value, ..self.policy };
        LichessBot { policy, ..self }
    }

    /// Sets whether rated games are refused.
    pub fn disable_rated(self, value: bool) -> (r: LichessBot)
        ensures
            r.same_but_policy(self),
            r.policy == (AcceptancePolicy { disable_rated: value, ..self.policy }),
    {
        let policy = AcceptancePolicy { disable_rated: value, ..self.policy };
        LichessBot { policy, ..self }
    }

    /// Sets an engine option, replacing the value of the first option of the
    /// same name or else adding the option at the end.
    pub fn uci_opt(self, key: &str, value: &str) -> (r: LichessBot)
        ensures
            self.well_formed() ==> r.well_formed(),
            r.same_but_options(self),
            match option_index(self.uci_options@, key@) {
                Some(i) => option_views(r.uci_options@) == option_views(self.uci_options@).update(
                    i,
                    (key@, value@),
                ),
                None => option_views(r.uci_options@) == option_views(self.uci_options@).push(
                    (key@, value@),
                ),
            },
    {
        let LichessBot { bot_name, engine_name, uci_options, policy, book, max_book_depth, book_mixed } = self;
        let mut opts = uci_options;
        let ghost before = opts@;
        let mut i: usize = 0;
        while i < opts.len()
            invariant
                opts@ == before,
                i <= opts@.len(),
                forall|j: int| 0 <= j < i ==> (#[trigger] opts@[j]).0@ != key@,
            ensures
                opts@ == before,
                i <= opts@.len(),
                forall|j: int| 0 <= j < i ==> (#[trigger] opts@[j]).0@ != key@,
                i < opts@.len() ==> opts@[i as int].0@ == key@,
            decreases opts@.len() - i,
        {
            if same_text(opts[i].0.as_str(), key) {
                break;
            }
            i = i + 1;
        }
        proof {
            lemma_option_index(before, key@, i as int);
        }
        let entry = (key.to_owned(), value.to_owned());
        if i < opts.len() {
            opts.set(i, entry);
        } else {
            opts.push(entry);
        }
        assert(option_views(opts@) =~= match option_index(before, key@) {
            Some(k) => option_views(before).update(k, (key@, value@)),
            None => option_views(before).push((key@, value@)),
        });
        LichessBot { bot_name, engine_name, uci_options: opts, policy, book, max_book_depth, book_mixed }
    }

    /// The whole profile but the engine options is the same.
    pub open spec fn same_but_options(&self, other: LichessBot) -> bool {
        &&& self.bot_name == other.bot_name
        &&& self.engine_name == other.engine_name
        &&& self.policy == other.policy
        &&& self.book == other.book
        &&& self.max_book_depth == other.max_book_depth
        &&& self.book_mixed == other.book_mixed
    }

    /// Decides what to do about an account event: accept or decline a
    /// challenge under the policy, play a game that starts, ignore the rest.
    pub fn dispatch(&self, event: &AccountEvent) -> (r: Dispatch)
        ensures
            match *event {
                AccountEvent::Challenge(c) => if violations(c, self.policy).len() == 0 {
                    r matches Dispatch::Accept { challenge_id } && challenge_id == c.id
                } else {
                    r matches Dispatch::Decline { challenge_id, code, reasons } && challenge_id
                        == c.id && code == reported_code(violations(c, self.policy)) && reasons@
                        == violations(c, self.policy)
                },
                AccountEvent::GameStart { game_id } => r matches Dispatch::Play { game_id: g } && g
                    == game_id,
                AccountEvent::Other => r is Ignore,
            },
    {
        match event {
            AccountEvent::Challenge(c) => {
                let d = evaluate(c, &self.policy);
                if d.accept {
                    Dispatch::Accept { challenge_id: c.id.clone() }
                } else {
                    Dispatch::Decline { challenge_id: c.id.clone(), code: d.decline_code, reasons: d.reasons }
                }
            },
            AccountEvent::GameStart { game_id } => Dispatch::Play { game_id: game_id.clone() },
            AccountEvent::Other => Dispatch::Ignore,
        }
    }

    /// A controller for a game that starts, with this profile's settings.
    pub fn start_session(&self, game_id: String) -> (r: GameSession)
        ensures
            r.game_id == game_id,
            r.bot_name == self.bot_name,
            r.has_engine == (self.engine_name is Some),
            r.max_book_depth == self.max_book_depth,
            r.book_mixed == self.book_mixed,
            r.bot_white,
            r.ponder is Idle,
            r.current_fen is None,
            !r.progressed,
    {
        let has_engine = match self.engine_name {
            Some(_) => true,
            None => false,
        };
        GameSession::new(game_id, self.bot_name.clone(), has_engine, self.max_book_depth, self.book_mixed)
    }
}

} // verus!
