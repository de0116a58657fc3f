use vstd::prelude::*;

use crate::board::{
    epd_after, first_failure, legal_uci_after, replay_error_of, replayable, uci_text, Board,
    ReplayError,
};

verus! {

/// The pieces of a string cut at every space, as `str::split(' ')` gives
/// them: `""` is one empty piece and two adjacent spaces leave an empty
/// piece between them.
pub open spec fn fields(s: Seq<char>) -> Seq<Seq<char>>
    decreases s.len(),
{
    if s.len() == 0 {
        seq![Seq::empty()]
    } else {
        let rest = fields(s.drop_last());
        if s.last() == ' ' {
            rest.push(Seq::empty())
        } else {
            rest.update(rest.len() - 1, rest.last().push(s.last()))
        }
    }
}

/// The move tokens of a space-separated history; the empty history has none.
pub open spec fn history_tokens(s: Seq<char>) -> Seq<Seq<char>> {
    if s.len() == 0 {
        Seq::empty()
    } else {
        fields(s)
    }
}

/// A history extended by one move token.
pub open spec fn extended(s: Seq<char>, token: Seq<char>) -> Seq<char> {
    if s.len() == 0 {
        token
    } else {
        s + seq![' '] + token
    }
}

pub open spec fn has_no_space(t: Seq<char>) -> bool {
    forall|i: int| 0 <= i < t.len() ==> t[i] != ' '
}

proof fn lemma_fields_step(s: Seq<char>, i: int)
    requires
        0 <= i < s.len(),
    ensures
        s.take(i + 1).drop_last() =~= s.take(i),
        s.take(i + 1).last() == s[i],
{
}

/// Cuts a history at its spaces into move tokens.
pub fn split_moves(moves: &str) -> (r: Vec<String>)
    ensures
        r@.map_values(|t: String| t@) == history_tokens(moves@),
{
    let n = moves.unicode_len();
    let mut out: Vec<String> = Vec::new();
    if n == 0 {
        assert(out@.map_values(|t: String| t@) =~= history_tokens(moves@));
        return out;
    }
    let mut start: usize = 0;
    let mut i: usize = 0;
    assert(moves@.take(0) =~= Seq::<char>::empty());
    assert(out@.map_values(|t: String| t@).push(moves@.subrange(0, 0)) =~= fields(
        moves@.take(0),
    ));
    while i < n
        invariant
            n == moves@.len(),
            start <= i <= n,
            fields(moves@.take(i as int)) == out@.map_values(|t: String| t@).push(
                moves@.subrange(start as int, i as int),
            ),
        decreases n - i,
    {
        proof {
            lemma_fields_step(moves@, i as int);
        }
        let c = moves.get_char(i);
        if c == ' ' {
            let piece = moves.substring_char(start, i).to_owned();
            let ghost before = out@.map_values(|t: String| t@);
            out.push(piece);
            assert(out@.map_values(|t: String| t@) =~= before.push(piece@));
            assert(moves@.subrange((i + 1) as int, (i + 1) as int) =~= Seq::<char>::empty());
            start = i + 1;
        } else {
            assert(moves@.subrange(start as int, i + 1) =~= moves@.subrange(
                start as int,
                i as int,
            ).push(c));
            assert(fields(moves@.take(i + 1)) =~= out@.map_values(|t: String| t@).push(
                moves@.subrange(start as int, i + 1),
            ));
        }
        i = i + 1;
    }
    let last = moves.substring_char(start, n).to_owned();
    let ghost before = out@.map_values(|t: String| t@);
    out.push(last);
    assert(moves@.take(n as int) =~= moves@);
    assert(out@.map_values(|t: String| t@) =~= before.push(last@));
    out
}

/// Plays move tokens one at a time from the initial position. It succeeds
/// exactly when every token is UCI text and legal after those before it;
/// otherwise the error comes from the first token that is not.
pub fn replay_tokens(tokens: &Vec<String>) -> (r: Result<Board, ReplayError>)
    ensures
        r is Ok <==> replayable(tokens@.map_values(|t: String| t@)),
        r matches Ok(b) ==> b@ == tokens@.map_values(|t: String| t@),
        r matches Err(e) ==> replay_error_of(tokens@.map_values(|t: String| t@), e),
{
    let ghost toks = tokens@.map_values(|t: String| t@);
    let mut board = Board::initial();
    let mut i: usize = 0;
    assert(toks.take(0) =~= Seq::<Seq<char>>::empty());
    while i < tokens.len()
        invariant
            toks == tokens@.map_values(|t: String| t@),
            i <= tokens@.len(),
            board@ == toks.take(i as int),
            replayable(toks.take(i as int)),
        decreases tokens@.len() - i,
    {
        let next = board.play(tokens[i].as_str());
        assert(tokens@[i as int]@ == toks[i as int]);
        match next {
            Ok(b) => {
                assert(toks.take(i + 1) =~= toks.take(i as int).push(toks[i as int]));
                assert forall|j: int| 0 <= j < i + 1 implies uci_text(
                    #[trigger] toks.take(i + 1)[j],
                ) && legal_uci_after(toks.take(i + 1).take(j), toks.take(i + 1)[j]) by {
                    if j < i {
                        assert(toks.take(i + 1).take(j) =~= toks.take(i as int).take(j));
                        assert(toks.take(i as int)[j] == toks.take(i + 1)[j]);
                    } else {
                        assert(toks.take(i + 1).take(j) =~= toks.take(i as int));
                    }
                }
                board = b;
            },
            Err(e) => {
                assert(first_failure(toks, i as int));
                proof {
                    lemma_not_replayable(toks, i as int);
                }
                return Err(e);
            },
        }
        i = i + 1;
    }
    assert(toks.take(i as int) =~= toks);
    Ok(board)
}

proof fn lemma_not_replayable(h: Seq<Seq<char>>, i: int)
    requires
        first_failure(h, i),
    ensures
        !replayable(h),
{
    assert(h.take(i) =~= h.take(i));
    if replayable(h) {
        assert(uci_text(h[i]) && legal_uci_after(h.take(i), h[i]));
    }
}

/// Replays a space-separated history from the initial position; see
/// `replay_tokens` for when it fails.
pub fn replay(moves: &str) -> (r: Result<Board, ReplayError>)
    ensures
        r is Ok <==> replayable(history_tokens(moves@)),
        r matches Ok(b) ==> b@ == history_tokens(moves@),
        r matches Err(e) ==> replay_error_of(history_tokens(moves@), e),
{
    let tokens = split_moves(moves);
    replay_tokens(&tokens)
}

/// Appends a move token to a space-separated history.
pub fn append_move(moves: &str, token: &str) -> (r: String)
    ensures
        r@ == extended(moves@, token@),
{
    if moves.unicode_len() == 0 {
        token.to_owned()
    } else {
        let spaced = moves.to_owned().concat(" ");
        proof {
            reveal_strlit(" ");
        }
        let r = spaced.concat(token);
        assert(r@ =~= moves@ + seq![' '] + token@);
        r
    }
}

proof fn lemma_fields_append_word(s: Seq<char>, t: Seq<char>)
    requires
        has_no_space(t),
    ensures
        fields(s + t) == fields(s).update(
            fields(s).len() - 1,
            fields(s).last() + t,
        ),
        fields(s).len() >= 1,
    decreases t.len(),
{
    lemma_fields_nonempty(s);
    if t.len() == 0 {
        assert(s + t =~= s);
        assert(fields(s).last() + t =~= fields(s).last());
        assert(fields(s).update(fields(s).len() - 1, fields(s).last()) =~= fields(s));
    } else {
        let u = t.drop_last();
        lemma_fields_append_word(s, u);
        assert((s + t).drop_last() =~= s + u);
        assert((s + t).last() == t.last());
        lemma_fields_nonempty(s + u);
        assert(t.last() != ' ');
        let rest = fields(s + u);
        let l = fields(s).len();
        assert(rest.len() == l);
        assert(rest.last() == fields(s).last() + u);
        assert(fields(s + t) == rest.update(l - 1, rest.last().push(t.last())));
        assert(fields(s).last() + u + seq![t.last()] =~= fields(s).last() + t);
        assert(rest.last().push(t.last()) =~= fields(s).last() + t);
        assert(fields(s + t) =~= fields(s).update(fields(s).len() - 1, fields(s).last() + t));
    }
}

proof fn lemma_fields_nonempty(s: Seq<char>)
    ensures
        fields(s).len() >= 1,
    decreases s.len(),
{
    if s.len() > 0 {
        lemma_fields_nonempty(s.drop_last());
    }
}

/// Extending a history by one move token adds exactly that token to the
/// moves read back from it: replaying the longer history from scratch plays
/// the same moves as playing the token on the replay of the shorter one.
pub proof fn law_append_then_split(s: Seq<char>, token: Seq<char>)
    requires
        token.len() > 0,
        has_no_space(token),
    ensures
        history_tokens(extended(s, token)) == history_tokens(s).push(token),
{
    if s.len() == 0 {
        lemma_fields_append_word(Seq::empty(), token);
        assert(Seq::<char>::empty() + token =~= token);
        assert(fields(Seq::<char>::empty()).update(0, Seq::<char>::empty() + token) =~= seq![token]);
        assert(history_tokens(s).push(token) =~= seq![token]);
    } else {
        let sp = s + seq![' '];
        assert(sp.drop_last() =~= s);
        lemma_fields_append_word(sp, token);
        assert(sp + token =~= s + seq![' '] + token);
        assert(fields(sp) == fields(s).push(Seq::empty()));
        assert(Seq::<char>::empty() + token =~= token);
        assert(fields(sp).update(fields(sp).len() - 1, fields(sp).last() + token) =~= fields(
            s,
        ).push(token));
    }
}

/// The position key reached by a history extended by one move is the key
/// reached by the moves of the history followed by that move: replaying
/// from scratch and extending by one move agree.
pub proof fn law_key_of_extended_history(s: Seq<char>, token: Seq<char>)
    requires
        token.len() > 0,
        has_no_space(token),
    ensures
        epd_after(history_tokens(extended(s, token))) == epd_after(history_tokens(s).push(token)),
{
    law_append_then_split(s, token);
}

/// The history text built from the empty history by appending moves one at
/// a time.
pub open spec fn joined(moves: Seq<Seq<char>>) -> Seq<char>
    decreases moves.len(),
{
    if moves.len() == 0 {
        Seq::empty()
    } else {
        extended(joined(moves.drop_last()), moves.last())
    }
}

proof fn lemma_joined_round_trip(moves: Seq<Seq<char>>)
    requires
        forall|i: int| 0 <= i < moves.len() ==> (#[trigger] moves[i]).len() > 0 && has_no_space(
            moves[i],
        ),
    ensures
        history_tokens(joined(moves)) == moves,
    decreases moves.len(),
{
    if moves.len() > 0 {
        let init = moves.drop_last();
        assert forall|i: int| 0 <= i < init.len() implies (#[trigger] init[i]).len() > 0
            && has_no_space(init[i]) by {
            assert(init[i] == moves[i]);
        }
        lemma_joined_round_trip(init);
        assert(moves.last() == moves[moves.len() - 1]);
        law_append_then_split(joined(init), moves.last());
        assert(init.push(moves.last()) =~= moves);
    }
}

/// Starting from the empty history and appending moves one at a time, the
/// history read back after any number of appends is exactly the moves
/// appended so far: replaying from scratch at every prefix agrees with
/// extending move by move.
pub proof fn law_prefix_round_trip(moves: Seq<Seq<char>>, k: int)
    requires
        forall|i: int| 0 <= i < moves.len() ==> (#[trigger] moves[i]).len() > 0 && has_no_space(
            moves[i],
        ),
        0 <= k <= moves.len(),
    ensures
        history_tokens(joined(moves.take(k))) == moves.take(k),
        epd_after(history_tokens(joined(moves.take(k)))) == epd_after(moves.take(k)),
{
    let prefix = moves.take(k);
    assert forall|i: int| 0 <= i < prefix.len() implies (#[trigger] prefix[i]).len() > 0
        && has_no_space(prefix[i]) by {
        assert(prefix[i] == moves[i]);
    }
    lemma_joined_round_trip(prefix);
}

proof fn lemma_prefix_replayable(moves: Seq<Seq<char>>, k: int)
    requires
        replayable(moves),
        0 <= k <= moves.len(),
    ensures
        replayable(moves.take(k)),
{
    let p = moves.take(k);
    assert forall|i: int| 0 <= i < p.len() implies uci_text(#[trigger] p[i]) && legal_uci_after(
        p.take(i),
        p[i],
    ) by {
        assert(p[i] == moves[i]);
        assert(p.take(i) =~= moves.take(i));
    }
}

/// When a history replays, so does each of its prefixes, and the prefix of
/// `k + 1` moves read back from its text is the prefix of `k` moves with
/// move `k` played on top, a move that is UCI text and legal there: replaying
/// the longer text from scratch reaches the board that playing move `k` on the
/// replay of the shorter one reaches, with the same position key.
pub proof fn law_replay_prefixes(moves: Seq<Seq<char>>, k: int)
    requires
        forall|i: int| 0 <= i < moves.len() ==> (#[trigger] moves[i]).len() > 0 && has_no_space(
            moves[i],
        ),
        replayable(moves),
        0 <= k < moves.len(),
    ensures
        replayable(history_tokens(joined(moves.take(k)))),
        uci_text(moves[k]) && legal_uci_after(history_tokens(joined(moves.take(k))), moves[k]),
        history_tokens(joined(moves.take(k + 1))) == history_tokens(joined(moves.take(k))).push(
            moves[k],
        ),
        replayable(history_tokens(joined(moves.take(k + 1)))),
        epd_after(history_tokens(joined(moves.take(k + 1)))) == epd_after(
            history_tokens(joined(moves.take(k))).push(moves[k]),
        ),
{
    law_prefix_round_trip(moves, k);
    law_prefix_round_trip(moves, k + 1);
    lemma_prefix_replayable(moves, k);
    lemma_prefix_replayable(moves, k + 1);
    assert(moves.take(k + 1) =~= moves.take(k).push(moves[k]));
}

} // verus!
