use vstd::prelude::*;

use pgnparse::parser::Book;

use crate::board::{epd_after, Board};

verus! {

#[verifier::external_type_specification]
#[verifier::external_body]
pub struct ExBook(Book);

/// What an opening book holds: for each position key (an EPD), the UCI
/// tokens of the replies it lists there.
pub uninterp spec fn book_replies(book: Book) -> Map<Seq<char>, Set<Seq<char>>>;

/// Relies on `Book::new`: a book with no position.
#[verifier::external_body]
pub(crate) fn empty_book() -> (r: Book)
    ensures
        book_replies(r).dom() == Set::<Seq<char>>::empty(),
{
    Book::new()
}

/// Relies on `Book::me`, which records the owner's name and leaves the
/// positions as they are.
#[verifier::external_body]
pub(crate) fn book_of_owner(book: Book, me: &str) -> (r: Book)
    ensures
        book_replies(r) == book_replies(book),
{
    book.me(me)
}

/// Relies on `Book::max_depth`, which sets how many plies of each game a
/// later parse reads and leaves the positions as they are.
#[verifier::external_body]
pub(crate) fn book_with_depth(book: Book, depth: usize) -> (r: Book)
    ensures
        book_replies(r) == book_replies(book),
{
    book.max_depth(depth)
}

/// Relies on the book's position map and `BookPosition::get_random_mixed`:
/// a reply drawn at random among those listed for the key, weighted by plays
/// or by performance, the former chosen with a probability that grows with
/// `mixed`. Nothing comes back for a key the book does not hold.
#[verifier::external_body]
fn draw_reply(book: &Book, key: &String, mixed: usize) -> (r: Option<String>)
    ensures
        r matches Some(m) ==> book_replies(*book).contains_key(key@) && book_replies(
            *book,
        )[key@].contains(m@),
        !book_replies(*book).contains_key(key@) ==> r is None,
{
    book.positions.get(key).and_then(|p| p.get_random_mixed(mixed)).map(|m| m.uci.clone())
}

/// Looks for a book reply in the position of `board`, reached after `plies`
/// plies. The book is consulted only while `plies` is at most `max_depth`.
pub fn book_candidate(book: &Book, board: &Board, plies: usize, max_depth: usize, mixed: usize) -> (r:
    Option<String>)
    requires
        plies == board@.len(),
    ensures
        plies > max_depth ==> r is None,
        r matches Some(m) ==> book_replies(*book).contains_key(epd_after(board@)) && book_replies(
            *book,
        )[epd_after(board@)].contains(m@),
        !book_replies(*book).contains_key(epd_after(board@)) ==> r is None,
{
    if plies > max_depth {
        return None;
    }
    let key = board.epd();
    draw_reply(book, &key, mixed)
}

} // verus!
