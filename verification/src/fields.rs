//! `name=value` lists, as found in a `Cookie` header (`a=1; b=2`) and in
//! a query string (`a=1&b=2`).
//!
//! A list is cut into pieces at every separator byte. A piece assigns to
//! `name` when it starts with `name` and `=`; what follows is the value.
//! The first such piece counts.

use vstd::prelude::*;
use vstd::slice::slice_subrange;

verus! {

/// The position of the first `separator` at or after `from`, or the
/// length of `text` when there is none.
pub open spec fn piece_end(text: Seq<u8>, separator: u8, from: int) -> int
    decreases text.len() - from,
{
    if from >= text.len() {
        text.len() as int
    } else if text[from] == separator {
        from
    } else {
        piece_end(text, separator, from + 1)
    }
}

/// The position of the first byte in `from..end` that is not a space, or
/// `end`.
pub open spec fn after_spaces(text: Seq<u8>, from: int, end: int) -> int
    decreases end - from,
{
    if from < end && text[from] == 0x20 {
        after_spaces(text, from + 1, end)
    } else {
        from
    }
}

/// Whether `piece` is `name`, then `=`, then anything.
pub open spec fn assigns(piece: Seq<u8>, name: Seq<u8>) -> bool {
    &&& piece.len() > name.len()
    &&& piece.subrange(0, name.len() as int) == name
    &&& piece[name.len() as int] == 0x3d
}

/// The piece that starts at `from`, without its leading spaces where
/// `trim` asks for that.
pub open spec fn piece_at(text: Seq<u8>, separator: u8, trim: bool, from: int) -> Seq<u8> {
    let end = piece_end(text, separator, from);
    let start = if trim {
        after_spaces(text, from, end)
    } else {
        from
    };
    text.subrange(start, end)
}

/// The value of the first piece at or after `from` that assigns to
/// `name`.
pub open spec fn field_from(text: Seq<u8>, separator: u8, trim: bool, name: Seq<u8>, from: int)
    -> Option<Seq<u8>>
    decreases text.len() - from,
{
    if from > text.len() || from < 0 {
        None
    } else {
        let piece = piece_at(text, separator, trim, from);
        let end = piece_end(text, separator, from);
        if assigns(piece, name) {
            Some(piece.subrange(name.len() as int + 1, piece.len() as int))
        } else if end >= text.len() {
            None
        } else {
            proof {
                lemma_piece_end_bounds(text, separator, from);
            }
            field_from(text, separator, trim, name, end + 1)
        }
    }
}

/// The value that the list `text` gives to `name`, if any.
pub open spec fn field(text: Seq<u8>, separator: u8, trim: bool, name: Seq<u8>) -> Option<
    Seq<u8>,
> {
    field_from(text, separator, trim, name, 0)
}

/// A piece ends at or after the position where it starts, and within
/// the text.
pub proof fn lemma_piece_end_bounds(text: Seq<u8>, separator: u8, from: int)
    requires
        0 <= from <= text.len(),
    ensures
        from <= piece_end(text, separator, from) <= text.len(),
    decreases text.len() - from,
{
    if from < text.len() && text[from] != separator {
        lemma_piece_end_bounds(text, separator, from + 1);
    }
}

/// Text without the separator, from some position on, is one piece from
/// there to its end.
pub proof fn lemma_last_piece(text: Seq<u8>, separator: u8, from: int)
    requires
        0 <= from <= text.len(),
        forall|i: int| from <= i < text.len() ==> text[i] != separator,
    ensures
        piece_end(text, separator, from) == text.len(),
    decreases text.len() - from,
{
    if from < text.len() {
        lemma_last_piece(text, separator, from + 1);
    }
}

fn find_end(text: &[u8], separator: u8, from: usize) -> (end: usize)
    requires
        from <= text@.len(),
    ensures
        end == piece_end(text@, separator, from as int),
        from <= end <= text@.len(),
{
    let mut end: usize = from;
    while end < text.len() && text[end] != separator
        invariant
            from <= end <= text@.len(),
            piece_end(text@, separator, from as int) == piece_end(text@, separator, end as int),
        decreases text@.len() - end,
    {
        end += 1;
    }
    end
}

fn skip_spaces(text: &[u8], from: usize, end: usize) -> (start: usize)
    requires
        from <= end <= text@.len(),
    ensures
        start == after_spaces(text@, from as int, end as int),
        from <= start <= end,
{
    let mut start: usize = from;
    while start < end && text[start] == 0x20
        invariant
            from <= start <= end <= text@.len(),
            after_spaces(text@, from as int, end as int) == after_spaces(
                text@,
                start as int,
                end as int,
            ),
        decreases end - start,
    {
        start += 1;
    }
    start
}

fn piece_assigns(text: &[u8], start: usize, end: usize, name: &[u8]) -> (out: bool)
    requires
        start <= end <= text@.len(),
    ensures
        out == assigns(text@.subrange(start as int, end as int), name@),
{
    let ghost piece = text@.subrange(start as int, end as int);
    if end - start <= name.len() {
        return false;
    }
    let mut i: usize = 0;
    while i < name.len()
        invariant
            i <= name@.len(),
            start <= end <= text@.len(),
            end - start > name@.len(),
            piece == text@.subrange(start as int, end as int),
            forall|j: int| 0 <= j < i ==> piece[j] == name@[j],
        decreases name@.len() - i,
    {
        if text[start + i] != name[i] {
            assert(piece[i as int] != name@[i as int]);
            assert(piece.subrange(0, name@.len() as int)[i as int] == piece[i as int]);
            return false;
        }
        i += 1;
    }
    assert(piece.subrange(0, name@.len() as int) =~= name@);
    assert(piece[name@.len() as int] == text@[start + name@.len()]);
    text[start + name.len()] == 0x3d
}

/// Looks `name` up in a list with the given separator. With `trim`, the
/// spaces in front of each piece are passed over.
pub fn find_field<'a>(text: &'a [u8], separator: u8, trim: bool, name: &[u8]) -> (out: Option<
    &'a [u8],
>)
    ensures
        out is Some <==> field(text@, separator, trim, name@) is Some,
        out matches Some(value) ==> field(text@, separator, trim, name@) == Some(value@),
{
    let mut from: usize = 0;
    loop
        invariant
            from <= text@.len(),
            field(text@, separator, trim, name@) == field_from(
                text@,
                separator,
                trim,
                name@,
                from as int,
            ),
        decreases text@.len() - from,
    {
        let end = find_end(text, separator, from);
        let start = if trim {
            skip_spaces(text, from, end)
        } else {
            from
        };
        if piece_assigns(text, start, end, name) {
            let value = slice_subrange(text, start + name.len() + 1, end);
            proof {
                let piece = text@.subrange(start as int, end as int);
                assert(value@ =~= piece.subrange(name@.len() as int + 1, piece.len() as int));
            }
            return Some(value);
        }
        if end >= text.len() {
            return None;
        }
        from = end + 1;
    }
}

} // verus!
