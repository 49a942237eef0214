//! Helpers on strings, stated over their characters.

use vstd::prelude::*;
use vstd::std_specs::iter::IteratorSpec;

verus! {

/// The number of characters typed in one call; a longer text is typed in
/// several.
pub const CHUNK_CHARS: usize = 24;

/// Taken on trust from the standard library's documentation, not proved:
/// `String::push` appends the given character to the end of the string and
/// leaves the characters before it as they were.
pub assume_specification[ String::push ](s: &mut String, ch: char)
    ensures
        final(s)@ == old(s)@.push(ch),
;

/// The number of chunks that a text of `len` characters is typed in: `len`
/// divided by the chunk size, rounded up.
pub open spec fn chunk_count(len: nat) -> nat {
    ((len + CHUNK_CHARS - 1) / (CHUNK_CHARS as int)) as nat
}

/// The `i`-th chunk of a text: its characters from `24 * i` up to
/// `24 * (i + 1)`, or up to the end of the text where that comes first.
pub open spec fn chunk_at(text: Seq<char>, i: int) -> Seq<char> {
    text.subrange(
        CHUNK_CHARS * i,
        if CHUNK_CHARS * (i + 1) <= text.len() {
            CHUNK_CHARS * (i + 1)
        } else {
            text.len() as int
        },
    )
}

/// The chunks that a text is typed in, in order.
pub open spec fn chunks(text: Seq<char>) -> Seq<Seq<char>> {
    Seq::new(chunk_count(text.len()), |i: int| chunk_at(text, i))
}

/// Whether two strings hold the same characters in the same order. Both
/// are walked once, side by side, up to the first place where they differ.
pub fn same_chars(a: &str, b: &str) -> (same: bool)
    ensures
        same == (a@ == b@),
{
    let mut left = a.chars();
    let mut right = b.chars();
    let ghost mut seen: Seq<char> = Seq::empty();
    assert(a@ =~= seen + left.remaining());
    assert(b@ =~= seen + right.remaining());
    loop
        invariant
            left.obeys_prophetic_iter_laws(),
            right.obeys_prophetic_iter_laws(),
            left.decrease() is Some,
            a@ == seen + left.remaining(),
            b@ == seen + right.remaining(),
        decreases left.decrease()->0,
    {
        let x = left.next();
        let y = right.next();
        match (x, y) {
            (None, None) => {
                assert(a@ =~= b@);
                return true;
            },
            (Some(c), Some(d)) => {
                if c != d {
                    assert(a@[seen.len() as int] == c);
                    assert(b@[seen.len() as int] == d);
                    return false;
                }
                proof {
                    seen = seen.push(c);
                    assert(a@ =~= seen + left.remaining());
                    assert(b@ =~= seen + right.remaining());
                }
            },
            _ => {
                assert(a@.len() != b@.len());
                return false;
            },
        }
    }
}

/// Cuts a text into the chunks it is typed in, in one pass over its
/// characters.
pub fn split_chunks(text: &str) -> (pieces: Vec<String>)
    ensures
        pieces.deep_view() == chunks(text@),
{
    let mut pieces: Vec<String> = Vec::new();
    let mut buf = String::new();
    let mut count: usize = 0;
    for ch in it: text.chars()
        invariant
            it.seq() == text@,
            count == buf@.len(),
            count < CHUNK_CHARS,
            it.index() == CHUNK_CHARS * pieces.len() + count,
            buf@ == text@.subrange(CHUNK_CHARS * pieces.len(), it.index()),
            forall|j: int| 0 <= j < pieces.len() ==> (#[trigger] pieces[j])@ == chunk_at(text@, j),
    {
        buf.push(ch);
        count += 1;
        if count >= CHUNK_CHARS {
            pieces.push(buf);
            buf = String::new();
            count = 0;
        }
    }
    if count > 0 {
        pieces.push(buf);
    }
    assert(pieces.deep_view() =~= chunks(text@));
    pieces
}

/// The first `k` chunks, joined, are the text's first `24 * k` characters,
/// or all of it where it is shorter.
proof fn lemma_chunks_join_to_prefix(text: Seq<char>, k: nat)
    requires
        k <= chunk_count(text.len()),
    ensures
        chunks(text).take(k as int).flatten() == text.take(
            if CHUNK_CHARS * k <= text.len() {
                CHUNK_CHARS * k
            } else {
                text.len() as int
            },
        ),
    decreases k,
{
    let all = chunks(text);
    if k == 0 {
        assert(all.take(0) =~= Seq::<Seq<char>>::empty());
        assert(text.take(0) =~= Seq::<char>::empty());
    } else {
        let before = (k - 1) as nat;
        lemma_chunks_join_to_prefix(text, before);
        assert(all.take(k as int) =~= all.take(before as int).push(all[before as int]));
        all.take(before as int).lemma_flatten_push(all[before as int]);
        assert(all.take(k as int).flatten() =~= text.take(CHUNK_CHARS * before) + chunk_at(
            text,
            before as int,
        ));
    }
}

/// A text of `N` characters is typed in `N / 24` chunks, rounded up; every
/// chunk but the last holds 24 characters, the last between 1 and 24; and
/// the chunks joined in order are the text.
pub proof fn law_chunks_rebuild_text(text: Seq<char>)
    ensures
        chunks(text).len() == chunk_count(text.len()),
        CHUNK_CHARS * (chunk_count(text.len()) - 1) < text.len() <= CHUNK_CHARS * chunk_count(
            text.len(),
        ),
        forall|i: int|
            0 <= i < chunks(text).len() ==> 1 <= (#[trigger] chunks(text)[i]).len() <= CHUNK_CHARS,
        forall|i: int|
            0 <= i < chunks(text).len() - 1 ==> (#[trigger] chunks(text)[i]).len() == CHUNK_CHARS,
        chunks(text).flatten() == text,
{
    let all = chunks(text);
    lemma_chunks_join_to_prefix(text, all.len());
    assert(all.take(all.len() as int) =~= all);
    assert(text.take(text.len() as int) =~= text);
}

} // verus!
