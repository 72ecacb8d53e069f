//! Character-level building blocks shared by the chunker, the URL helper and
//! the prompt composer: searching, splitting, joining and filtering.
//!
//! All specifications are stated over `Seq<char>`, the view of `str`, `String`
//! and `Vec<char>`.

use vstd::prelude::*;

verus! {

/// Whether `pat` occurs in `text` starting at position `at`.
pub open spec fn occurs_at(text: Seq<char>, pat: Seq<char>, at: int) -> bool {
    &&& 0 <= at
    &&& at + pat.len() <= text.len()
    &&& text.subrange(at, at + pat.len()) == pat
}

/// The pieces of `text` from `start` on that lie between the occurrences of
/// `sep`, found by scanning left to right from `at`. An occurrence that is
/// found ends a piece, and the scan goes on behind it, so occurrences never
/// overlap. An empty `sep` never occurs.
pub open spec fn pieces_from(text: Seq<char>, sep: Seq<char>, start: int, at: int) -> Seq<
    Seq<char>,
>
    decreases text.len() - at,
{
    if sep.len() == 0 || at + sep.len() > text.len() {
        seq![text.subrange(start, text.len() as int)]
    } else if occurs_at(text, sep, at) {
        seq![text.subrange(start, at)] + pieces_from(
            text,
            sep,
            at + sep.len(),
            at + sep.len(),
        )
    } else {
        pieces_from(text, sep, start, at + 1)
    }
}

/// `text` cut at every occurrence of `sep`, leftmost first. The result always
/// holds at least one piece; a text without `sep` is its own single piece.
pub open spec fn split(text: Seq<char>, sep: Seq<char>) -> Seq<Seq<char>> {
    pieces_from(text, sep, 0, 0)
}

/// The parts in order with `sep` between each two neighbours.
pub open spec fn join(parts: Seq<Seq<char>>, sep: Seq<char>) -> Seq<char>
    decreases parts.len(),
{
    if parts.len() == 0 {
        Seq::empty()
    } else if parts.len() == 1 {
        parts[0]
    } else {
        join(parts.drop_last(), sep) + sep + parts.last()
    }
}

/// `text` with every occurrence of `pat`, leftmost first and without overlap,
/// replaced by `with`.
pub open spec fn replaced(text: Seq<char>, pat: Seq<char>, with: Seq<char>) -> Seq<char> {
    join(split(text, pat), with)
}

/// The predicate that holds of every character but `c`.
pub open spec fn other_than(c: char) -> spec_fn(char) -> bool {
    |x: char| x != c
}

/// `text` without any occurrence of the character `c`.
pub open spec fn without(text: Seq<char>, c: char) -> Seq<char> {
    text.filter(other_than(c))
}

/// The views of a sequence of character vectors.
pub open spec fn views(rows: Seq<Vec<char>>) -> Seq<Seq<char>> {
    rows.map_values(|row: Vec<char>| row@)
}

/// Joining a first part with at least one more part puts the separator
/// between the first part and the join of the rest.
pub proof fn lemma_join_prepend(first: Seq<char>, rest: Seq<Seq<char>>, sep: Seq<char>)
    requires
        rest.len() > 0,
    ensures
        join(seq![first] + rest, sep) == first + sep + join(rest, sep),
    decreases rest.len(),
{
    let all = seq![first] + rest;
    assert(all.last() == rest.last());
    assert(all.drop_last() =~= seq![first] + rest.drop_last());
    if rest.len() == 1 {
        assert(all.drop_last() =~= seq![first]);
        assert(join(all.drop_last(), sep) == first);
        assert(join(rest, sep) == rest[0]);
    } else {
        lemma_join_prepend(first, rest.drop_last(), sep);
        assert(join(all, sep) =~= first + sep + join(rest, sep));
    }
}

/// A scan always yields at least one piece.
pub proof fn lemma_pieces_nonempty(text: Seq<char>, sep: Seq<char>, start: int, at: int)
    ensures
        pieces_from(text, sep, start, at).len() >= 1,
    decreases text.len() - at,
{
    if sep.len() == 0 || at + sep.len() > text.len() {
    } else if occurs_at(text, sep, at) {
    } else {
        lemma_pieces_nonempty(text, sep, start, at + 1);
    }
}

/// Putting the separator back between the pieces of a scan gives the scanned
/// part of the text.
pub proof fn lemma_pieces_join(text: Seq<char>, sep: Seq<char>, start: int, at: int)
    requires
        0 <= start <= at <= text.len(),
    ensures
        join(pieces_from(text, sep, start, at), sep) == text.subrange(start, text.len() as int),
    decreases text.len() - at,
{
    if sep.len() == 0 || at + sep.len() > text.len() {
    } else if occurs_at(text, sep, at) {
        let next = at + sep.len();
        let rest = pieces_from(text, sep, next, next);
        lemma_pieces_nonempty(text, sep, next, next);
        lemma_pieces_join(text, sep, next, next);
        lemma_join_prepend(text.subrange(start, at), rest, sep);
        assert(text.subrange(start, at) + sep + text.subrange(next, text.len() as int)
            =~= text.subrange(start, text.len() as int));
    } else {
        lemma_pieces_join(text, sep, start, at + 1);
    }
}

/// Splitting and joining with the same separator are inverse: no character of
/// the text is lost or added by `split`.
pub proof fn lemma_split_join(text: Seq<char>, sep: Seq<char>)
    ensures
        join(split(text, sep), sep) == text,
{
    lemma_pieces_join(text, sep, 0, 0);
    assert(text.subrange(0, text.len() as int) =~= text);
}

/// No piece of a scan holds the separator, provided that no occurrence of
/// the separator begins in the part that the scan has passed already.
pub proof fn lemma_pieces_hold_no_separator(text: Seq<char>, sep: Seq<char>, start: int, at: int)
    requires
        0 <= start <= at <= text.len(),
        sep.len() > 0,
        forall|k: int| start <= k < at ==> !occurs_at(text, sep, k),
    ensures
        forall|i: int, k: int|
            0 <= i < pieces_from(text, sep, start, at).len() ==> !#[trigger] occurs_at(
                pieces_from(text, sep, start, at)[i],
                sep,
                k,
            ),
    decreases text.len() - at,
{
    let all = pieces_from(text, sep, start, at);
    let len = text.len() as int;
    if at + sep.len() > text.len() {
        let piece = text.subrange(start, len);
        assert(all == seq![piece]);
        assert forall|k: int| !#[trigger] occurs_at(piece, sep, k) by {
            if occurs_at(piece, sep, k) {
                assert(piece.subrange(k, k + sep.len()) =~= text.subrange(
                    start + k,
                    start + k + sep.len(),
                ));
                assert(occurs_at(text, sep, start + k));
            }
        }
    } else if occurs_at(text, sep, at) {
        let next = at + sep.len();
        let piece = text.subrange(start, at);
        let rest = pieces_from(text, sep, next, next);
        lemma_pieces_hold_no_separator(text, sep, next, next);
        assert(all == seq![piece] + rest);
        assert forall|i: int, k: int| 0 <= i < all.len() implies !#[trigger] occurs_at(
            all[i],
            sep,
            k,
        ) by {
            if i == 0 {
                if occurs_at(piece, sep, k) {
                    assert(piece.subrange(k, k + sep.len()) =~= text.subrange(
                        start + k,
                        start + k + sep.len(),
                    ));
                    assert(occurs_at(text, sep, start + k));
                }
            } else {
                assert(all[i] == rest[i - 1]);
            }
        }
    } else {
        lemma_pieces_hold_no_separator(text, sep, start, at + 1);
        assert(all == pieces_from(text, sep, start, at + 1));
    }
}

/// No piece of a split holds the separator: the text is cut at every
/// occurrence.
pub proof fn lemma_split_holds_no_separator(text: Seq<char>, sep: Seq<char>)
    requires
        sep.len() > 0,
    ensures
        forall|i: int, k: int|
            0 <= i < split(text, sep).len() ==> !#[trigger] occurs_at(split(text, sep)[i], sep, k),
{
    lemma_pieces_hold_no_separator(text, sep, 0, 0);
}

/// Replacing a pattern by itself changes nothing.
pub proof fn lemma_replaced_by_itself(text: Seq<char>, pat: Seq<char>)
    ensures
        replaced(text, pat, pat) == text,
{
    lemma_split_join(text, pat);
}

/// Collects the characters of `s` into a vector, in order.
pub fn chars_of(s: &str) -> (out: Vec<char>)
    ensures
        out@ == s@,
{
    let mut out: Vec<char> = Vec::new();
    for c in it: s.chars()
        invariant
            out@ == it.seq().take(it.index() as int),
    {
        out.push(c);
    }
    out
}

/// Builds the string that holds exactly the given characters, in order.
/// Trusted: stands for `String::from_iter` of the standard library on an
/// iterator over the characters.
#[verifier::external_body]
pub(crate) fn string_of(chars: &Vec<char>) -> (s: String)
    ensures
        s@ == chars@,
{
    String::from_iter(chars.iter())
}

/// Appends all of `tail` to `buffer`.
pub fn extend_chars(buffer: &mut Vec<char>, tail: &Vec<char>)
    ensures
        final(buffer)@ == old(buffer)@ + tail@,
{
    let n: usize = tail.len();
    let mut i: usize = 0;
    while i < n
        invariant
            n == tail@.len(),
            i <= n,
            buffer@ == old(buffer)@ + tail@.take(i as int),
        decreases n - i,
    {
        buffer.push(tail[i]);
        i = i + 1;
    }
    assert(tail@.take(n as int) =~= tail@);
}

/// Tests whether `pat` occurs in `text` at position `at`.
pub fn occurs_at_exec(text: &Vec<char>, pat: &Vec<char>, at: usize) -> (found: bool)
    ensures
        found == occurs_at(text@, pat@, at as int),
{
    let n: usize = text.len();
    let m: usize = pat.len();
    if m > n || at > n - m {
        return false;
    }
    let mut k: usize = 0;
    while k < m
        invariant
            n == text@.len(),
            m == pat@.len(),
            at + m <= n,
            k <= m,
            forall|j: int| 0 <= j < k ==> text@[at + j] == pat@[j],
        decreases m - k,
    {
        if text[at + k] != pat[k] {
            assert(text@.subrange(at as int, at + m)[k as int] != pat@[k as int]);
            return false;
        }
        k = k + 1;
    }
    assert(text@.subrange(at as int, at + m) =~= pat@);
    true
}

/// Cuts `text` at every occurrence of `sep`, leftmost first.
pub fn split_chars(text: &Vec<char>, sep: &Vec<char>) -> (out: Vec<Vec<char>>)
    ensures
        views(out@) == split(text@, sep@),
        out@.len() >= 1,
{
    let n: usize = text.len();
    let m: usize = sep.len();
    let mut out: Vec<Vec<char>> = Vec::new();
    let mut piece: Vec<char> = Vec::new();
    let mut start: usize = 0;
    let mut at: usize = 0;
    while m > 0 && m <= n && at <= n - m
        invariant
            n == text@.len(),
            m == sep@.len(),
            start <= at <= n,
            piece@ == text@.subrange(start as int, at as int),
            split(text@, sep@) == views(out@) + pieces_from(text@, sep@, start as int, at as int),
        decreases n - at,
    {
        if occurs_at_exec(text, sep, at) {
            let ghost before = views(out@);
            let ghost rest = pieces_from(text@, sep@, at + m, at + m);
            let ghost cut = text@.subrange(start as int, at as int);
            out.push(piece);
            piece = Vec::new();
            at = at + m;
            start = at;
            proof {
                assert(views(out@) =~= before.push(cut));
                assert(before + (seq![cut] + rest) =~= before.push(cut) + rest);
                assert(piece@ =~= text@.subrange(start as int, at as int));
            }
        } else {
            piece.push(text[at]);
            at = at + 1;
            assert(piece@ =~= text@.subrange(start as int, at as int));
        }
    }
    while at < n
        invariant
            n == text@.len(),
            start <= at <= n,
            piece@ == text@.subrange(start as int, at as int),
            split(text@, sep@) == views(out@) + seq![text@.subrange(start as int, n as int)],
        decreases n - at,
    {
        piece.push(text[at]);
        at = at + 1;
        assert(piece@ =~= text@.subrange(start as int, at as int));
    }
    proof {
        assert(views(out@.push(piece)) =~= views(out@) + seq![piece@]);
    }
    out.push(piece);
    out
}

/// Copies `text` without any occurrence of the character `c`.
pub fn remove_char(text: &Vec<char>, c: char) -> (out: Vec<char>)
    ensures
        out@ == without(text@, c),
{
    let n: usize = text.len();
    let mut out: Vec<char> = Vec::new();
    let mut i: usize = 0;
    proof {
        reveal(Seq::filter);
        assert(text@.take(0) =~= Seq::<char>::empty());
    }
    while i < n
        invariant
            n == text@.len(),
            i <= n,
            out@ == without(text@.take(i as int), c),
        decreases n - i,
    {
        let x: char = text[i];
        proof {
            assert(text@.take(i + 1) =~= text@.take(i as int).push(x));
            text@.take(i as int).lemma_filter_push(x, other_than(c));
        }
        if x != c {
            out.push(x);
        }
        i = i + 1;
    }
    assert(text@.take(n as int) =~= text@);
    out
}

/// Joins the parts `from..to` in order with `sep` between each two
/// neighbours.
pub fn join_range(parts: &Vec<Vec<char>>, from: usize, to: usize, sep: &Vec<char>) -> (out: Vec<
    char,
>)
    requires
        from <= to <= parts@.len(),
    ensures
        out@ == join(views(parts@).subrange(from as int, to as int), sep@),
{
    let mut out: Vec<char> = Vec::new();
    let mut i: usize = from;
    let ghost all = views(parts@);
    proof {
        assert(all.subrange(from as int, from as int) =~= Seq::<Seq<char>>::empty());
    }
    while i < to
        invariant
            from <= i <= to <= parts@.len(),
            all == views(parts@),
            out@ == join(all.subrange(from as int, i as int), sep@),
        decreases to - i,
    {
        proof {
            let upto = all.subrange(from as int, i + 1);
            assert(upto.drop_last() =~= all.subrange(from as int, i as int));
            assert(upto.last() == parts@[i as int]@);
            if i == from {
                assert(out@ =~= Seq::<char>::empty());
            }
        }
        if i > from {
            extend_chars(&mut out, sep);
        }
        extend_chars(&mut out, &parts[i]);
        i = i + 1;
    }
    out
}

/// Joins the parts in order with `sep` between each two neighbours.
pub fn join_chars(parts: &Vec<Vec<char>>, sep: &Vec<char>) -> (out: Vec<char>)
    ensures
        out@ == join(views(parts@), sep@),
{
    assert(views(parts@).subrange(0, parts@.len() as int) =~= views(parts@));
    join_range(parts, 0, parts.len(), sep)
}

/// Replaces every occurrence of `pat` in `text`, leftmost first and without
/// overlap, by `with`. An empty `pat` never occurs.
pub fn replace_chars(text: &Vec<char>, pat: &Vec<char>, with: &Vec<char>) -> (out: Vec<char>)
    ensures
        out@ == replaced(text@, pat@, with@),
{
    let pieces = split_chars(text, pat);
    join_chars(&pieces, with)
}

/// Tests whether two texts hold the same characters.
pub fn same_text(a: &str, b: &str) -> (same: bool)
    ensures
        same == (a@ == b@),
{
    let x = a.to_owned();
    let y = b.to_owned();
    x == y
}

} // verus!
