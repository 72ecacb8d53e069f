//! The chunker: splits the text of a document into ordered, non-empty chunks
//! without ever cutting a line in two.

use crate::text::{
    chars_of, extend_chars, join, join_range, lemma_split_join, remove_char, split, split_chars,
    string_of, views, without,
};
use vstd::prelude::*;
use vstd::utf8::{decode_utf8, encode_utf8, valid_utf8};

verus! {

/// The declared encoding of a document's bytes.
#[derive(Clone, Copy, Debug, PartialEq, Eq, Structural)]
pub enum SourceEncoding {
    Utf8,
    Gbk,
}

/// The bytes of a document are not a lossless text in the declared encoding.
#[derive(Clone, Copy, Debug, PartialEq, Eq, Structural)]
pub struct EncodingError {
    pub encoding: SourceEncoding,
}

/// The full-width space that text sources use for indentation.
pub const IDEOGRAPHIC_SPACE: char = '\u{3000}';

/// The line separator of text sources, and the separator put between the
/// lines of a chunk of a line source.
pub open spec fn crlf() -> Seq<char> {
    seq!['\r', '\n']
}

/// The line terminator of line sources.
pub open spec fn newline() -> Seq<char> {
    seq!['\n']
}

/// What `encoding_rs::GBK.decode` yields for the given bytes: the decoded
/// text, and whether a malformed sequence was met (and replaced).
pub uninterp spec fn gbk_decoding(raw: Seq<u8>) -> (Seq<char>, bool);

/// The longest input, in bytes, that the decoder is asked to take: its
/// buffer size calculation stays below the largest `usize` up to this length.
pub open spec fn max_source_len() -> int {
    (usize::MAX / 8) as int
}

/// Decodes GBK bytes. Trusted: calls `encoding_rs::GBK.decode`, which decodes
/// the whole input (after sniffing a byte order mark), puts U+FFFD in place
/// of each malformed sequence and reports whether there was any. The result
/// is named by [`gbk_decoding`]; nothing more is claimed of it.
#[verifier::external_body]
fn decode_gbk(raw: &[u8]) -> (out: (String, bool))
    requires
        raw@.len() <= max_source_len(),
    ensures
        (out.0@, out.1) == gbk_decoding(raw@),
{
    let (text, _, malformed) = encoding_rs::GBK.decode(raw);
    (text.into_owned(), malformed)
}

/// Decodes UTF-8 bytes. Trusted: calls `std::str::from_utf8`, which succeeds
/// exactly on well-formed UTF-8 and then yields the text that these bytes
/// encode.
#[verifier::external_body]
fn decode_utf8_bytes(raw: &[u8]) -> (out: Option<String>)
    ensures
        out is Some <==> valid_utf8(raw@),
        out matches Some(text) ==> encode_utf8(text@) == raw@,
{
    match std::str::from_utf8(raw) {
        Ok(text) => Some(text.to_owned()),
        Err(_) => None,
    }
}

/// Lines gathered into chunks: each line is appended to the buffer, and the
/// buffer is emitted as a chunk as soon as it is non-empty and holds at least
/// `budget` characters. What is left in the buffer at the end is the last
/// chunk, unless it is empty.
pub open spec fn gather(lines: Seq<Seq<char>>, budget: nat, buffer: Seq<char>) -> Seq<Seq<char>>
    decreases lines.len(),
{
    if lines.len() == 0 {
        if buffer.len() > 0 {
            seq![buffer]
        } else {
            Seq::empty()
        }
    } else {
        let grown = buffer + lines.first();
        if grown.len() > 0 && grown.len() >= budget {
            seq![grown] + gather(lines.drop_first(), budget, Seq::empty())
        } else {
            gather(lines.drop_first(), budget, grown)
        }
    }
}

/// The lines of a text source: the text without full-width spaces, cut at
/// every line separator.
pub open spec fn text_lines(text: Seq<char>) -> Seq<Seq<char>> {
    split(without(text, IDEOGRAPHIC_SPACE), crlf())
}

/// The chunks of a text source for a budget of `budget` characters.
pub open spec fn text_chunks(text: Seq<char>, budget: nat) -> Seq<Seq<char>> {
    gather(text_lines(text), budget, Seq::empty())
}

/// The chunks hold, in order, exactly the characters of the buffer and the
/// lines: nothing is dropped and nothing is repeated.
pub proof fn lemma_gather_keeps_content(lines: Seq<Seq<char>>, budget: nat, buffer: Seq<char>)
    ensures
        gather(lines, budget, buffer).flatten() == buffer + lines.flatten(),
    decreases lines.len(),
{
    if lines.len() == 0 {
        if buffer.len() > 0 {
            seq![buffer].lemma_flatten_singleton();
        }
        assert(buffer + Seq::<char>::empty() =~= buffer);
    } else {
        let grown = buffer + lines.first();
        let rest = lines.drop_first();
        if grown.len() > 0 && grown.len() >= budget {
            lemma_gather_keeps_content(rest, budget, Seq::empty());
            vstd::seq_lib::lemma_flatten_concat(seq![grown], gather(rest, budget, Seq::empty()));
            seq![grown].lemma_flatten_singleton();
            assert(grown + (Seq::<char>::empty() + rest.flatten()) =~= buffer + lines.flatten());
        } else {
            lemma_gather_keeps_content(rest, budget, grown);
            assert(grown + rest.flatten() =~= buffer + lines.flatten());
        }
    }
}

/// No chunk is empty, and every chunk but the last holds at least `budget`
/// characters.
pub proof fn lemma_gather_bounds(lines: Seq<Seq<char>>, budget: nat, buffer: Seq<char>)
    ensures
        forall|i: int|
            0 <= i < gather(lines, budget, buffer).len() ==> (#[trigger] gather(
                lines,
                budget,
                buffer,
            )[i]).len() > 0,
        forall|i: int|
            0 <= i < gather(lines, budget, buffer).len() - 1 ==> (#[trigger] gather(
                lines,
                budget,
                buffer,
            )[i]).len() >= budget,
    decreases lines.len(),
{
    let all = gather(lines, budget, buffer);
    if lines.len() == 0 {
    } else {
        let grown = buffer + lines.first();
        let rest = lines.drop_first();
        if grown.len() > 0 && grown.len() >= budget {
            lemma_gather_bounds(rest, budget, Seq::empty());
            let tail = gather(rest, budget, Seq::empty());
            assert(all == seq![grown] + tail);
            assert forall|i: int| 0 <= i < all.len() implies (#[trigger] all[i]).len() > 0 by {
                if i > 0 {
                    assert(all[i] == tail[i - 1]);
                }
            }
            assert forall|i: int| 0 <= i < all.len() - 1 implies (#[trigger] all[i]).len()
                >= budget by {
                if i > 0 {
                    assert(all[i] == tail[i - 1]);
                }
            }
        } else {
            lemma_gather_bounds(rest, budget, grown);
            assert(all == gather(rest, budget, grown));
        }
    }
}

/// The chunks of a text source, taken together, are the text without its
/// full-width spaces and line separators; putting the separators back between
/// the lines gives the text without its full-width spaces. Chunking drops no
/// character of the content and repeats none.
pub proof fn lemma_text_chunks_keep_content(text: Seq<char>, budget: nat)
    ensures
        text_chunks(text, budget).flatten() == text_lines(text).flatten(),
        join(text_lines(text), crlf()) == without(text, IDEOGRAPHIC_SPACE),
{
    lemma_gather_keeps_content(text_lines(text), budget, Seq::empty());
    assert(Seq::<char>::empty() + text_lines(text).flatten() =~= text_lines(text).flatten());
    lemma_split_join(without(text, IDEOGRAPHIC_SPACE), crlf());
}

/// Gathers the lines into chunks, as [`gather`] says, starting with an empty
/// buffer.
pub fn gather_lines(lines: &Vec<Vec<char>>, budget: usize) -> (chunks: Vec<String>)
    ensures
        chunks.deep_view() == gather(views(lines@), budget as nat, Seq::empty()),
{
    let n: usize = lines.len();
    let mut chunks: Vec<String> = Vec::new();
    let mut buffer: Vec<char> = Vec::new();
    let mut i: usize = 0;
    let ghost all = views(lines@);
    proof {
        assert(all.skip(0) =~= all);
        assert(chunks.deep_view() =~= Seq::<Seq<char>>::empty());
        assert(Seq::<Seq<char>>::empty() + gather(all, budget as nat, buffer@) =~= gather(
            all,
            budget as nat,
            Seq::empty(),
        ));
    }
    while i < n
        invariant
            n == lines@.len(),
            i <= n,
            all == views(lines@),
            gather(all, budget as nat, Seq::empty()) == chunks.deep_view() + gather(
                all.skip(i as int),
                budget as nat,
                buffer@,
            ),
        decreases n - i,
    {
        let ghost before = chunks.deep_view();
        let ghost held = buffer@;
        proof {
            assert(all.skip(i as int).first() == lines@[i as int]@);
            assert(all.skip(i as int).drop_first() =~= all.skip(i + 1));
        }
        extend_chars(&mut buffer, &lines[i]);
        if buffer.len() > 0 && buffer.len() >= budget {
            let chunk = string_of(&buffer);
            chunks.push(chunk);
            buffer = Vec::new();
            proof {
                let grown = held + lines@[i as int]@;
                let rest = gather(all.skip(i + 1), budget as nat, Seq::empty());
                assert(chunks.deep_view() =~= before.push(grown));
                assert(before + (seq![grown] + rest) =~= before.push(grown) + rest);
            }
        }
        i = i + 1;
    }
    if buffer.len() > 0 {
        let ghost before = chunks.deep_view();
        let chunk = string_of(&buffer);
        chunks.push(chunk);
        proof {
            assert(chunks.deep_view() =~= before + seq![buffer@]);
        }
    } else {
        assert(chunks.deep_view() + Seq::<Seq<char>>::empty() =~= chunks.deep_view());
    }
    chunks
}

/// Chunks the text of a text source: full-width spaces are removed, the text
/// is cut into lines at every line separator, and the lines are gathered
/// into chunks of at least `budget` characters. An empty text has no chunks;
/// a line longer than the budget stays whole.
pub fn chunk_text(text: &str, budget: usize) -> (chunks: Vec<String>)
    ensures
        chunks.deep_view() == text_chunks(text@, budget as nat),
{
    let all = chars_of(text);
    let kept = remove_char(&all, IDEOGRAPHIC_SPACE);
    let mut sep: Vec<char> = Vec::new();
    sep.push('\r');
    sep.push('\n');
    assert(sep@ =~= crlf());
    let lines = split_chars(&kept, &sep);
    gather_lines(&lines, budget)
}

/// A line without the carriage return at its end, if it has one.
pub open spec fn trim_cr(line: Seq<char>) -> Seq<char> {
    if line.len() > 0 && line.last() == '\r' {
        line.drop_last()
    } else {
        line
    }
}

/// The lines of a line source: the text cut at every line feed, and each line
/// that a line feed ended without the carriage return before that line feed.
pub open spec fn lines_of(text: Seq<char>) -> Seq<Seq<char>> {
    let parts = split(text, newline());
    Seq::new(
        parts.len(),
        |i: int|
            if i + 1 < parts.len() {
                trim_cr(parts[i])
            } else {
                parts[i]
            },
    )
}

/// The predicate that holds of the lines that hold a character.
pub open spec fn nonempty() -> spec_fn(Seq<char>) -> bool {
    |line: Seq<char>| line.len() > 0
}

/// The number of lines in a full chunk of a line source: `per_chunk`, and one
/// where that is zero.
pub open spec fn group_size(per_chunk: nat) -> nat {
    if per_chunk == 0 {
        1
    } else {
        per_chunk
    }
}

/// The lines in consecutive groups of `size`; the last group holds what is
/// left, at least one line.
pub open spec fn groups(lines: Seq<Seq<char>>, size: nat) -> Seq<Seq<Seq<char>>>
    decreases lines.len(),
{
    if lines.len() == 0 || size == 0 {
        Seq::empty()
    } else if lines.len() <= size {
        seq![lines]
    } else {
        seq![lines.take(size as int)] + groups(lines.skip(size as int), size)
    }
}

/// Each group as one chunk: its lines with the line separator between them.
pub open spec fn joined(groups: Seq<Seq<Seq<char>>>) -> Seq<Seq<char>> {
    groups.map_values(|group: Seq<Seq<char>>| join(group, crlf()))
}

/// The groups of lines that the chunks of a line source are made of.
pub open spec fn line_groups(text: Seq<char>, per_chunk: nat) -> Seq<Seq<Seq<char>>> {
    groups(lines_of(text).filter(nonempty()), group_size(per_chunk))
}

/// The chunks of a line source with `per_chunk` lines to a chunk.
pub open spec fn line_chunks(text: Seq<char>, per_chunk: nat) -> Seq<Seq<char>> {
    joined(line_groups(text, per_chunk))
}

/// The groups hold, in order, exactly the lines.
pub proof fn lemma_groups_keep_lines(lines: Seq<Seq<char>>, size: nat)
    requires
        size > 0,
    ensures
        groups(lines, size).flatten() == lines,
    decreases lines.len(),
{
    if lines.len() == 0 {
    } else if lines.len() <= size {
        seq![lines].lemma_flatten_singleton();
    } else {
        let head = lines.take(size as int);
        let tail = lines.skip(size as int);
        lemma_groups_keep_lines(tail, size);
        vstd::seq_lib::lemma_flatten_concat(seq![head], groups(tail, size));
        seq![head].lemma_flatten_singleton();
        assert(head + tail =~= lines);
    }
}

/// Every group holds at least one line and at most `size`, and every group
/// but the last holds exactly `size`.
pub proof fn lemma_groups_sizes(lines: Seq<Seq<char>>, size: nat)
    requires
        size > 0,
    ensures
        forall|i: int|
            0 <= i < groups(lines, size).len() ==> 0 < (#[trigger] groups(lines, size)[i]).len()
                <= size,
        forall|i: int|
            0 <= i < groups(lines, size).len() - 1 ==> (#[trigger] groups(lines, size)[i]).len()
                == size,
    decreases lines.len(),
{
    let all = groups(lines, size);
    if lines.len() == 0 {
    } else if lines.len() <= size {
    } else {
        let head = lines.take(size as int);
        let tail = groups(lines.skip(size as int), size);
        lemma_groups_sizes(lines.skip(size as int), size);
        assert(all == seq![head] + tail);
        assert forall|i: int| 0 <= i < all.len() implies 0 < (#[trigger] all[i]).len()
            <= size by {
            if i > 0 {
                assert(all[i] == tail[i - 1]);
            }
        }
        assert forall|i: int| 0 <= i < all.len() - 1 implies (#[trigger] all[i]).len()
            == size by {
            if i > 0 {
                assert(all[i] == tail[i - 1]);
            }
        }
    }
}

/// Leaving out the empty lines leaves out no character.
pub proof fn lemma_nonempty_lines_keep_content(lines: Seq<Seq<char>>)
    ensures
        lines.filter(nonempty()).flatten() == lines.flatten(),
    decreases lines.len(),
{
    reveal(Seq::filter);
    if lines.len() == 0 {
    } else {
        let front = lines.drop_last();
        let last = lines.last();
        lemma_nonempty_lines_keep_content(front);
        assert(front.push(last) =~= lines);
        front.lemma_flatten_push(last);
        if last.len() > 0 {
            front.filter(nonempty()).lemma_flatten_push(last);
        } else {
            assert(front.flatten() + last =~= front.flatten());
        }
    }
}

/// The chunks of a line source are its groups of lines, one chunk to a
/// group, and the groups hold in order exactly the non-empty lines of the
/// text: but for the separators, chunking drops no character of the content
/// and repeats none.
pub proof fn lemma_line_chunks_keep_content(text: Seq<char>, per_chunk: nat)
    ensures
        line_chunks(text, per_chunk).len() == line_groups(text, per_chunk).len(),
        forall|i: int|
            0 <= i < line_groups(text, per_chunk).len() ==> #[trigger] line_chunks(
                text,
                per_chunk,
            )[i] == join(line_groups(text, per_chunk)[i], crlf()),
        line_groups(text, per_chunk).flatten() == lines_of(text).filter(nonempty()),
        line_groups(text, per_chunk).flatten().flatten() == lines_of(text).flatten(),
{
    lemma_groups_keep_lines(lines_of(text).filter(nonempty()), group_size(per_chunk));
    lemma_nonempty_lines_keep_content(lines_of(text));
}

/// The non-empty lines of a line source.
fn nonempty_lines(text: &Vec<char>) -> (lines: Vec<Vec<char>>)
    ensures
        views(lines@) == lines_of(text@).filter(nonempty()),
{
    let mut sep: Vec<char> = Vec::new();
    sep.push('\n');
    assert(sep@ =~= newline());
    let parts = split_chars(text, &sep);
    let n: usize = parts.len();
    let mut lines: Vec<Vec<char>> = Vec::new();
    let mut i: usize = 0;
    let ghost all = lines_of(text@);
    proof {
        reveal(Seq::filter);
        assert(all.take(0) =~= Seq::<Seq<char>>::empty());
        assert(views(lines@) =~= Seq::<Seq<char>>::empty());
    }
    while i < n
        invariant
            n == parts@.len(),
            i <= n,
            views(parts@) == split(text@, newline()),
            all == lines_of(text@),
            all.len() == n,
            views(lines@) == all.take(i as int).filter(nonempty()),
        decreases n - i,
    {
        let mut line: Vec<char> = Vec::new();
        extend_chars(&mut line, &parts[i]);
        assert(line@ =~= views(parts@)[i as int]);
        if i + 1 < n && line.len() > 0 && line[line.len() - 1] == '\r' {
            line.pop();
        }
        proof {
            assert(line@ == all[i as int]);
            assert(all.take(i + 1) =~= all.take(i as int).push(all[i as int]));
            all.take(i as int).lemma_filter_push(all[i as int], nonempty());
        }
        if line.len() > 0 {
            let ghost before = views(lines@);
            lines.push(line);
            assert(views(lines@) =~= before.push(all[i as int]));
        }
        i = i + 1;
    }
    assert(all.take(n as int) =~= all);
    lines
}

/// Chunks the text of a line source: the text is cut into lines, empty lines
/// are left out, and every `per_chunk` lines (one line where `per_chunk` is
/// zero) make a chunk, joined by the line separator. The lines that are left
/// at the end make the last chunk.
pub fn chunk_lines(text: &str, per_chunk: usize) -> (chunks: Vec<String>)
    ensures
        chunks.deep_view() == line_chunks(text@, per_chunk as nat),
{
    let all = chars_of(text);
    let lines = nonempty_lines(&all);
    let size: usize = if per_chunk == 0 {
        1
    } else {
        per_chunk
    };
    let mut sep: Vec<char> = Vec::new();
    sep.push('\r');
    sep.push('\n');
    assert(sep@ =~= crlf());
    let n: usize = lines.len();
    let mut chunks: Vec<String> = Vec::new();
    let mut k: usize = 0;
    let ghost rows = views(lines@);
    proof {
        assert(rows.skip(0) =~= rows);
        assert(chunks.deep_view() =~= Seq::<Seq<char>>::empty());
        assert(Seq::<Seq<char>>::empty() + joined(groups(rows, size as nat)) =~= joined(
            groups(rows, size as nat),
        ));
    }
    while k < n
        invariant
            n == lines@.len(),
            k <= n,
            size > 0,
            sep@ == crlf(),
            rows == views(lines@),
            joined(groups(rows, size as nat)) == chunks.deep_view() + joined(
                groups(rows.skip(k as int), size as nat),
            ),
        decreases n - k,
    {
        let end: usize = if n - k <= size {
            n
        } else {
            k + size
        };
        let ghost before = chunks.deep_view();
        let ghost group = rows.subrange(k as int, end as int);
        let ghost rest = groups(rows.skip(end as int), size as nat);
        let line = join_range(&lines, k, end, &sep);
        let chunk = string_of(&line);
        chunks.push(chunk);
        proof {
            if n - k <= size {
                assert(rows.skip(k as int) =~= group);
                assert(rows.skip(end as int) =~= Seq::<Seq<char>>::empty());
                assert(groups(rows.skip(k as int), size as nat) =~= seq![group] + rest);
            } else {
                assert(rows.skip(k as int).take(size as int) =~= group);
                assert(rows.skip(k as int).skip(size as int) =~= rows.skip(end as int));
            }
            assert(joined(seq![group] + rest) =~= seq![join(group, crlf())] + joined(rest));
            assert(chunks.deep_view() =~= before.push(join(group, crlf())));
            assert(before + (seq![join(group, crlf())] + joined(rest)) =~= before.push(
                join(group, crlf()),
            ) + joined(rest));
        }
        k = end;
    }
    proof {
        assert(rows.skip(n as int) =~= Seq::<Seq<char>>::empty());
        assert(joined(groups(rows.skip(n as int), size as nat)) =~= Seq::<Seq<char>>::empty());
        assert(chunks.deep_view() + Seq::<Seq<char>>::empty() =~= chunks.deep_view());
    }
    chunks
}

/// What chunking a decoded text source comes to: the encoding error where
/// the decoder met a malformed sequence, else the chunks of the text.
pub open spec fn decoded_chunks(text: Seq<char>, malformed: bool, budget: nat) -> Result<
    Seq<Seq<char>>,
    EncodingError,
> {
    if malformed {
        Err(EncodingError { encoding: SourceEncoding::Gbk })
    } else {
        Ok(text_chunks(text, budget))
    }
}

/// The view of a chunking result: the texts of the chunks, or the error.
pub open spec fn chunking_view(result: Result<Vec<String>, EncodingError>) -> Result<
    Seq<Seq<char>>,
    EncodingError,
> {
    match result {
        Ok(chunks) => Ok(chunks.deep_view()),
        Err(e) => Err(e),
    }
}

/// Chunks what the decoder made of a text source. A text in which the decoder
/// had to replace a malformed sequence is refused: it would not be the
/// document's text.
pub fn chunk_decoded(text: &str, malformed: bool, budget: usize) -> (result: Result<
    Vec<String>,
    EncodingError,
>)
    ensures
        chunking_view(result) == decoded_chunks(text@, malformed, budget as nat),
{
    if malformed {
        Err(EncodingError { encoding: SourceEncoding::Gbk })
    } else {
        Ok(chunk_text(text, budget))
    }
}

/// What chunking the bytes of a text source comes to. No bytes, no chunks;
/// bytes beyond the longest input that the decoder takes are refused; else
/// the bytes are decoded and the decoded text is chunked.
pub open spec fn text_source_chunks(raw: Seq<u8>, budget: nat) -> Result<
    Seq<Seq<char>>,
    EncodingError,
> {
    if raw.len() == 0 {
        Ok(Seq::empty())
    } else if raw.len() > max_source_len() {
        Err(EncodingError { encoding: SourceEncoding::Gbk })
    } else {
        decoded_chunks(gbk_decoding(raw).0, gbk_decoding(raw).1, budget)
    }
}

/// Chunks a text source given as GBK bytes, with a budget of `budget`
/// characters to a chunk.
pub fn chunk_text_source(raw: &[u8], budget: usize) -> (result: Result<Vec<String>, EncodingError>)
    ensures
        chunking_view(result) == text_source_chunks(raw@, budget as nat),
{
    if raw.len() == 0 {
        let chunks: Vec<String> = Vec::new();
        assert(chunks.deep_view() =~= Seq::<Seq<char>>::empty());
        return Ok(chunks);
    }
    if raw.len() > usize::MAX / 8 {
        return Err(EncodingError { encoding: SourceEncoding::Gbk });
    }
    let (text, malformed) = decode_gbk(raw);
    chunk_decoded(text.as_str(), malformed, budget)
}

/// What chunking the bytes of a line source comes to: the chunks of the text
/// that the bytes encode in UTF-8, or the encoding error where they encode
/// none.
pub open spec fn line_source_chunks(raw: Seq<u8>, per_chunk: nat) -> Result<
    Seq<Seq<char>>,
    EncodingError,
> {
    if valid_utf8(raw) {
        Ok(line_chunks(decode_utf8(raw), per_chunk))
    } else {
        Err(EncodingError { encoding: SourceEncoding::Utf8 })
    }
}

/// Chunks a line source given as UTF-8 bytes, with `per_chunk` lines to a
/// chunk.
pub fn chunk_line_source(raw: &[u8], per_chunk: usize) -> (result: Result<
    Vec<String>,
    EncodingError,
>)
    ensures
        chunking_view(result) == line_source_chunks(raw@, per_chunk as nat),
{
    match decode_utf8_bytes(raw) {
        Some(text) => {
            proof {
                vstd::utf8::encode_utf8_decode_utf8(text@);
            }
            Ok(chunk_lines(text.as_str(), per_chunk))
        },
        None => Err(EncodingError { encoding: SourceEncoding::Utf8 }),
    }
}

} // verus!
