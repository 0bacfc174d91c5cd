//! The map file format.
//!
//! A map file is UTF-8 text, read line by line. A line whose first character
//! is not whitespace starts a logical line; the lines after it that start
//! with whitespace continue it. A line that is empty once trimmed, or whose
//! first character that is not whitespace is `#`, is skipped wherever it
//! stands: it neither ends nor interrupts a logical line. So is a line that
//! is not valid UTF-8.
//!
//! ```text
//! teresa@example.com gay@example.com candice@example.net
//!     # a comment between two continuation lines
//!     hildegard@example.com taurean@example.org
//! alayna@example.com clara@example.net
//!     jordan@example.net
//! ```
//!
//! A logical line is split on ASCII whitespace. Its first token, in lower
//! case, is the key; the tokens after it are the values, kept as written.
//! A logical line of fewer than two tokens is dropped. Where two logical
//! lines have the same key, the later one replaces the earlier one.

use crate::maps::address_map::{lookup_spec, AddressMap, Mapping};
use crate::text::{
    char_is_whitespace, chars_of, eq_ignore_ascii_case, is_ascii_whitespace, is_whitespace,
    lowercase, str_from_utf8, string_from_chars, texts, to_lowercase,
};
use vstd::prelude::*;
use vstd::slice::slice_subrange;
use vstd::utf8::{decode_utf8, valid_utf8};

verus! {

/// The byte that ends a line.
pub const LINE_FEED: u8 = 10;

/// The byte that is dropped where it stands just before a line feed.
pub const CARRIAGE_RETURN: u8 = 13;

/// The first position at or after `from` that holds a line feed, or the
/// length of `bytes` where there is none.
pub open spec fn line_end(bytes: Seq<u8>, from: int) -> int
    decreases bytes.len() - from,
{
    if 0 <= from < bytes.len() && bytes[from] != LINE_FEED {
        line_end(bytes, from + 1)
    } else {
        from
    }
}

/// A line without the carriage return that stood before its line feed.
pub open spec fn strip_carriage_return(line: Seq<u8>) -> Seq<u8> {
    if line.len() > 0 && line.last() == CARRIAGE_RETURN {
        line.drop_last()
    } else {
        line
    }
}

/// The lines of `bytes` from position `from` on. A line runs up to the next
/// line feed and loses the carriage return before it; what follows the last
/// line feed is a line too, unless it is empty.
pub open spec fn lines_from(bytes: Seq<u8>, from: int) -> Seq<Seq<u8>>
    decreases bytes.len() - from,
{
    if from < 0 || from >= bytes.len() {
        Seq::empty()
    } else {
        let end = line_end(bytes, from);
        if end >= bytes.len() {
            seq![bytes.subrange(from, bytes.len() as int)]
        } else {
            proof {
                lemma_line_end(bytes, from);
            }
            seq![strip_carriage_return(bytes.subrange(from, end))] + lines_from(bytes, end + 1)
        }
    }
}

/// The lines of a file.
pub open spec fn file_lines(bytes: Seq<u8>) -> Seq<Seq<u8>> {
    lines_from(bytes, 0)
}

/// The first position at or after `from` that holds no whitespace, or the
/// length of `line` where only whitespace follows.
pub open spec fn text_start(line: Seq<char>, from: int) -> int
    decreases line.len() - from,
{
    if 0 <= from < line.len() && is_whitespace(line[from]) {
        text_start(line, from + 1)
    } else {
        from
    }
}

/// A line that carries nothing: it is empty once trimmed, or a comment.
pub open spec fn is_skipped(line: Seq<char>) -> bool {
    let start = text_start(line, 0);
    start >= line.len() || line[start] == '#'
}

/// A line that continues the logical line before it: its first character is
/// whitespace.
pub open spec fn continues(line: Seq<char>) -> bool {
    line.len() > 0 && is_whitespace(line[0])
}

/// The lines that carry something, decoded: those that are valid UTF-8 and
/// are not skipped.
pub open spec fn content_lines(lines: Seq<Seq<u8>>) -> Seq<Seq<char>>
    decreases lines.len(),
{
    if lines.len() == 0 {
        Seq::empty()
    } else {
        let earlier = content_lines(lines.drop_last());
        let line = lines.last();
        if valid_utf8(line) && !is_skipped(decode_utf8(line)) {
            earlier.push(decode_utf8(line))
        } else {
            earlier
        }
    }
}

/// The logical lines that a sequence of content lines makes up: the first
/// line starts one, and so does every later line that does not start with
/// whitespace; a line that does is joined to the logical line before it.
pub open spec fn logical_lines(content: Seq<Seq<char>>) -> Seq<Seq<char>>
    decreases content.len(),
{
    if content.len() == 0 {
        Seq::empty()
    } else {
        let earlier = logical_lines(content.drop_last());
        let line = content.last();
        if earlier.len() > 0 && continues(line) {
            earlier.drop_last().push(earlier.last() + line)
        } else {
            earlier.push(line)
        }
    }
}

/// The first position at or after `from` that holds no ASCII whitespace.
pub open spec fn skip_blanks(line: Seq<char>, from: int) -> int
    decreases line.len() - from,
{
    if 0 <= from < line.len() && is_ascii_whitespace(line[from]) {
        skip_blanks(line, from + 1)
    } else {
        from
    }
}

/// The first position at or after `from` that holds ASCII whitespace.
pub open spec fn token_end(line: Seq<char>, from: int) -> int
    decreases line.len() - from,
{
    if 0 <= from < line.len() && !is_ascii_whitespace(line[from]) {
        token_end(line, from + 1)
    } else {
        from
    }
}

/// The tokens of `line` from position `from` on: the maximal runs of
/// characters that are not ASCII whitespace, in their order.
pub open spec fn tokens_from(line: Seq<char>, from: int) -> Seq<Seq<char>>
    decreases line.len() - from,
{
    let start = skip_blanks(line, from);
    if from < 0 || start >= line.len() {
        Seq::empty()
    } else {
        let end = token_end(line, start);
        proof {
            lemma_skip_blanks(line, from);
            lemma_token_end(line, start);
        }
        seq![line.subrange(start, end)] + tokens_from(line, end)
    }
}

/// The tokens of a logical line.
pub open spec fn tokens(line: Seq<char>) -> Seq<Seq<char>> {
    tokens_from(line, 0)
}

/// A logical line that makes an entry: it has a key and at least one value.
pub open spec fn is_entry(line: Seq<char>) -> bool {
    tokens(line).len() >= 2
}

/// The key of an entry: its first token in lower case.
pub open spec fn entry_key(line: Seq<char>) -> Seq<char> {
    lowercase(tokens(line)[0])
}

/// The values of an entry: the tokens after the first, as written.
pub open spec fn entry_values(line: Seq<char>) -> Seq<Seq<char>> {
    tokens(line).skip(1)
}

/// `m` after one logical line: an entry binds its key to its values, in
/// place of what the key was bound to; any other line changes nothing.
pub open spec fn insert_entry(m: Mapping, line: Seq<char>) -> Mapping {
    if is_entry(line) {
        m.insert(entry_key(line), entry_values(line))
    } else {
        m
    }
}

/// The mapping that a sequence of logical lines describes.
pub open spec fn entries_map(entries: Seq<Seq<char>>) -> Mapping
    decreases entries.len(),
{
    if entries.len() == 0 {
        Map::empty()
    } else {
        insert_entry(entries_map(entries.drop_last()), entries.last())
    }
}

/// The logical lines of a map file.
pub open spec fn file_entries(content: Seq<u8>) -> Seq<Seq<char>> {
    logical_lines(content_lines(file_lines(content)))
}

/// The mapping that a map file describes.
pub open spec fn parse_map(content: Seq<u8>) -> Mapping {
    entries_map(file_entries(content))
}

/// The number of logical lines that are dropped because they are no entries:
/// they have a key and no value.
pub open spec fn dropped_count(entries: Seq<Seq<char>>) -> nat
    decreases entries.len(),
{
    if entries.len() == 0 {
        0
    } else if is_entry(entries.last()) {
        dropped_count(entries.drop_last())
    } else {
        dropped_count(entries.drop_last()) + 1
    }
}

/// The number of lines that are skipped because they are not valid UTF-8.
pub open spec fn unreadable_count(lines: Seq<Seq<u8>>) -> nat
    decreases lines.len(),
{
    if lines.len() == 0 {
        0
    } else if valid_utf8(lines.last()) {
        unreadable_count(lines.drop_last())
    } else {
        unreadable_count(lines.drop_last()) + 1
    }
}

/// A count after one more was counted. A count that has reached the largest
/// number stays there.
pub open spec fn one_more(count: usize) -> usize {
    if count < usize::MAX {
        (count + 1) as usize
    } else {
        count
    }
}

/// What the parser holds after the lines `seen`: the mapping and the count
/// of the logical lines that are complete, the count of the lines that
/// could not be read, and the logical line that may still grow.
spec fn parser_state(seen: Seq<Seq<u8>>, parser: ParserView, pending: Seq<char>) -> bool {
    let entries = logical_lines(content_lines(seen));
    &&& parser.unreadable_lines == unreadable_count(seen)
    &&& if entries.len() == 0 {
        parser.map == Mapping::empty() && parser.dropped_entries == 0 && pending.len() == 0
    } else {
        &&& parser.map == entries_map(entries.drop_last())
        &&& parser.dropped_entries == dropped_count(entries.drop_last())
        &&& pending == entries.last()
        &&& pending.len() > 0
    }
}

/// The position of the next line feed at or after `from`.
fn find_line_end(content: &[u8], from: usize) -> (end: usize)
    requires
        from <= content@.len(),
    ensures
        end == line_end(content@, from as int),
        from <= end <= content@.len(),
{
    let mut i: usize = from;
    while i < content.len() && content[i] != LINE_FEED
        invariant
            from <= i <= content@.len(),
            line_end(content@, from as int) == line_end(content@, i as int),
        decreases content@.len() - i,
    {
        i += 1;
    }
    i
}

/// Whether a line is empty once trimmed, or a comment.
fn is_skipped_line(line: &[char]) -> (skipped: bool)
    ensures
        skipped == is_skipped(line@),
{
    let mut i: usize = 0;
    while i < line.len() && char_is_whitespace(line[i])
        invariant
            i <= line@.len(),
            text_start(line@, 0) == text_start(line@, i as int),
        decreases line@.len() - i,
    {
        i += 1;
    }
    i >= line.len() || line[i] == '#'
}

/// Whether a line starts with whitespace.
fn is_continuation(line: &[char]) -> (b: bool)
    ensures
        b == continues(line@),
{
    line.len() > 0 && char_is_whitespace(line[0])
}

/// Splits a logical line into its tokens.
pub fn split_tokens(line: &[char]) -> (toks: Vec<String>)
    ensures
        texts(toks@) == tokens(line@),
{
    let mut toks: Vec<String> = Vec::new();
    let mut pos: usize = 0;
    assert(texts(toks@) + tokens_from(line@, 0) =~= tokens(line@));
    loop
        invariant
            pos <= line@.len(),
            tokens(line@) == texts(toks@) + tokens_from(line@, pos as int),
        ensures
            tokens(line@) == texts(toks@),
        decreases line@.len() - pos,
    {
        let mut start: usize = pos;
        while start < line.len() && is_blank(line[start])
            invariant
                pos <= start <= line@.len(),
                skip_blanks(line@, pos as int) == skip_blanks(line@, start as int),
            decreases line@.len() - start,
        {
            start += 1;
        }
        if start >= line.len() {
            assert(tokens_from(line@, pos as int) =~= Seq::<Seq<char>>::empty());
            assert(texts(toks@) + Seq::<Seq<char>>::empty() =~= texts(toks@));
            break;
        }
        let mut end: usize = start + 1;
        assert(token_end(line@, start as int) == token_end(line@, end as int));
        while end < line.len() && !is_blank(line[end])
            invariant
                start < end <= line@.len(),
                token_end(line@, start as int) == token_end(line@, end as int),
            decreases line@.len() - end,
        {
            end += 1;
        }
        let token = string_from_chars(slice_subrange(line, start, end));
        let ghost before = toks@;
        toks.push(token);
        assert(texts(toks@) =~= texts(before).push(line@.subrange(start as int, end as int)));
        assert(texts(toks@) + tokens_from(line@, end as int) =~= texts(before) + tokens_from(
            line@,
            pos as int,
        ));
        pos = end;
    }
    toks
}

/// Whether `c` separates tokens.
fn is_blank(c: char) -> (b: bool)
    ensures
        b == is_ascii_whitespace(c),
{
    c == ' ' || c == '\t' || c == '\n' || c == '\x0C' || c == '\r'
}

/// Reads map files into a mapping, and counts what it had to leave out.
pub struct MapParser {
    map: AddressMap,
    dropped: usize,
    unreadable: usize,
}

/// What a parser holds.
pub struct ParserView {
    /// The mapping read so far.
    pub map: Mapping,
    /// The number of logical lines that were dropped because they have a key
    /// and no value.
    pub dropped_entries: usize,
    /// The number of lines that were skipped because they are not valid
    /// UTF-8.
    pub unreadable_lines: usize,
}

impl View for MapParser {
    type V = ParserView;

    closed spec fn view(&self) -> ParserView {
        ParserView {
            map: self.map@,
            dropped_entries: self.dropped,
            unreadable_lines: self.unreadable,
        }
    }
}

impl MapParser {
    /// Parses the content of a map file.
    pub fn from_map_file(content: &[u8]) -> (parser: MapParser)
        ensures
            parser@.map == parse_map(content@),
            parser@.dropped_entries == dropped_count(file_entries(content@)),
            parser@.unreadable_lines == unreadable_count(file_lines(content@)),
    {
        let mut parser = MapParser { map: AddressMap::new(), dropped: 0, unreadable: 0 };
        // Holds the logical line that is being read: an entry may run over
        // several lines of the file.
        let mut line_buf: Vec<char> = Vec::new();
        let ghost mut seen: Seq<Seq<u8>> = Seq::empty();
        let mut start: usize = 0;
        assert(seen + lines_from(content@, 0) =~= file_lines(content@));
        while start < content.len()
            invariant
                start <= content@.len(),
                seen.len() <= start,
                file_lines(content@) == seen + lines_from(content@, start as int),
                parser_state(seen, parser@, line_buf@),
            decreases content@.len() - start,
        {
            let end = find_line_end(content, start);
            let ghost rest = lines_from(content@, start as int);
            let line = if end < content.len() {
                let raw = slice_subrange(content, start, end);
                if raw.len() > 0 && raw[raw.len() - 1] == CARRIAGE_RETURN {
                    slice_subrange(raw, 0, raw.len() - 1)
                } else {
                    raw
                }
            } else {
                slice_subrange(content, start, end)
            };
            let next = if end < content.len() {
                end + 1
            } else {
                end
            };
            proof {
                assert(rest =~= seq![line@] + lines_from(content@, next as int));
                assert(seen.push(line@) + lines_from(content@, next as int) =~= seen + rest);
            }
            parser.read_line(&mut line_buf, line, Ghost(seen));
            proof {
                seen = seen.push(line@);
            }
            start = next;
        }
        assert(seen =~= file_lines(content@)) by {
            assert(lines_from(content@, start as int) =~= Seq::<Seq<u8>>::empty());
        }
        // The last logical line has no line after it to end it.
        if line_buf.len() > 0 {
            proof {
                lemma_counts_are_bounded(seen);
            }
            parser.process_chars(line_buf.as_slice());
        }
        parser
    }

    /// The number of logical lines that were dropped because they have a
    /// key and no value.
    pub fn dropped_entries(&self) -> (count: usize)
        ensures
            count == self@.dropped_entries,
    {
        self.dropped
    }

    /// The number of lines that were skipped because they are not valid
    /// UTF-8.
    pub fn unreadable_lines(&self) -> (count: usize)
        ensures
            count == self@.unreadable_lines,
    {
        self.unreadable
    }

    /// Consumes the parser and returns the mapping it has read.
    pub fn into_map(self) -> (map: AddressMap)
        ensures
            map@ == self@.map,
    {
        self.map
    }

    /// Takes one logical line: where it is an entry, its key is bound to its
    /// values; else the line is dropped and counted.
    pub fn process_line(&mut self, line: &str)
        ensures
            final(self)@.map == insert_entry(old(self)@.map, line@),
            final(self)@.dropped_entries == if is_entry(line@) {
                old(self)@.dropped_entries
            } else {
                one_more(old(self)@.dropped_entries)
            },
            final(self)@.unreadable_lines == old(self)@.unreadable_lines,
    {
        let chars = chars_of(line);
        self.process_chars(chars.as_slice());
    }

    fn process_chars(&mut self, line: &[char])
        ensures
            final(self)@.map == insert_entry(old(self)@.map, line@),
            final(self)@.dropped_entries == if is_entry(line@) {
                old(self)@.dropped_entries
            } else {
                one_more(old(self)@.dropped_entries)
            },
            final(self)@.unreadable_lines == old(self)@.unreadable_lines,
    {
        let mut list = split_tokens(line);
        // An entry has a key and at least one value.
        if list.len() < 2 {
            if self.dropped < usize::MAX {
                self.dropped += 1;
            }
            return ;
        }
        let ghost all = list@;
        let head = list.remove(0);
        // The key is folded here; the values are compared at lookup time.
        let key = to_lowercase(head.as_str());
        assert(texts(list@) =~= texts(all).skip(1));
        self.map.insert(key, list);
    }

    /// Takes one line of the file, after the lines `seen`.
    fn read_line(
        &mut self,
        line_buf: &mut Vec<char>,
        line: &[u8],
        Ghost(seen): Ghost<Seq<Seq<u8>>>,
    )
        requires
            parser_state(seen, old(self)@, old(line_buf)@),
            seen.len() < usize::MAX,
        ensures
            parser_state(seen.push(line@), final(self)@, final(line_buf)@),
    {
        let ghost now = seen.push(line@);
        assert(now.drop_last() =~= seen);
        let ghost content = content_lines(seen);
        let ghost entries = logical_lines(content);
        proof {
            lemma_counts_are_bounded(seen);
        }
        match str_from_utf8(line) {
            None => {
                self.unreadable += 1;
            },
            Some(text) => {
                let mut chars = chars_of(text);
                if !is_skipped_line(chars.as_slice()) {
                    assert(content_lines(now) == content.push(chars@));
                    assert(content.push(chars@).drop_last() =~= content);
                    if line_buf.len() == 0 || is_continuation(chars.as_slice()) {
                        line_buf.append(&mut chars);
                        proof {
                            if entries.len() == 0 {
                                assert(line_buf@ =~= text@);
                                assert(entries.push(text@).drop_last() =~= entries);
                            } else {
                                let joined = entries.drop_last().push(entries.last() + text@);
                                assert(joined.drop_last() =~= entries.drop_last());
                            }
                        }
                    } else {
                        self.process_chars(line_buf.as_slice());
                        *line_buf = chars;
                        proof {
                            assert(entries.push(text@).drop_last() =~= entries);
                        }
                    }
                }
            },
        }
    }
}

/// No entry after position `i` has the key of the entry at `i`.
pub open spec fn is_last_of_its_key(entries: Seq<Seq<char>>, i: int) -> bool {
    forall|j: int|
        i < j < entries.len() && is_entry(#[trigger] entries[j]) ==> entry_key(entries[j])
            != entry_key(entries[i])
}

/// A key is bound exactly when some entry has it.
pub proof fn keys_are_entry_keys(entries: Seq<Seq<char>>, key: Seq<char>)
    ensures
        entries_map(entries).contains_key(key) <==> exists|i: int|
            0 <= i < entries.len() && is_entry(#[trigger] entries[i]) && entry_key(entries[i])
                == key,
    decreases entries.len(),
{
    if entries.len() > 0 {
        let earlier = entries.drop_last();
        keys_are_entry_keys(earlier, key);
        if entries_map(entries).contains_key(key) {
            if is_entry(entries.last()) && entry_key(entries.last()) == key {
                assert(is_entry(entries[entries.len() - 1]));
            } else {
                let i = choose|i: int|
                    0 <= i < earlier.len() && is_entry(#[trigger] earlier[i]) && entry_key(
                        earlier[i],
                    ) == key;
                assert(is_entry(entries[i]));
            }
        }
        if exists|i: int|
            0 <= i < entries.len() && is_entry(#[trigger] entries[i]) && entry_key(entries[i])
                == key {
            let i = choose|i: int|
                0 <= i < entries.len() && is_entry(#[trigger] entries[i]) && entry_key(entries[i])
                    == key;
            if i < entries.len() - 1 {
                assert(is_entry(earlier[i]));
            }
        }
    }
}

/// A key is bound to the values of the last entry that has it, and to
/// nothing else: a later entry replaces an earlier one entirely.
pub proof fn last_entry_decides(entries: Seq<Seq<char>>, i: int)
    requires
        0 <= i < entries.len(),
        is_entry(entries[i]),
        is_last_of_its_key(entries, i),
    ensures
        entries_map(entries).contains_key(entry_key(entries[i])),
        entries_map(entries)[entry_key(entries[i])] == entry_values(entries[i]),
    decreases entries.len(),
{
    let earlier = entries.drop_last();
    if i < entries.len() - 1 {
        assert(earlier[i] == entries[i]);
        assert(is_last_of_its_key(earlier, i)) by {
            assert forall|j: int|
                i < j < earlier.len() && is_entry(#[trigger] earlier[j]) implies entry_key(
                earlier[j],
            ) != entry_key(earlier[i]) by {
                assert(earlier[j] == entries[j]);
            }
        }
        last_entry_decides(earlier, i);
        assert(entries.last() == entries[entries.len() - 1]);
    }
}

/// A file that holds nothing but comments, blank lines and lines that are
/// not valid UTF-8 describes the empty mapping.
pub proof fn file_without_content_is_empty(content: Seq<u8>)
    requires
        content_lines(file_lines(content)).len() == 0,
    ensures
        parse_map(content) == Mapping::empty(),
{
}

/// Every pair that a map file lists is found again: where an entry of the
/// file lists a value for its key, and no later entry has the same key, a
/// lookup finds the value under the key, whatever the case in which the key
/// is asked for and whatever the case of the ASCII letters of the value.
pub proof fn listed_pair_is_found(
    content: Seq<u8>,
    i: int,
    j: int,
    key: Seq<char>,
    candidate: Seq<char>,
)
    requires
        0 <= i < file_entries(content).len(),
        is_entry(file_entries(content)[i]),
        is_last_of_its_key(file_entries(content), i),
        1 <= j < tokens(file_entries(content)[i]).len(),
        lowercase(key) == lowercase(tokens(file_entries(content)[i])[0]),
        eq_ignore_ascii_case(tokens(file_entries(content)[i])[j], candidate),
    ensures
        lookup_spec(parse_map(content), key, candidate),
{
    let entries = file_entries(content);
    last_entry_decides(entries, i);
    let values = parse_map(content)[lowercase(key)];
    assert(values[j - 1] == tokens(entries[i])[j]);
}

/// The key of a logical line with a single token is not bound, unless an
/// entry of the file has that key.
pub proof fn key_without_values_is_absent(content: Seq<u8>, i: int)
    requires
        0 <= i < file_entries(content).len(),
        tokens(file_entries(content)[i]).len() == 1,
        forall|j: int|
            0 <= j < file_entries(content).len() && is_entry(#[trigger] file_entries(content)[j])
                ==> entry_key(file_entries(content)[j]) != entry_key(file_entries(content)[i]),
    ensures
        !parse_map(content).contains_key(lowercase(tokens(file_entries(content)[i])[0])),
{
    keys_are_entry_keys(file_entries(content), entry_key(file_entries(content)[i]));
}

/// Where two entries of a file have the same key, the key is bound to the
/// values of the later one alone, once no entry after it has that key.
pub proof fn later_entry_replaces_earlier(content: Seq<u8>, i: int, j: int)
    requires
        0 <= i < j < file_entries(content).len(),
        is_entry(file_entries(content)[i]),
        is_entry(file_entries(content)[j]),
        entry_key(file_entries(content)[i]) == entry_key(file_entries(content)[j]),
        is_last_of_its_key(file_entries(content), j),
    ensures
        parse_map(content).contains_key(entry_key(file_entries(content)[i])),
        parse_map(content)[entry_key(file_entries(content)[i])] == entry_values(
            file_entries(content)[j],
        ),
{
    last_entry_decides(file_entries(content), j);
}

/// No more lines are left out than there are lines.
proof fn lemma_counts_are_bounded(lines: Seq<Seq<u8>>)
    ensures
        unreadable_count(lines) <= lines.len(),
        content_lines(lines).len() <= lines.len(),
        logical_lines(content_lines(lines)).len() <= lines.len(),
        dropped_count(logical_lines(content_lines(lines))) <= lines.len(),
        logical_lines(content_lines(lines)).len() > 0 ==> dropped_count(
            logical_lines(content_lines(lines)).drop_last(),
        ) < lines.len(),
{
    lemma_unreadable_bound(lines);
    lemma_content_bound(lines);
    let content = content_lines(lines);
    lemma_logical_bound(content);
    let entries = logical_lines(content);
    lemma_dropped_bound(entries);
    if entries.len() > 0 {
        lemma_dropped_bound(entries.drop_last());
    }
}

proof fn lemma_unreadable_bound(lines: Seq<Seq<u8>>)
    ensures
        unreadable_count(lines) <= lines.len(),
    decreases lines.len(),
{
    if lines.len() > 0 {
        lemma_unreadable_bound(lines.drop_last());
    }
}

proof fn lemma_content_bound(lines: Seq<Seq<u8>>)
    ensures
        content_lines(lines).len() <= lines.len(),
    decreases lines.len(),
{
    if lines.len() > 0 {
        lemma_content_bound(lines.drop_last());
    }
}

proof fn lemma_logical_bound(content: Seq<Seq<char>>)
    ensures
        logical_lines(content).len() <= content.len(),
    decreases content.len(),
{
    if content.len() > 0 {
        lemma_logical_bound(content.drop_last());
    }
}

proof fn lemma_dropped_bound(entries: Seq<Seq<char>>)
    ensures
        dropped_count(entries) <= entries.len(),
    decreases entries.len(),
{
    if entries.len() > 0 {
        lemma_dropped_bound(entries.drop_last());
    }
}

/// Where a line ends: at or after its start, on a line feed or at the end of
/// the file.
pub proof fn lemma_line_end(bytes: Seq<u8>, from: int)
    requires
        0 <= from <= bytes.len(),
    ensures
        from <= line_end(bytes, from) <= bytes.len(),
        line_end(bytes, from) < bytes.len() ==> bytes[line_end(bytes, from)] == LINE_FEED,
    decreases bytes.len() - from,
{
    if from < bytes.len() && bytes[from] != LINE_FEED {
        lemma_line_end(bytes, from + 1);
    }
}

/// Where the blanks before a token end: on a character that is no ASCII
/// whitespace, or at the end of the line.
pub proof fn lemma_skip_blanks(line: Seq<char>, from: int)
    requires
        0 <= from,
    ensures
        from <= skip_blanks(line, from),
        from <= line.len() ==> skip_blanks(line, from) <= line.len(),
        skip_blanks(line, from) < line.len() ==> !is_ascii_whitespace(
            line[skip_blanks(line, from)],
        ),
    decreases line.len() - from,
{
    if from < line.len() && is_ascii_whitespace(line[from]) {
        lemma_skip_blanks(line, from + 1);
    }
}

/// Where a token ends: after its first character, which is no ASCII
/// whitespace, and within the line.
pub proof fn lemma_token_end(line: Seq<char>, from: int)
    requires
        0 <= from <= line.len(),
    ensures
        from <= token_end(line, from) <= line.len(),
        from < line.len() && !is_ascii_whitespace(line[from]) ==> from < token_end(line, from),
    decreases line.len() - from,
{
    if from < line.len() && !is_ascii_whitespace(line[from]) {
        lemma_token_end(line, from + 1);
    }
}

} // verus!
