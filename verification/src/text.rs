//! Text building blocks of the DOT emitter: escaping of quoted strings, label
//! truncation, decimal numbers, and string comparison.
use vstd::prelude::*;

verus! {

/// `String::push` appends exactly one character to the end of the string and
/// leaves the characters already there untouched.
pub assume_specification[ String::push ](s: &mut String, c: char)
    ensures
        final(s)@ == old(s)@.push(c),
;

/// All the parts joined end to end, in order.
pub open spec fn concat_all(parts: Seq<Seq<char>>) -> Seq<char>
    decreases parts.len(),
{
    if parts.len() == 0 {
        Seq::empty()
    } else {
        concat_all(parts.drop_last()) + parts.last()
    }
}

/// Joining the first `i + 1` parts is joining the first `i` and appending part `i`.
pub proof fn lemma_concat_all_step(parts: Seq<Seq<char>>, i: int)
    requires
        0 <= i < parts.len(),
    ensures
        concat_all(parts.take(i + 1)) == concat_all(parts.take(i)) + parts[i],
{
    assert(parts.take(i + 1).drop_last() =~= parts.take(i));
}

/// The escaped form of one character inside a DOT quoted string: a backslash
/// is doubled, a double quote gets a backslash in front, a line feed becomes
/// backslash and `n`; every other character stands for itself.
pub open spec fn escape_char(c: char) -> Seq<char> {
    if c == '\\' {
        seq!['\\', '\\']
    } else if c == '"' {
        seq!['\\', '"']
    } else if c == '\n' {
        seq!['\\', 'n']
    } else {
        seq![c]
    }
}

/// The escaped form of a text: the escaped forms of its characters, in order.
pub open spec fn escape_seq(s: Seq<char>) -> Seq<char>
    decreases s.len(),
{
    if s.len() == 0 {
        Seq::empty()
    } else {
        escape_seq(s.drop_last()) + escape_char(s.last())
    }
}

/// Escaping works character by character: the escaped form of a text that
/// starts with `c` is the escaped form of `c`, then that of the rest.
pub proof fn lemma_escape_front(c: char, rest: Seq<char>)
    ensures
        escape_seq(seq![c] + rest) == escape_char(c) + escape_seq(rest),
    decreases rest.len(),
{
    let whole = seq![c] + rest;
    if rest.len() == 0 {
        assert(whole.drop_last().len() == 0);
        assert(escape_seq(whole.drop_last()) =~= Seq::<char>::empty());
        assert(escape_seq(rest) =~= Seq::<char>::empty());
        assert(whole.last() == c);
        assert(escape_seq(whole) =~= escape_char(c) + escape_seq(rest));
    } else {
        assert(whole.drop_last() =~= seq![c] + rest.drop_last());
        lemma_escape_front(c, rest.drop_last());
        assert(escape_seq(whole) =~= escape_char(c) + escape_seq(rest));
    }
}

/// What one character becomes when every `target` is replaced by `with`.
pub open spec fn replace_one(c: char, target: char, with: Seq<char>) -> Seq<char> {
    if c == target {
        with
    } else {
        seq![c]
    }
}

/// A text with every `target` replaced by `with`.
pub open spec fn replace_char(s: Seq<char>, target: char, with: Seq<char>) -> Seq<char>
    decreases s.len(),
{
    if s.len() == 0 {
        Seq::empty()
    } else {
        replace_char(s.drop_last(), target, with) + replace_one(s.last(), target, with)
    }
}

/// Escaping as three replacements, one after the other: first every
/// backslash is doubled, then every double quote gets a backslash, then every
/// line feed becomes backslash and `n`.
pub open spec fn escape_in_three_passes(s: Seq<char>) -> Seq<char> {
    replace_char(
        replace_char(replace_char(s, '\\', seq!['\\', '\\']), '"', seq!['\\', '"']),
        '\n',
        seq!['\\', 'n'],
    )
}

/// Replacing in a text made of two parts is replacing in each part.
pub proof fn lemma_replace_char_concat(a: Seq<char>, b: Seq<char>, target: char, with: Seq<char>)
    ensures
        replace_char(a + b, target, with) == replace_char(a, target, with) + replace_char(
            b,
            target,
            with,
        ),
    decreases b.len(),
{
    if b.len() == 0 {
        assert(a + b =~= a);
        assert(replace_char(a, target, with) + replace_char(b, target, with) =~= replace_char(
            a,
            target,
            with,
        ));
    } else {
        assert((a + b).drop_last() =~= a + b.drop_last());
        lemma_replace_char_concat(a, b.drop_last(), target, with);
        assert(replace_char(a + b, target, with) =~= replace_char(a, target, with) + replace_char(
            b,
            target,
            with,
        ));
    }
}

/// Replacing in a text of one character.
proof fn lemma_replace_char_single(c: char, target: char, with: Seq<char>)
    ensures
        replace_char(seq![c], target, with) == replace_one(c, target, with),
{
    let s = seq![c];
    assert(replace_char(s.drop_last(), target, with) =~= Seq::<char>::empty());
    assert(replace_char(s, target, with) =~= replace_one(c, target, with));
}

/// Replacing in a text of two characters.
proof fn lemma_replace_char_pair(c: char, d: char, target: char, with: Seq<char>)
    ensures
        replace_char(seq![c, d], target, with) == replace_one(c, target, with) + replace_one(
            d,
            target,
            with,
        ),
{
    assert(seq![c, d] =~= seq![c] + seq![d]);
    lemma_replace_char_concat(seq![c], seq![d], target, with);
    lemma_replace_char_single(c, target, with);
    lemma_replace_char_single(d, target, with);
}

/// The three replacements, applied to one character, give its escaped form:
/// no later replacement touches what an earlier one wrote, because the
/// backslashes are doubled before any other backslash is written.
proof fn lemma_three_passes_of_one(c: char)
    ensures
        escape_in_three_passes(seq![c]) == escape_char(c),
{
    let slashes = seq!['\\', '\\'];
    let quote = seq!['\\', '"'];
    let feed = seq!['\\', 'n'];
    lemma_replace_char_single(c, '\\', slashes);
    if c == '\\' {
        lemma_replace_char_pair('\\', '\\', '"', quote);
        assert(replace_char(slashes, '"', quote) =~= slashes);
        lemma_replace_char_pair('\\', '\\', '\n', feed);
        assert(replace_char(slashes, '\n', feed) =~= slashes);
    } else if c == '"' {
        lemma_replace_char_single(c, '"', quote);
        lemma_replace_char_pair('\\', '"', '\n', feed);
        assert(replace_char(quote, '\n', feed) =~= quote);
    } else {
        lemma_replace_char_single(c, '"', quote);
        lemma_replace_char_single(c, '\n', feed);
    }
}

/// Escaping in one pass is escaping by the three replacements in their
/// order: backslash first, then double quote, then line feed.
pub proof fn lemma_escape_is_three_passes(s: Seq<char>)
    ensures
        escape_seq(s) == escape_in_three_passes(s),
    decreases s.len(),
{
    let slashes = seq!['\\', '\\'];
    let quote = seq!['\\', '"'];
    let feed = seq!['\\', 'n'];
    if s.len() == 0 {
        assert(replace_char(s, '\\', slashes) =~= Seq::<char>::empty());
        assert(replace_char(Seq::<char>::empty(), '"', quote) =~= Seq::<char>::empty());
        assert(replace_char(Seq::<char>::empty(), '\n', feed) =~= Seq::<char>::empty());
    } else {
        let head = s.drop_last();
        let c = s.last();
        lemma_escape_is_three_passes(head);
        lemma_three_passes_of_one(c);
        lemma_replace_char_single(c, '\\', slashes);
        let head1 = replace_char(head, '\\', slashes);
        let last1 = replace_char(seq![c], '\\', slashes);
        assert(replace_char(s, '\\', slashes) == head1 + last1);
        lemma_replace_char_concat(head1, last1, '"', quote);
        let head2 = replace_char(head1, '"', quote);
        let last2 = replace_char(last1, '"', quote);
        lemma_replace_char_concat(head2, last2, '\n', feed);
    }
}

/// What a backslash and the character after it stand for when a DOT string is
/// read: a backslash, a double quote, or a line feed; before any other
/// character the backslash stands for itself.
pub open spec fn unescape_pair(c: char) -> Seq<char> {
    if c == '\\' {
        seq!['\\']
    } else if c == '"' {
        seq!['"']
    } else if c == 'n' {
        seq!['\n']
    } else {
        seq!['\\', c]
    }
}

/// Reads the inside of a DOT quoted string from the start of `text`, up to
/// and including the closing double quote: the first one that no backslash
/// protects. Gives the text that the string stands for and the number of
/// characters read, or `None` where the string is not closed.
pub open spec fn read_quoted_body(text: Seq<char>) -> Option<(Seq<char>, int)>
    decreases text.len(),
{
    if text.len() == 0 {
        None
    } else if text[0] == '"' {
        Some((Seq::empty(), 1))
    } else if text[0] == '\\' && text.len() >= 2 {
        match read_quoted_body(text.skip(2)) {
            Some((value, read)) => Some((unescape_pair(text[1]) + value, read + 2)),
            None => None,
        }
    } else {
        match read_quoted_body(text.skip(1)) {
            Some((value, read)) => Some((seq![text[0]] + value, read + 1)),
            None => None,
        }
    }
}

/// Reads a DOT quoted string that starts at position `at` of `text`. Gives
/// the text that the string stands for and the position behind its closing
/// double quote, or `None` where no closed quoted string starts there.
pub open spec fn read_quoted_at(text: Seq<char>, at: int) -> Option<(Seq<char>, int)> {
    if 0 <= at < text.len() && text[at] == '"' {
        match read_quoted_body(text.skip(at + 1)) {
            Some((value, read)) => Some((value, at + 1 + read)),
            None => None,
        }
    } else {
        None
    }
}

/// A text between double quotes, escaped.
pub open spec fn quoted(s: Seq<char>) -> Seq<char> {
    seq!['"'] + escape_seq(s) + seq!['"']
}

/// Escaping round trip, inside the quotes: whatever follows the closing
/// quote, reading the escaped form of `s` gives back `s` and stops at that
/// quote. This holds of every text, whether or not it holds backslashes,
/// double quotes or line feeds.
pub proof fn lemma_read_escaped(s: Seq<char>, rest: Seq<char>)
    ensures
        read_quoted_body(escape_seq(s) + seq!['"'] + rest) == Some(
            (s, escape_seq(s).len() as int + 1),
        ),
    decreases s.len(),
{
    let text = escape_seq(s) + seq!['"'] + rest;
    if s.len() == 0 {
        assert(text[0] == '"');
        assert(s =~= Seq::<char>::empty());
    } else {
        let c = s[0];
        let tail = s.drop_first();
        assert(s =~= seq![c] + tail);
        lemma_escape_front(c, tail);
        lemma_read_escaped(tail, rest);
        let after = escape_seq(tail) + seq!['"'] + rest;
        if c == '\\' || c == '"' || c == '\n' {
            assert(text[0] == '\\');
            assert(text.len() >= 2);
            assert(text.skip(2) =~= after);
            assert(unescape_pair(text[1]) =~= seq![c]);
        } else {
            assert(text[0] == c);
            assert(text.skip(1) =~= after);
        }
    }
}

/// Escaping round trip: where a text holds the quoted form of `s` at
/// position `at`, a reader of DOT strings that starts there gets `s` back and
/// ends right behind the quoted form, whatever `s` holds and whatever
/// follows.
pub proof fn lemma_read_quoted(before: Seq<char>, s: Seq<char>, rest: Seq<char>)
    ensures
        read_quoted_at(before + quoted(s) + rest, before.len() as int) == Some(
            (s, before.len() as int + quoted(s).len()),
        ),
{
    let text = before + quoted(s) + rest;
    let at = before.len() as int;
    assert(text[at] == '"');
    assert(text.skip(at + 1) =~= escape_seq(s) + seq!['"'] + rest);
    lemma_read_escaped(s, rest);
}

/// What follows the closing quote has no part in how a quoted string is read.
pub proof fn lemma_read_body_extends(text: Seq<char>, more: Seq<char>)
    requires
        read_quoted_body(text) is Some,
    ensures
        read_quoted_body(text + more) == read_quoted_body(text),
    decreases text.len(),
{
    let longer = text + more;
    if text[0] == '"' {
    } else if text[0] == '\\' && text.len() >= 2 {
        assert(longer.skip(2) =~= text.skip(2) + more);
        lemma_read_body_extends(text.skip(2), more);
    } else {
        assert(longer.skip(1) =~= text.skip(1) + more);
        lemma_read_body_extends(text.skip(1), more);
    }
}

/// A quoted string is read in the same way whatever is appended to the text
/// that holds it.
pub proof fn lemma_read_extends(text: Seq<char>, more: Seq<char>, at: int)
    requires
        read_quoted_at(text, at) is Some,
    ensures
        read_quoted_at(text + more, at) == read_quoted_at(text, at),
{
    assert((text + more).skip(at + 1) =~= text.skip(at + 1) + more);
    lemma_read_body_extends(text.skip(at + 1), more);
}

/// A quoted string is read in the same way whatever stands in front of the
/// text that holds it; only the positions move.
pub proof fn lemma_read_shifted(front: Seq<char>, text: Seq<char>, at: int)
    requires
        0 <= at,
    ensures
        read_quoted_at(front + text, front.len() + at) == match read_quoted_at(text, at) {
            Some((value, end)) => Some((value, front.len() + end)),
            None => None,
        },
{
    if at < text.len() {
        assert((front + text).skip(front.len() + at + 1) =~= text.skip(at + 1));
    }
}

/// Escapes a text for use between the double quotes of a DOT string.
pub fn escape_dot(s: &str) -> (out: String)
    ensures
        out@ == escape_seq(s@),
{
    let mut out = String::new();
    for c in it: s.chars()
        invariant
            it.seq() == s@,
            out@ == escape_seq(s@.subrange(0, it.index() as int)),
    {
        proof {
            let i = it.index() as int;
            assert(s@.subrange(0, i + 1).drop_last() =~= s@.subrange(0, i));
        }
        let ghost before = out@;
        if c == '\\' {
            out.push('\\');
            out.push('\\');
        } else if c == '"' {
            out.push('\\');
            out.push('"');
        } else if c == '\n' {
            out.push('\\');
            out.push('n');
        } else {
            out.push(c);
        }
        assert(out@ =~= before + escape_char(c));
    }
    assert(s@.subrange(0, s@.len() as int) =~= s@);
    out
}

/// Appends the escaped form of `s` to `out`.
pub fn push_escaped(out: &mut String, s: &str)
    ensures
        final(out)@ == old(out)@ + escape_seq(s@),
{
    let escaped = escape_dot(s);
    out.append(escaped.as_str());
}

/// Appends `s` between double quotes, escaped.
pub fn push_quoted(out: &mut String, s: &str)
    ensures
        final(out)@ == old(out)@ + quoted(s@),
{
    out.push('"');
    push_escaped(out, s);
    out.push('"');
    assert(out@ =~= old(out)@ + quoted(s@));
}

/// A text cut to at most `max_len` characters: unchanged where it fits, else
/// its first `max_len - 3` characters (none where `max_len < 3`) and `...`.
pub open spec fn truncate_seq(s: Seq<char>, max_len: nat) -> Seq<char> {
    if s.len() <= max_len {
        s
    } else if max_len >= 3 {
        s.take(max_len - 3) + "..."@
    } else {
        "..."@
    }
}

/// Cuts a text to at most `max_len` characters, marking the cut with `...`.
/// Length is counted in characters.
pub fn truncate(s: &str, max_len: usize) -> (out: String)
    ensures
        out@ == truncate_seq(s@, max_len as nat),
{
    let n = s.unicode_len();
    if n <= max_len {
        String::from_str(s)
    } else {
        let keep: usize = if max_len >= 3 {
            max_len - 3
        } else {
            0
        };
        let mut out = String::from_str(s.substring_char(0, keep));
        out.append("...");
        assert(s@.subrange(0, keep as int) =~= s@.take(keep as int));
        assert(s@.take(0) + "..."@ =~= "..."@);
        out
    }
}

/// The character of one decimal digit.
pub open spec fn digit_char(d: nat) -> char {
    if d == 0 {
        '0'
    } else if d == 1 {
        '1'
    } else if d == 2 {
        '2'
    } else if d == 3 {
        '3'
    } else if d == 4 {
        '4'
    } else if d == 5 {
        '5'
    } else if d == 6 {
        '6'
    } else if d == 7 {
        '7'
    } else if d == 8 {
        '8'
    } else {
        '9'
    }
}

/// A number in decimal, most significant digit first, without leading zeros.
pub open spec fn decimal_seq(n: nat) -> Seq<char>
    decreases n,
{
    if n < 10 {
        seq![digit_char(n)]
    } else {
        decimal_seq(n / 10).push(digit_char(n % 10))
    }
}

fn digit(d: u64) -> (c: char)
    requires
        d < 10,
    ensures
        c == digit_char(d as nat),
{
    if d == 0 {
        '0'
    } else if d == 1 {
        '1'
    } else if d == 2 {
        '2'
    } else if d == 3 {
        '3'
    } else if d == 4 {
        '4'
    } else if d == 5 {
        '5'
    } else if d == 6 {
        '6'
    } else if d == 7 {
        '7'
    } else if d == 8 {
        '8'
    } else {
        '9'
    }
}

/// Appends `n` in decimal to `out`.
pub fn push_decimal(out: &mut String, n: u64)
    ensures
        final(out)@ == old(out)@ + decimal_seq(n as nat),
    decreases n,
{
    if n >= 10 {
        push_decimal(out, n / 10);
    }
    out.push(digit(n % 10));
    assert(out@ =~= old(out)@ + decimal_seq(n as nat));
}

/// Whether two texts hold the same characters.
pub fn str_eq(a: &str, b: &str) -> (same: bool)
    ensures
        same == (a@ == b@),
{
    let x = a.as_bytes();
    let y = b.as_bytes();
    proof {
        vstd::utf8::encode_utf8_decode_utf8(a@);
        vstd::utf8::encode_utf8_decode_utf8(b@);
    }
    if x.len() != y.len() {
        return false;
    }
    let mut i: usize = 0;
    while i < x.len()
        invariant
            x@.len() == y@.len(),
            i <= x@.len(),
            x@.take(i as int) == y@.take(i as int),
            a@ == b@ ==> x@ == y@,
        decreases x@.len() - i,
    {
        if x[i] != y[i] {
            return false;
        }
        assert(x@.take(i + 1) =~= x@.take(i as int).push(x@[i as int]));
        assert(y@.take(i + 1) =~= y@.take(i as int).push(y@[i as int]));
        i = i + 1;
    }
    assert(x@ =~= x@.take(i as int));
    assert(y@ =~= y@.take(i as int));
    true
}

/// Whether `part` occurs in `text` as a run of neighbouring characters.
pub open spec fn has_infix(text: Seq<char>, part: Seq<char>) -> bool {
    exists|i: int| 0 <= i && i + part.len() <= text.len() && #[trigger] text.subrange(i, i + part.len()) == part
}

} // verus!
