//! The weight of an edge: a decimal number, kept as the text that DOT reads.
use crate::text::{decimal_seq, digit_char, push_decimal};
use vstd::prelude::*;

verus! {

/// Whether a character is a decimal digit.
pub open spec fn is_digit(c: char) -> bool {
    c == '0' || c == '1' || c == '2' || c == '3' || c == '4' || c == '5' || c == '6' || c == '7'
        || c == '8' || c == '9'
}

/// The number of digits that a text starts with.
pub open spec fn leading_digits(s: Seq<char>) -> nat
    decreases s.len(),
{
    if s.len() > 0 && is_digit(s[0]) {
        1 + leading_digits(s.skip(1))
    } else {
        0
    }
}

/// Whether a text is a decimal number without sign: one or more digits, and
/// then nothing more, or a point and one or more digits to the end.
pub open spec fn is_unsigned_decimal(s: Seq<char>) -> bool {
    let whole = leading_digits(s) as int;
    &&& whole > 0
    &&& whole == s.len() || {
        &&& s[whole] == '.'
        &&& whole + 1 < s.len()
        &&& leading_digits(s.skip(whole + 1)) == s.len() - whole - 1
    }
}

/// Whether a text is a decimal number: a decimal number without sign, or one
/// behind a minus sign. `2`, `2.5` and `-0.25` are; `.5`, `2.`, `1e3`, `NaN`
/// and the empty text are not.
pub open spec fn is_decimal_number(s: Seq<char>) -> bool {
    if s.len() > 0 && s[0] == '-' {
        is_unsigned_decimal(s.skip(1))
    } else {
        is_unsigned_decimal(s)
    }
}

/// A text of digits alone starts with as many digits as it has characters.
pub proof fn lemma_digits_throughout(s: Seq<char>)
    requires
        forall|i: int| 0 <= i < s.len() ==> is_digit(#[trigger] s[i]),
    ensures
        leading_digits(s) == s.len(),
    decreases s.len(),
{
    if s.len() > 0 {
        assert(is_digit(s[0]));
        assert forall|i: int| 0 <= i < s.skip(1).len() implies is_digit(#[trigger] s.skip(1)[i]) by {
            assert(s.skip(1)[i] == s[i + 1]);
        }
        lemma_digits_throughout(s.skip(1));
    }
}

/// A whole number in decimal is a decimal number.
pub proof fn lemma_whole_number_is_decimal(n: nat)
    ensures
        decimal_seq(n).len() > 0,
        forall|i: int| 0 <= i < decimal_seq(n).len() ==> is_digit(#[trigger] decimal_seq(n)[i]),
        is_decimal_number(decimal_seq(n)),
    decreases n,
{
    if n >= 10 {
        lemma_whole_number_is_decimal(n / 10);
    }
    assert(is_digit(digit_char(n % 10)));
    assert forall|i: int| 0 <= i < decimal_seq(n).len() implies is_digit(
        #[trigger] decimal_seq(n)[i],
    ) by {}
    lemma_digits_throughout(decimal_seq(n));
    assert(is_digit(decimal_seq(n)[0]));
}

/// The weight of an edge. It holds a decimal number as text, digit for digit
/// as it is written into the document.
#[derive(Debug)]
pub struct EdgeWeight {
    text: String,
}

impl View for EdgeWeight {
    type V = Seq<char>;

    closed spec fn view(&self) -> Seq<char> {
        self.text@
    }
}

/// The view of an optional weight.
pub open spec fn opt_weight(o: Option<EdgeWeight>) -> Option<Seq<char>> {
    match o {
        Some(w) => Some(w@),
        None => None,
    }
}

fn digit(c: char) -> (yes: bool)
    ensures
        yes == is_digit(c),
{
    c == '0' || c == '1' || c == '2' || c == '3' || c == '4' || c == '5' || c == '6' || c == '7'
        || c == '8' || c == '9'
}

fn chars_of(s: &str) -> (chars: Vec<char>)
    ensures
        chars@ == s@,
{
    let mut chars: Vec<char> = Vec::new();
    for c in it: s.chars()
        invariant
            it.seq() == s@,
            chars@ == s@.take(it.index() as int),
    {
        assert(s@.take(it.index() + 1) =~= s@.take(it.index() as int).push(c));
        chars.push(c);
    }
    assert(s@.take(s@.len() as int) =~= s@);
    chars
}

/// Counts the digits that stand at position `from` and behind it.
fn count_digits(chars: &Vec<char>, from: usize) -> (count: usize)
    requires
        from <= chars.len(),
    ensures
        count == leading_digits(chars@.skip(from as int)),
        from + count <= chars.len(),
{
    let mut i: usize = from;
    while i < chars.len() && digit(chars[i])
        invariant
            from <= i <= chars.len(),
            leading_digits(chars@.skip(from as int)) == (i - from) + leading_digits(
                chars@.skip(i as int),
            ),
        decreases chars.len() - i,
    {
        assert(chars@.skip(i as int)[0] == chars@[i as int]);
        assert(chars@.skip(i as int).skip(1) =~= chars@.skip(i + 1));
        i = i + 1;
    }
    proof {
        if i < chars.len() {
            assert(chars@.skip(i as int)[0] == chars@[i as int]);
        }
    }
    i - from
}

impl EdgeWeight {
    #[verifier::type_invariant]
    spec fn inv(self) -> bool {
        is_decimal_number(self.text@)
    }

    /// Reads a weight. Gives `None` for a text that is no decimal number.
    pub fn parse(text: &str) -> (weight: Option<EdgeWeight>)
        ensures
            weight is Some <==> is_decimal_number(text@),
            weight matches Some(w) ==> w@ == text@,
    {
        let chars = chars_of(text);
        let n = chars.len();
        let start: usize = if n > 0 && chars[0] == '-' {
            1
        } else {
            0
        };
        let ghost body = chars@.skip(start as int);
        assert(is_decimal_number(text@) == is_unsigned_decimal(body)) by {
            if start == 0 {
                assert(body =~= text@);
            }
        }
        let whole = count_digits(&chars, start);
        if whole == 0 {
            return None;
        }
        let after = start + whole;
        if after == n {
            return Some(EdgeWeight { text: String::from_str(text) });
        }
        assert(body[whole as int] == chars@[after as int]);
        if chars[after] != '.' {
            return None;
        }
        let fraction = count_digits(&chars, after + 1);
        assert(body.skip(whole + 1) =~= chars@.skip(after + 1));
        if fraction > 0 && after + 1 + fraction == n {
            Some(EdgeWeight { text: String::from_str(text) })
        } else {
            None
        }
    }

    /// The weight of a whole number.
    pub fn whole(n: u32) -> (weight: EdgeWeight)
        ensures
            weight@ == decimal_seq(n as nat),
    {
        let mut text = String::new();
        push_decimal(&mut text, n as u64);
        proof {
            assert(text@ =~= decimal_seq(n as nat));
            lemma_whole_number_is_decimal(n as nat);
        }
        EdgeWeight { text }
    }

    /// The weight as it is written into the document.
    pub fn as_str(&self) -> (text: &str)
        ensures
            text@ == self@,
            is_decimal_number(self@),
    {
        proof {
            use_type_invariant(self);
        }
        self.text.as_str()
    }
}

impl Clone for EdgeWeight {
    fn clone(&self) -> (other: Self)
        ensures
            other@ == self@,
    {
        proof {
            use_type_invariant(self);
        }
        EdgeWeight { text: self.text.clone() }
    }
}

} // verus!
