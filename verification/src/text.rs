//! Text the library writes and reads: numbers in decimal, and the search for
//! a phrase in a reply.

use vstd::prelude::*;
use vstd::string::*;

verus! {

/// The character of a decimal digit.
pub open spec fn digit_char(d: int) -> char {
    if d == 0 {
        '0'
    } else if d == 1 {
        '1'
    } else if d == 2 {
        '2'
    } else if d == 3 {
        '3'
    } else if d == 4 {
        '4'
    } else if d == 5 {
        '5'
    } else if d == 6 {
        '6'
    } else if d == 7 {
        '7'
    } else if d == 8 {
        '8'
    } else {
        '9'
    }
}

/// A natural number in decimal, without leading zeros.
pub open spec fn digits(n: nat) -> Seq<char>
    decreases n,
{
    if n < 10 {
        seq![digit_char(n as int)]
    } else {
        digits(n / 10).push(digit_char((n % 10) as int))
    }
}

/// An integer in decimal, with a minus sign in front where it is negative.
pub open spec fn decimal(n: int) -> Seq<char> {
    if n < 0 {
        seq!['-'] + digits((-n) as nat)
    } else {
        digits(n as nat)
    }
}

/// The phrase stands in the text at place `i`.
pub open spec fn stands_at(text: Seq<char>, phrase: Seq<char>, i: int) -> bool {
    0 <= i && i + phrase.len() <= text.len() && text.subrange(i, i + phrase.len()) == phrase
}

/// The phrase stands somewhere in the text.
pub open spec fn holds_phrase(text: Seq<char>, phrase: Seq<char>) -> bool {
    exists|i: int| stands_at(text, phrase, i)
}

/// The text of one decimal digit.
fn digit_str(d: u64) -> (s: &'static str)
    requires
        d < 10,
    ensures
        s@ == seq![digit_char(d as int)],
{
    proof {
        reveal_strlit("0");
        reveal_strlit("1");
        reveal_strlit("2");
        reveal_strlit("3");
        reveal_strlit("4");
        reveal_strlit("5");
        reveal_strlit("6");
        reveal_strlit("7");
        reveal_strlit("8");
        reveal_strlit("9");
    }
    let s = if d == 0 {
        "0"
    } else if d == 1 {
        "1"
    } else if d == 2 {
        "2"
    } else if d == 3 {
        "3"
    } else if d == 4 {
        "4"
    } else if d == 5 {
        "5"
    } else if d == 6 {
        "6"
    } else if d == 7 {
        "7"
    } else if d == 8 {
        "8"
    } else {
        "9"
    };
    assert(s@ =~= seq![digit_char(d as int)]);
    s
}

/// Writes a natural number in decimal behind what the text already holds.
pub fn push_digits(text: &mut String, n: u64)
    ensures
        final(text)@ == old(text)@ + digits(n as nat),
    decreases n,
{
    if n >= 10 {
        push_digits(text, n / 10);
    }
    let ghost before = text@;
    text.append(digit_str(n % 10));
    proof {
        if n >= 10 {
            assert(before == old(text)@ + digits((n / 10) as nat));
            assert(text@ =~= old(text)@ + digits((n / 10) as nat).push(digit_char((n % 10) as int)));
        } else {
            assert(text@ =~= old(text)@ + seq![digit_char(n as int)]);
        }
    }
}

/// Writes an integer in decimal behind what the text already holds.
pub fn push_decimal(text: &mut String, n: i32)
    ensures
        final(text)@ == old(text)@ + decimal(n as int),
{
    if n < 0 {
        proof {
            reveal_strlit("-");
        }
        text.append("-");
        let ghost signed = text@;
        push_digits(text, (-(n as i64)) as u64);
        assert(text@ =~= old(text)@ + (seq!['-'] + digits((-n) as nat))) by {
            assert(signed =~= old(text)@ + seq!['-']);
        }
    } else {
        push_digits(text, n as u64);
    }
}

/// The characters of a text, one by one.
pub fn chars_of(text: &str) -> (chars: Vec<char>)
    ensures
        chars@ == text@,
{
    let mut chars: Vec<char> = Vec::new();
    for c in it: text.chars()
        invariant
            it.seq() == text@,
            chars@ == it.seq().take(it.index() as int),
    {
        chars.push(c);
        assert(it.seq().take(it.index() + 1) =~= it.seq().take(it.index() as int).push(c));
    }
    assert(text@.take(text@.len() as int) =~= text@);
    chars
}

/// Whether the phrase stands somewhere in the text.
pub fn has_phrase(text: &Vec<char>, phrase: &Vec<char>) -> (found: bool)
    ensures
        found == holds_phrase(text@, phrase@),
{
    if phrase.len() > text.len() {
        return false;
    }
    let last: usize = text.len() - phrase.len();
    let mut i: usize = 0;
    while i <= last
        invariant
            last == text.len() - phrase.len(),
            i <= last + 1,
            forall|j: int| 0 <= j < i ==> !stands_at(text@, phrase@, j),
        decreases last + 1 - i,
    {
        let mut k: usize = 0;
        while k < phrase.len() && text[i + k] == phrase[k]
            invariant
                i + phrase.len() <= text.len(),
                k <= phrase.len(),
                forall|n: int| 0 <= n < k ==> text[i + n] == phrase[n],
            decreases phrase.len() - k,
        {
            k += 1;
        }
        if k == phrase.len() {
            assert(text@.subrange(i as int, i + phrase.len()) =~= phrase@);
            assert(stands_at(text@, phrase@, i as int));
            return true;
        }
        assert(!stands_at(text@, phrase@, i as int)) by {
            if stands_at(text@, phrase@, i as int) {
                assert(text@.subrange(i as int, i + phrase.len())[k as int] == phrase@[k as int]);
            }
        }
        i += 1;
    }
    false
}

} // verus!
