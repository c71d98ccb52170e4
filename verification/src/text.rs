//! Text primitives that the status line is built from and inspected with:
//! substring search over characters and decimal rendering of integers.

use vstd::prelude::*;
use vstd::std_specs::iter::IteratorSpec;
use vstd::string::*;

verus! {

/// `needle` stands in `hay` starting at character `at`.
pub open spec fn occurs_at(hay: Seq<char>, needle: Seq<char>, at: int) -> bool {
    &&& 0 <= at
    &&& at + needle.len() <= hay.len()
    &&& hay.subrange(at, at + needle.len()) == needle
}

/// `needle` is a contiguous part of `hay`. The empty text is part of every text.
pub open spec fn contains(hay: Seq<char>, needle: Seq<char>) -> bool {
    exists|at: int| occurs_at(hay, needle, at)
}

/// The character that stands for a single decimal digit.
pub open spec fn digit(d: int) -> char {
    if d == 0 {
        '0'
    } else if d == 1 {
        '1'
    } else if d == 2 {
        '2'
    } else if d == 3 {
        '3'
    } else if d == 4 {
        '4'
    } else if d == 5 {
        '5'
    } else if d == 6 {
        '6'
    } else if d == 7 {
        '7'
    } else if d == 8 {
        '8'
    } else {
        '9'
    }
}

/// The decimal digits of `n`, most significant first, without leading zeros.
pub open spec fn digits(n: nat) -> Seq<char>
    decreases n,
{
    if n < 10 {
        seq![digit(n as int)]
    } else {
        digits(n / 10).push(digit((n % 10) as int))
    }
}

/// `n` written in decimal, with a leading minus sign when it is negative.
pub open spec fn decimal(n: int) -> Seq<char> {
    if n < 0 {
        seq!['-'] + digits((-n) as nat)
    } else {
        digits(n as nat)
    }
}

/// A text is part of every text that it is embedded in.
pub proof fn lemma_contains_embedded(before: Seq<char>, middle: Seq<char>, after: Seq<char>)
    ensures
        contains(before + middle + after, middle),
{
    let whole = before + middle + after;
    let at = before.len() as int;
    assert(whole.subrange(at, at + middle.len()) =~= middle);
    assert(occurs_at(whole, middle, at));
}

/// Being part of a text carries over to every text that the text is part of.
pub proof fn lemma_contains_transitive(outer: Seq<char>, inner: Seq<char>, needle: Seq<char>)
    requires
        contains(outer, inner),
        contains(inner, needle),
    ensures
        contains(outer, needle),
{
    let i = choose|i: int| occurs_at(outer, inner, i);
    let j = choose|j: int| occurs_at(inner, needle, j);
    assert(outer.subrange(i + j, i + j + needle.len()) =~= outer.subrange(
        i,
        i + inner.len(),
    ).subrange(j, j + needle.len()));
    assert(occurs_at(outer, needle, i + j));
}

/// A text cannot hold a longer one.
pub proof fn lemma_longer_is_absent(hay: Seq<char>, needle: Seq<char>)
    requires
        needle.len() > hay.len(),
    ensures
        !contains(hay, needle),
{
}

/// A text that lacks the first character of `needle` cannot hold `needle`.
pub proof fn lemma_absent_without_first(hay: Seq<char>, needle: Seq<char>)
    requires
        needle.len() > 0,
        forall|i: int| 0 <= i < hay.len() ==> hay[i] != needle[0],
    ensures
        !contains(hay, needle),
{
    assert forall|at: int| !occurs_at(hay, needle, at) by {
        if occurs_at(hay, needle, at) {
            assert(hay.subrange(at, at + needle.len())[0] == hay[at]);
        }
    }
}

/// A text in which the first two characters of `needle` never follow one
/// another cannot hold `needle`.
pub proof fn lemma_lacks_pair(hay: Seq<char>, needle: Seq<char>)
    requires
        needle.len() > 1,
        forall|i: int|
            0 <= i && i + 1 < hay.len() ==> !(#[trigger] hay[i] == needle[0] && hay[i + 1]
                == needle[1]),
    ensures
        !contains(hay, needle),
{
    assert forall|at: int| !occurs_at(hay, needle, at) by {
        if occurs_at(hay, needle, at) {
            assert(hay.subrange(at, at + needle.len())[0] == hay[at]);
            assert(hay.subrange(at, at + needle.len())[1] == hay[at + 1]);
        }
    }
}

/// The characters of `text`, in order.
pub fn chars_of(text: &str) -> (chars: Vec<char>)
    ensures
        chars@ == text@,
{
    broadcast use group_string_axioms;

    let mut chars: Vec<char> = Vec::new();
    let mut rest = text.chars();
    loop
        invariant
            rest.obeys_prophetic_iter_laws(),
            rest.decrease() is Some,
            chars@ + rest.remaining() == text@,
        ensures
            chars@ == text@,
        decreases rest.decrease()->0,
    {
        match rest.next() {
            Some(c) => {
                chars.push(c);
            },
            None => {
                break ;
            },
        }
    }
    chars
}

/// Compares `needle` with the characters of `hay` that start at `at`.
fn matches_at(hay: &Vec<char>, needle: &Vec<char>, at: usize) -> (hit: bool)
    requires
        at + needle.len() <= hay.len(),
    ensures
        hit == occurs_at(hay@, needle@, at as int),
{
    let mut k: usize = 0;
    while k < needle.len()
        invariant
            k <= needle.len(),
            at + needle.len() <= hay.len(),
            forall|j: int| 0 <= j < k ==> hay@[at + j] == needle@[j],
        decreases needle.len() - k,
    {
        if hay[at + k] != needle[k] {
            assert(hay@.subrange(at as int, at + needle@.len())[k as int] == hay@[at + k]);
            return false;
        }
        k += 1;
    }
    assert(hay@.subrange(at as int, at + needle@.len()) =~= needle@);
    true
}

/// Searches `hay` for `needle`, trying every starting position from the left.
pub fn text_contains(hay: &str, needle: &str) -> (found: bool)
    ensures
        found == contains(hay@, needle@),
{
    let h = chars_of(hay);
    let n = chars_of(needle);
    if n.len() > h.len() {
        return false;
    }
    let last: usize = h.len() - n.len();
    let mut at: usize = 0;
    loop
        invariant
            last == h.len() - n.len(),
            n.len() <= h.len(),
            at <= last,
            h@ == hay@,
            n@ == needle@,
            forall|k: int| 0 <= k < at ==> !occurs_at(h@, n@, k),
        decreases last - at,
    {
        if matches_at(&h, &n, at) {
            return true;
        }
        if at == last {
            return false;
        }
        at += 1;
    }
}

/// The one-character text of a decimal digit.
fn digit_text(d: u32) -> (text: &'static str)
    requires
        d < 10,
    ensures
        text@ == seq![digit(d as int)],
{
    proof {
        reveal_strlit("0");
        reveal_strlit("1");
        reveal_strlit("2");
        reveal_strlit("3");
        reveal_strlit("4");
        reveal_strlit("5");
        reveal_strlit("6");
        reveal_strlit("7");
        reveal_strlit("8");
        reveal_strlit("9");
    }
    let text = if d == 0 {
        "0"
    } else if d == 1 {
        "1"
    } else if d == 2 {
        "2"
    } else if d == 3 {
        "3"
    } else if d == 4 {
        "4"
    } else if d == 5 {
        "5"
    } else if d == 6 {
        "6"
    } else if d == 7 {
        "7"
    } else if d == 8 {
        "8"
    } else {
        "9"
    };
    assert(text@ =~= seq![digit(d as int)]);
    text
}

/// Appends the decimal digits of `n` to `out`.
fn append_digits(out: &mut String, n: u32)
    ensures
        final(out)@ == old(out)@ + digits(n as nat),
    decreases n,
{
    if n >= 10 {
        append_digits(out, n / 10);
    }
    out.append(digit_text(n % 10));
    assert(out@ =~= old(out)@ + digits(n as nat));
}

/// Writes the digits of `n`.
pub fn render_natural(n: u32) -> (text: String)
    ensures
        text@ == digits(n as nat),
{
    let mut text = String::new();
    append_digits(&mut text, n);
    assert(text@ =~= digits(n as nat));
    text
}

/// Writes `n` in decimal.
pub fn render_decimal(n: i32) -> (text: String)
    ensures
        text@ == decimal(n as int),
{
    let mut text = String::new();
    if n < 0 {
        proof {
            reveal_strlit("-");
        }
        text.append("-");
        let magnitude: u32 = (-(n as i64)) as u32;
        append_digits(&mut text, magnitude);
        assert(text@ =~= decimal(n as int));
    } else {
        append_digits(&mut text, n as u32);
        assert(text@ =~= decimal(n as int));
    }
    text
}

} // verus!
