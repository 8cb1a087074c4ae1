//! Text as sequences of characters: the few operations on strings that the
//! rest of the library is built from.

use vstd::prelude::*;
use vstd::std_specs::iter::IteratorSpec;
use vstd::string::StringExecFns;

verus! {

/// The characters of `s`, in a vector that can be indexed in constant time.
pub fn chars_of(s: &str) -> (chars: Vec<char>)
    ensures
        chars@ == s@,
{
    let mut chars: Vec<char> = Vec::new();
    let mut it = s.chars();
    loop
        invariant
            it.obeys_prophetic_iter_laws(),
            chars@ + it.remaining() == s@,
            it.decrease() is Some,
        ensures
            chars@ == s@,
        decreases it.decrease()->0,
    {
        match it.next() {
            Some(c) => {
                chars.push(c);
            },
            None => {
                break;
            },
        }
    }
    chars
}

/// Whether `c` separates words: the characters that Unicode marks as
/// White_Space.
pub open spec fn whitespace(c: char) -> bool {
    let n = c as u32;
    ||| 0x09 <= n <= 0x0d
    ||| n == 0x20
    ||| n == 0x85
    ||| n == 0xa0
    ||| n == 0x1680
    ||| 0x2000 <= n <= 0x200a
    ||| n == 0x2028
    ||| n == 0x2029
    ||| n == 0x202f
    ||| n == 0x205f
    ||| n == 0x3000
}

/// Tests whether `c` separates words.
pub fn is_whitespace(c: char) -> (yes: bool)
    ensures
        yes == whitespace(c),
{
    let n: u32 = c as u32;
    (0x09 <= n && n <= 0x0d) || n == 0x20 || n == 0x85 || n == 0xa0 || n == 0x1680 || (0x2000 <= n
        && n <= 0x200a) || n == 0x2028 || n == 0x2029 || n == 0x202f || n == 0x205f || n == 0x3000
}

/// The decimal digit of value `d`.
pub open spec fn digit(d: nat) -> char
    recommends
        d < 10,
{
    if d == 0 {
        '0'
    } else if d == 1 {
        '1'
    } else if d == 2 {
        '2'
    } else if d == 3 {
        '3'
    } else if d == 4 {
        '4'
    } else if d == 5 {
        '5'
    } else if d == 6 {
        '6'
    } else if d == 7 {
        '7'
    } else if d == 8 {
        '8'
    } else {
        '9'
    }
}

/// `n` written in base ten, without a sign and without leading zeros.
pub open spec fn decimal(n: nat) -> Seq<char>
    decreases n,
{
    if n < 10 {
        seq![digit(n)]
    } else {
        decimal(n / 10).push(digit(n % 10))
    }
}

/// No number is written with nothing.
pub proof fn lemma_decimal_len(n: nat)
    ensures
        decimal(n).len() >= 1,
    decreases n,
{
    if n >= 10 {
        lemma_decimal_len(n / 10);
    }
}

/// Different numbers are written differently.
pub proof fn lemma_decimal_injective(a: nat, b: nat)
    ensures
        decimal(a) == decimal(b) ==> a == b,
    decreases a,
{
    if decimal(a) == decimal(b) {
        if a < 10 && b < 10 {
            assert(decimal(a)[0] == digit(a));
            assert(decimal(b)[0] == digit(b));
        } else if a >= 10 && b >= 10 {
            assert(decimal(a).drop_last() =~= decimal(a / 10));
            assert(decimal(b).drop_last() =~= decimal(b / 10));
            assert(decimal(a).last() == digit(a % 10));
            assert(decimal(b).last() == digit(b % 10));
            lemma_decimal_injective(a / 10, b / 10);
            assert(a / 10 == b / 10);
            assert(a % 10 == b % 10);
        } else if a >= 10 {
            lemma_decimal_len(a / 10);
            assert(decimal(a).len() == decimal(a / 10).len() + 1);
            assert(decimal(b).len() == 1);
        } else {
            lemma_decimal_len(b / 10);
            assert(decimal(b).len() == decimal(b / 10).len() + 1);
            assert(decimal(a).len() == 1);
        }
    }
}

fn digit_str(d: u128) -> (s: &'static str)
    requires
        d < 10,
    ensures
        s@ == seq![digit(d as nat)],
{
    proof {
        reveal_strlit("0");
        reveal_strlit("1");
        reveal_strlit("2");
        reveal_strlit("3");
        reveal_strlit("4");
        reveal_strlit("5");
        reveal_strlit("6");
        reveal_strlit("7");
        reveal_strlit("8");
        reveal_strlit("9");
    }
    let s = if d == 0 {
        "0"
    } else if d == 1 {
        "1"
    } else if d == 2 {
        "2"
    } else if d == 3 {
        "3"
    } else if d == 4 {
        "4"
    } else if d == 5 {
        "5"
    } else if d == 6 {
        "6"
    } else if d == 7 {
        "7"
    } else if d == 8 {
        "8"
    } else {
        "9"
    };
    assert(s@ =~= seq![digit(d as nat)]);
    s
}

/// Writes `n` in base ten.
pub fn to_decimal(n: u128) -> (text: String)
    ensures
        text@ == decimal(n as nat),
    decreases n,
{
    if n < 10 {
        digit_str(n).to_owned()
    } else {
        let mut text = to_decimal(n / 10);
        text.append(digit_str(n % 10));
        text
    }
}

/// The texts that `strings` hold, in their order.
pub open spec fn texts(strings: Seq<String>) -> Seq<Seq<char>> {
    Seq::new(strings.len(), |i: int| strings[i]@)
}

/// `left` followed by `right`.
pub fn append(left: &str, right: &str) -> (text: String)
    ensures
        text@ == left@ + right@,
{
    let mut text = left.to_owned();
    text.append(right);
    text
}

/// The path of `rel` as seen from the directory `base`: `rel` itself where it
/// starts at the root, else `base`, a separator unless `base` is empty or
/// ends in one, and `rel`.
pub open spec fn joined(base: Seq<char>, rel: Seq<char>) -> Seq<char> {
    if rel.len() > 0 && rel[0] == '/' {
        rel
    } else if base.len() == 0 || base.last() == '/' {
        base + rel
    } else {
        base + seq!['/'] + rel
    }
}

/// Joins the path `rel` to the directory `base`.
pub fn join_path(base: &str, rel: &str) -> (path: String)
    ensures
        path@ == joined(base@, rel@),
{
    let head = chars_of(base);
    let tail = chars_of(rel);
    if tail.len() > 0 && tail[0] == '/' {
        rel.to_owned()
    } else if head.len() == 0 || head[head.len() - 1] == '/' {
        append(base, rel)
    } else {
        proof {
            reveal_strlit("/");
            assert("/"@ =~= seq!['/']);
        }
        let mut path = append(base, "/");
        path.append(rel);
        path
    }
}

/// A set of characters that a scan tells apart from the rest.
#[derive(Clone, Copy, Debug)]
pub enum CharClass {
    /// The one character given.
    Is(char),
    /// The characters that separate words.
    Whitespace,
}

/// Whether `c` belongs to `class`.
pub open spec fn in_class(class: CharClass, c: char) -> bool {
    match class {
        CharClass::Is(x) => c == x,
        CharClass::Whitespace => whitespace(c),
    }
}

/// Tests whether `c` belongs to `class`.
pub fn class_has(class: CharClass, c: char) -> (yes: bool)
    ensures
        yes == in_class(class, c),
{
    match class {
        CharClass::Is(x) => c == x,
        CharClass::Whitespace => is_whitespace(c),
    }
}

/// The length of the longest prefix of `text` whose characters all belong to
/// `class` (where `member` holds) or all stay out of it (where it does not).
pub open spec fn span(text: Seq<char>, class: CharClass, member: bool) -> int
    decreases text.len(),
{
    if text.len() > 0 && in_class(class, text[0]) == member {
        1 + span(text.drop_first(), class, member)
    } else {
        0
    }
}

/// The length of the longest suffix of `text` whose characters all belong to
/// `class` (where `member` holds) or all stay out of it (where it does not).
pub open spec fn span_back(text: Seq<char>, class: CharClass, member: bool) -> int
    decreases text.len(),
{
    if text.len() > 0 && in_class(class, text.last()) == member {
        1 + span_back(text.drop_last(), class, member)
    } else {
        0
    }
}

/// A prefix of length `k` that is uniform and cannot be made longer is the span.
pub proof fn lemma_span_is(text: Seq<char>, class: CharClass, member: bool, k: int)
    requires
        0 <= k <= text.len(),
        forall|j: int| 0 <= j < k ==> in_class(class, text[j]) == member,
        k < text.len() ==> in_class(class, text[k]) != member,
    ensures
        span(text, class, member) == k,
    decreases text.len(),
{
    if k > 0 {
        let rest = text.drop_first();
        assert forall|j: int| 0 <= j < k - 1 implies in_class(class, rest[j]) == member by {
            assert(rest[j] == text[j + 1]);
        }
        if k < text.len() {
            assert(rest[k - 1] == text[k]);
        }
        lemma_span_is(rest, class, member, k - 1);
    }
}

/// The span lies within the text, is uniform, and stops only at the end of
/// the text or at a character of the other kind.
pub proof fn lemma_span(text: Seq<char>, class: CharClass, member: bool)
    ensures
        0 <= span(text, class, member) <= text.len(),
        forall|j: int|
            0 <= j < span(text, class, member) ==> in_class(class, #[trigger] text[j]) == member,
        span(text, class, member) < text.len() ==> in_class(
            class,
            text[span(text, class, member)],
        ) != member,
    decreases text.len(),
{
    if text.len() > 0 && in_class(class, text[0]) == member {
        let rest = text.drop_first();
        lemma_span(rest, class, member);
        assert forall|j: int| 0 <= j < span(text, class, member) implies in_class(
            class,
            #[trigger] text[j],
        ) == member by {
            if j > 0 {
                assert(text[j] == rest[j - 1]);
            }
        }
        if span(text, class, member) < text.len() {
            assert(text[span(text, class, member)] == rest[span(rest, class, member)]);
        }
    }
}

/// A suffix of length `k` that is uniform and cannot be made longer is the
/// span from the back.
pub proof fn lemma_span_back_is(text: Seq<char>, class: CharClass, member: bool, k: int)
    requires
        0 <= k <= text.len(),
        forall|j: int| text.len() - k <= j < text.len() ==> in_class(class, text[j]) == member,
        k < text.len() ==> in_class(class, text[text.len() - k - 1]) != member,
    ensures
        span_back(text, class, member) == k,
    decreases text.len(),
{
    if k > 0 {
        let rest = text.drop_last();
        assert forall|j: int| rest.len() - (k - 1) <= j < rest.len() implies in_class(
            class,
            rest[j],
        ) == member by {
            assert(rest[j] == text[j]);
        }
        if k < text.len() {
            assert(rest[rest.len() - (k - 1) - 1] == text[text.len() - k - 1]);
        }
        lemma_span_back_is(rest, class, member, k - 1);
    }
}

/// The span from the back lies within the text, is uniform, and stops only
/// at the start of the text or at a character of the other kind.
pub proof fn lemma_span_back(text: Seq<char>, class: CharClass, member: bool)
    ensures
        0 <= span_back(text, class, member) <= text.len(),
        forall|j: int|
            text.len() - span_back(text, class, member) <= j < text.len() ==> in_class(
                class,
                #[trigger] text[j],
            ) == member,
        span_back(text, class, member) < text.len() ==> in_class(
            class,
            text[text.len() - span_back(text, class, member) - 1],
        ) != member,
    decreases text.len(),
{
    if text.len() > 0 && in_class(class, text.last()) == member {
        let rest = text.drop_last();
        lemma_span_back(rest, class, member);
        assert forall|j: int|
            text.len() - span_back(text, class, member) <= j < text.len() implies in_class(
            class,
            #[trigger] text[j],
        ) == member by {
            if j < text.len() - 1 {
                assert(text[j] == rest[j]);
            }
        }
        if span_back(text, class, member) < text.len() {
            assert(text[text.len() - span_back(text, class, member) - 1] == rest[rest.len()
                - span_back(rest, class, member) - 1]);
        }
    }
}

/// Where the span that starts at `from` ends, looking no further than `to`.
pub fn scan(text: &Vec<char>, from: usize, to: usize, class: CharClass, member: bool) -> (end:
    usize)
    requires
        from <= to <= text.len(),
    ensures
        from <= end <= to,
        end - from == span(text@.subrange(from as int, to as int), class, member),
{
    let mut i: usize = from;
    while i < to && class_has(class, text[i]) == member
        invariant
            from <= i <= to <= text.len(),
            forall|j: int| from <= j < i ==> in_class(class, text@[j]) == member,
        decreases to - i,
    {
        i += 1;
    }
    proof {
        lemma_span_is(text@.subrange(from as int, to as int), class, member, i - from);
    }
    i
}

/// Where the span that ends at `to` starts, looking back no further than `from`.
pub fn scan_back(text: &Vec<char>, from: usize, to: usize, class: CharClass, member: bool) -> (start:
    usize)
    requires
        from <= to <= text.len(),
    ensures
        from <= start <= to,
        to - start == span_back(text@.subrange(from as int, to as int), class, member),
{
    let mut i: usize = to;
    while i > from && class_has(class, text[i - 1]) == member
        invariant
            from <= i <= to <= text.len(),
            forall|j: int| i <= j < to ==> in_class(class, text@[j]) == member,
        decreases i,
    {
        i -= 1;
    }
    proof {
        lemma_span_back_is(text@.subrange(from as int, to as int), class, member, to - i);
    }
    i
}

/// Whether the part of `text` from `from` up to `to` ends with `suffix`.
pub fn ends_with(text: &Vec<char>, from: usize, to: usize, suffix: &Vec<char>) -> (yes: bool)
    requires
        from <= to <= text.len(),
    ensures
        yes == suffix@.is_suffix_of(text@.subrange(from as int, to as int)),
{
    if suffix.len() > to - from {
        return false;
    }
    let ghost part = text@.subrange(from as int, to as int);
    let shift: usize = to - suffix.len();
    let mut i: usize = 0;
    while i < suffix.len()
        invariant
            from <= shift,
            shift + suffix.len() == to,
            part == text@.subrange(from as int, to as int),
            to <= text.len(),
            i <= suffix.len(),
            forall|j: int| 0 <= j < i ==> suffix@[j] == text@[shift + j],
        decreases suffix.len() - i,
    {
        if suffix[i] != text[shift + i] {
            assert(part.subrange(part.len() - suffix@.len(), part.len() as int)[i as int]
                != suffix@[i as int]);
            return false;
        }
        i += 1;
    }
    assert(suffix@ =~= part.subrange(part.len() - suffix@.len(), part.len() as int));
    true
}

}
