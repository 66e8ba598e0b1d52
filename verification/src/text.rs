//! Plain text: trimming, joining, comparing and number formatting.
//!
//! A text is modelled by the sequence of its characters.

use vstd::prelude::*;

verus! {

/// `String::push`: appends the given character to the end of the string.
pub assume_specification[ String::push ](s: &mut String, c: char)
    ensures
        final(s)@ == old(s)@.push(c),
;

/// The characters with the Unicode property `White_Space`.
pub open spec fn is_white_space(c: char) -> bool {
    let u = c as u32;
    ||| 0x9 <= u <= 0xd
    ||| u == 0x20
    ||| u == 0x85
    ||| u == 0xa0
    ||| u == 0x1680
    ||| 0x2000 <= u <= 0x200a
    ||| u == 0x2028
    ||| u == 0x2029
    ||| u == 0x202f
    ||| u == 0x205f
    ||| u == 0x3000
}

/// `s` without the white space at its two ends.
pub open spec fn trimmed(s: Seq<char>) -> Seq<char>
    decreases s.len(),
{
    if s.len() > 0 && is_white_space(s.first()) {
        trimmed(s.drop_first())
    } else if s.len() > 0 && is_white_space(s.last()) {
        trimmed(s.drop_last())
    } else {
        s
    }
}

/// The ASCII lower case of `c`; every other character stays as it is.
pub open spec fn lower_char(c: char) -> char {
    if 'A' <= c <= 'Z' {
        (c as u8 + 32) as char
    } else {
        c
    }
}

/// `s` with its ASCII letters in lower case.
pub open spec fn lowered(s: Seq<char>) -> Seq<char> {
    s.map_values(|c: char| lower_char(c))
}

/// The parts in order, with `sep` between each two.
pub open spec fn join_texts(parts: Seq<Seq<char>>, sep: Seq<char>) -> Seq<char>
    decreases parts.len(),
{
    if parts.len() == 0 {
        seq![]
    } else if parts.len() == 1 {
        parts[0]
    } else {
        join_texts(parts.drop_last(), sep) + sep + parts.last()
    }
}

/// The contents of each string of a list.
pub open spec fn texts(list: Seq<String>) -> Seq<Seq<char>> {
    list.map_values(|s: String| s@)
}

/// The decimal digit `d`.
pub open spec fn digit(d: nat) -> char {
    (d + 48) as char
}

/// `n` in decimal, without leading zeros.
pub open spec fn decimal_text(n: nat) -> Seq<char>
    decreases n,
{
    if n < 10 {
        seq![digit(n)]
    } else {
        decimal_text(n / 10).push(digit(n % 10))
    }
}

/// `n` in decimal, with a minus sign where it is negative.
pub open spec fn signed_decimal_text(n: int) -> Seq<char> {
    if n < 0 {
        seq!['-'] + decimal_text((-n) as nat)
    } else {
        decimal_text(n as nat)
    }
}

/// Whether `c` has the Unicode property `White_Space`.
pub fn white_space(c: char) -> (r: bool)
    ensures
        r == is_white_space(c),
{
    let u: u32 = c as u32;
    (0x9 <= u && u <= 0xd) || u == 0x20 || u == 0x85 || u == 0xa0 || u == 0x1680 || (0x2000 <= u
        && u <= 0x200a) || u == 0x2028 || u == 0x2029 || u == 0x202f || u == 0x205f || u == 0x3000
}

/// The characters of a text as a vector.
pub fn chars_of(s: &str) -> (chars: Vec<char>)
    ensures
        chars@ == s@,
{
    let mut chars: Vec<char> = Vec::new();
    for c in it: s.chars()
        invariant
            it.seq() == s@,
            chars@ == s@.take(it.index() as int),
    {
        proof {
            assert(s@.take(it.index() + 1) == s@.take(it.index() as int).push(c));
        }
        chars.push(c);
    }
    assert(s@.take(s@.len() as int) == s@);
    chars
}

/// The characters from `from` up to `to`, as a string.
pub fn text_between(chars: &Vec<char>, from: usize, to: usize) -> (text: String)
    requires
        from <= to <= chars@.len(),
    ensures
        text@ == chars@.subrange(from as int, to as int),
{
    let mut text = String::new();
    let mut i: usize = from;
    while i < to
        invariant
            from <= i <= to <= chars@.len(),
            text@ == chars@.subrange(from as int, i as int),
        decreases to - i,
    {
        text.push(chars[i]);
        i = i + 1;
        assert(chars@.subrange(from as int, i as int) == chars@.subrange(
            from as int,
            i - 1,
        ).push(chars@[i - 1]));
    }
    text
}

/// Whether two texts hold the same characters.
pub fn same_text(a: &str, b: &str) -> (r: bool)
    ensures
        r == (a@ == b@),
{
    a.to_owned() == b.to_owned()
}

/// A text without the white space at its two ends.
pub fn trim(s: &str) -> (r: String)
    ensures
        r@ == trimmed(s@),
{
    let chars = chars_of(s);
    let mut from: usize = 0;
    let mut to: usize = chars.len();
    assert(chars@.subrange(0, to as int) == s@);
    while from < to && white_space(chars[from])
        invariant
            from <= to <= chars@.len(),
            trimmed(chars@.subrange(from as int, to as int)) == trimmed(s@),
        decreases to - from,
    {
        proof {
            let now = chars@.subrange(from as int, to as int);
            assert(now.drop_first() == chars@.subrange(from + 1, to as int));
            assert(now.first() == chars@[from as int]);
        }
        from = from + 1;
    }
    while from < to && white_space(chars[to - 1])
        invariant
            from <= to <= chars@.len(),
            from < to ==> !is_white_space(chars@[from as int]),
            trimmed(chars@.subrange(from as int, to as int)) == trimmed(s@),
        decreases to - from,
    {
        proof {
            let now = chars@.subrange(from as int, to as int);
            assert(now.drop_last() == chars@.subrange(from as int, to - 1));
            assert(now.first() == chars@[from as int]);
            assert(now.last() == chars@[to - 1]);
        }
        to = to - 1;
    }
    proof {
        let now = chars@.subrange(from as int, to as int);
        if from < to {
            assert(now.first() == chars@[from as int]);
            assert(now.last() == chars@[to - 1]);
        }
        assert(trimmed(now) == now);
    }
    text_between(&chars, from, to)
}

/// The ASCII lower case of a character.
pub fn lower(c: char) -> (r: char)
    ensures
        r == lower_char(c),
{
    if 'A' <= c && c <= 'Z' {
        ((c as u8) + 32) as char
    } else {
        c
    }
}

/// A text with its ASCII letters in lower case.
pub fn ascii_lower(s: &str) -> (r: String)
    ensures
        r@ == lowered(s@),
{
    let mut r = String::new();
    for c in it: s.chars()
        invariant
            it.seq() == s@,
            r@ == lowered(s@.take(it.index() as int)),
    {
        proof {
            assert(s@.take(it.index() + 1) == s@.take(it.index() as int).push(c));
            assert(lowered(s@.take(it.index() + 1)) == lowered(s@.take(it.index() as int)).push(
                lower_char(c),
            ));
        }
        r.push(lower(c));
    }
    assert(s@.take(s@.len() as int) == s@);
    r
}

/// The strings of a list, with a separator between each two.
pub fn joined(list: &Vec<String>, sep: &str) -> (r: String)
    ensures
        r@ == join_texts(texts(list@), sep@),
{
    let mut r = String::new();
    let mut i: usize = 0;
    while i < list.len()
        invariant
            i <= list@.len(),
            r@ == join_texts(texts(list@).take(i as int), sep@),
        decreases list@.len() - i,
    {
        if i > 0 {
            r.append(sep);
        }
        r.append(list[i].as_str());
        i = i + 1;
        proof {
            let now = texts(list@).take(i as int);
            assert(now.drop_last() == texts(list@).take(i - 1));
            assert(now.last() == list@[i - 1]@);
            if i == 1 {
                assert(r@ == now[0]);
            }
        }
    }
    assert(texts(list@).take(list@.len() as int) == texts(list@));
    r
}

/// A number in decimal.
pub fn decimal(n: u64) -> (r: String)
    ensures
        r@ == decimal_text(n as nat),
    decreases n,
{
    let mut r = if n < 10 {
        String::new()
    } else {
        decimal(n / 10)
    };
    let d: u8 = (n % 10) as u8;
    r.push((d + 48) as char);
    assert(n < 10 ==> r@ == seq![digit(n as nat)]);
    r
}

/// Appends a number in decimal.
pub fn put_number(out: &mut String, n: u64)
    ensures
        final(out)@ == old(out)@ + decimal_text(n as nat),
{
    let digits = decimal(n);
    out.append(digits.as_str());
}

/// A signed number in decimal.
pub fn signed_decimal(n: i32) -> (r: String)
    ensures
        r@ == signed_decimal_text(n as int),
{
    if n < 0 {
        let mut r = String::new();
        r.push('-');
        let size: u64 = (-(n as i64)) as u64;
        let digits = decimal(size);
        r.append(digits.as_str());
        assert(r@ == seq!['-'] + decimal_text(size as nat));
        r
    } else {
        decimal(n as u64)
    }
}

/// Whether `part` stands in `whole` from the index `at` on.
pub open spec fn stands_at(part: Seq<char>, whole: Seq<char>, at: int) -> bool {
    0 <= at && at + part.len() <= whole.len() && whole.subrange(at, at + part.len()) == part
}

/// Whether `part` stands somewhere in `whole`.
pub open spec fn occurs(part: Seq<char>, whole: Seq<char>) -> bool {
    exists|at: int| stands_at(part, whole, at)
}

/// What stands in one of two texts stands in the two put together.
pub broadcast proof fn lemma_occurs_in_sum(part: Seq<char>, a: Seq<char>, b: Seq<char>)
    requires
        occurs(part, a) || occurs(part, b),
    ensures
        #[trigger] occurs(part, a + b),
{
    if occurs(part, a) {
        let at = choose|at: int| stands_at(part, a, at);
        assert((a + b).subrange(at, at + part.len()) == a.subrange(at, at + part.len()));
        assert(stands_at(part, a + b, at));
    } else {
        let at = choose|at: int| stands_at(part, b, at);
        let there = a.len() + at;
        assert((a + b).subrange(there, there + part.len()) == b.subrange(at, at + part.len()));
        assert(stands_at(part, a + b, there));
    }
}

/// Three texts one behind the other stand in every text that ends with them.
pub broadcast proof fn lemma_occurs_at_end(
    before: Seq<char>,
    a: Seq<char>,
    b: Seq<char>,
    c: Seq<char>,
)
    ensures
        #[trigger] occurs(a + b + c, before + a + b + c),
{
    let part = a + b + c;
    let whole = before + a + b + c;
    let at = before.len() as int;
    assert(whole.subrange(at, at + part.len()) == part);
    assert(stands_at(part, whole, at));
}

/// Seven texts one behind the other stand in every text that ends with them.
pub broadcast proof fn lemma_seven_occur_at_end(
    before: Seq<char>,
    a: Seq<char>,
    b: Seq<char>,
    c: Seq<char>,
    d: Seq<char>,
    e: Seq<char>,
    f: Seq<char>,
    g: Seq<char>,
)
    ensures
        #[trigger] occurs(a + b + c + d + e + f + g, before + a + b + c + d + e + f + g),
{
    let part = a + b + c + d + e + f + g;
    let whole = before + a + b + c + d + e + f + g;
    let at = before.len() as int;
    assert(whole.subrange(at, at + part.len()) == part);
    assert(stands_at(part, whole, at));
}

/// A text stands in itself.
pub broadcast proof fn lemma_occurs_in_itself(part: Seq<char>)
    ensures
        #[trigger] occurs(part, part),
{
    assert(part.subrange(0, part.len() as int) == part);
    assert(stands_at(part, part, 0));
}

/// Whether every character of a text is white space.
pub open spec fn is_blank(s: Seq<char>) -> bool {
    forall|i: int| 0 <= i < s.len() ==> is_white_space(#[trigger] s[i])
}

/// What stands between white space comes out of trimming as it was, whatever it holds inside:
/// nothing but white space is taken off, and all of it at both ends.
pub proof fn law_trimming_keeps_what_is_between(before: Seq<char>, kept: Seq<char>, after: Seq<char>)
    requires
        is_blank(before),
        is_blank(after),
        kept.len() > 0 ==> !is_white_space(kept[0]) && !is_white_space(kept[kept.len() - 1]),
    ensures
        trimmed(before + kept + after) == kept,
    decreases before.len() + after.len(),
{
    let s = before + kept + after;
    if before.len() > 0 {
        let rest = before.drop_first();
        assert(s.first() == before[0]);
        assert forall|i: int| 0 <= i < rest.len() implies is_white_space(#[trigger] rest[i]) by {
            assert(rest[i] == before[i + 1]);
        }
        assert(s.drop_first() == rest + kept + after);
        law_trimming_keeps_what_is_between(rest, kept, after);
    } else if after.len() > 0 {
        let rest = after.drop_last();
        assert(s.last() == after[after.len() - 1]);
        assert forall|i: int| 0 <= i < rest.len() implies is_white_space(#[trigger] rest[i]) by {
            assert(rest[i] == after[i]);
        }
        if is_white_space(s.first()) {
            // Then nothing is kept, and the first character is white space as well.
            assert(kept.len() == 0) by {
                if kept.len() > 0 {
                    assert(s.first() == kept[0]);
                }
            }
            let tail = after.drop_first();
            assert forall|i: int| 0 <= i < tail.len() implies is_white_space(
                #[trigger] tail[i],
            ) by {
                assert(tail[i] == after[i + 1]);
            }
            assert(s.drop_first() == before + kept + tail);
            law_trimming_keeps_what_is_between(before, kept, tail);
        } else {
            assert(s.drop_last() == before + kept + rest);
            law_trimming_keeps_what_is_between(before, kept, rest);
        }
    } else {
        assert(s == kept);
    }
}

/// Each capital letter of ASCII becomes the small letter at the same place of the alphabet, and no
/// other character changes; so lower case is lower case of itself, and keeps the length of a text
/// and all its other characters.
pub proof fn law_lower_case_is_by_letter(s: Seq<char>, i: int)
    requires
        0 <= i < s.len(),
    ensures
        lowered(s).len() == s.len(),
        'A' <= s[i] <= 'Z' ==> lowered(s)[i] as int - 'a' as int == s[i] as int - 'A' as int,
        !('A' <= s[i] <= 'Z') ==> lowered(s)[i] == s[i],
        lowered(lowered(s)) == lowered(s),
{
    assert forall|k: int| 0 <= k < s.len() implies lower_char(lower_char(#[trigger] s[k]))
        == lower_char(s[k]) by {}
    assert(lowered(lowered(s)) == lowered(s));
}

/// The lower case of two texts one behind the other is that of each, one behind the other.
pub proof fn law_lower_case_of_parts(a: Seq<char>, b: Seq<char>)
    ensures
        lowered(a + b) == lowered(a) + lowered(b),
{
    assert(lowered(a + b) == lowered(a) + lowered(b));
}

/// Joining nothing gives nothing, joining one text gives that text, and joining two lists gives
/// what each joins to, with one separator between them.
pub proof fn law_joining_lists(a: Seq<Seq<char>>, b: Seq<Seq<char>>, x: Seq<char>, sep: Seq<char>)
    ensures
        join_texts(seq![], sep) == Seq::<char>::empty(),
        join_texts(seq![x], sep) == x,
        a.len() > 0 && b.len() > 0 ==> join_texts(a + b, sep) == join_texts(a, sep) + sep
            + join_texts(b, sep),
    decreases b.len(),
{
    if a.len() > 0 && b.len() > 0 {
        assert((a + b).last() == b.last());
        assert((a + b).drop_last() == a + b.drop_last());
        if b.len() == 1 {
            assert(a + b.drop_last() == a);
        } else {
            law_joining_lists(a, b.drop_last(), x, sep);
            let left = join_texts(a, sep) + sep;
            let inner = join_texts(b.drop_last(), sep);
            assert(left + inner + sep + b.last() == left + (inner + sep + b.last()));
        }
    }
}

/// The number that a text of decimal digits stands for.
pub open spec fn number_read(s: Seq<char>) -> int
    decreases s.len(),
{
    if s.len() == 0 {
        0
    } else {
        10 * number_read(s.drop_last()) + (s.last() as int - '0' as int)
    }
}

/// A number in decimal is made of digits, has no zero in front but for zero itself, and is read
/// back as the number.
pub proof fn law_decimal_reads_back(n: nat)
    ensures
        number_read(decimal_text(n)) == n,
        decimal_text(n).len() > 0,
        decimal_text(n)[0] == '0' ==> n == 0,
        forall|i: int| 0 <= i < decimal_text(n).len() ==> '0' <= #[trigger] decimal_text(n)[i]
            <= '9',
    decreases n,
{
    let s = decimal_text(n);
    if n < 10 {
        assert(s.drop_last() == Seq::<char>::empty());
        assert(number_read(s.drop_last()) == 0);
    } else {
        law_decimal_reads_back(n / 10);
        assert(s.drop_last() == decimal_text(n / 10));
        assert(s[0] == decimal_text(n / 10)[0]);
    }
}

/// Different numbers have different decimal texts.
pub proof fn law_decimal_tells_numbers_apart(n: nat, m: nat)
    requires
        decimal_text(n) == decimal_text(m),
    ensures
        n == m,
{
    law_decimal_reads_back(n);
    law_decimal_reads_back(m);
}

/// A signed number in decimal is a minus sign and what is read as its size where it is negative,
/// and is read as the number otherwise.
pub proof fn law_signed_decimal_reads_back(n: int)
    ensures
        n < 0 ==> signed_decimal_text(n)[0] == '-' && number_read(signed_decimal_text(n).skip(1))
            == -n,
        n >= 0 ==> number_read(signed_decimal_text(n)) == n && signed_decimal_text(n)[0] != '-',
{
    if n < 0 {
        law_decimal_reads_back((-n) as nat);
        assert(signed_decimal_text(n).skip(1) == decimal_text((-n) as nat));
    } else {
        law_decimal_reads_back(n as nat);
    }
}

/// Seven texts, joined one after the other.
pub proof fn lemma_join_seven(c: Seq<Seq<char>>, sep: Seq<char>)
    requires
        c.len() == 7,
    ensures
        join_texts(c, sep) == c[0] + sep + c[1] + sep + c[2] + sep + c[3] + sep + c[4] + sep + c[5]
            + sep + c[6],
{
    reveal_with_fuel(join_texts, 8);
    let c6 = c.drop_last();
    let c5 = c6.drop_last();
    let c4 = c5.drop_last();
    let c3 = c4.drop_last();
    let c2 = c3.drop_last();
    let c1 = c2.drop_last();
    assert(c1.len() == 1 && c1[0] == c[0]);
    assert(c2.last() == c[1] && c3.last() == c[2] && c4.last() == c[3]);
    assert(c5.last() == c[4] && c6.last() == c[5] && c.last() == c[6]);
}

/// White space is what Unicode calls so, and nothing else: tabs and line ends, the space, the next
/// line and no-break space, the spaces of Ogham and of typography, the separators of lines and
/// paragraphs, the narrow, mathematical and ideographic spaces.
pub proof fn law_white_space_is_that_of_unicode(c: char)
    ensures
        is_white_space(c) <==> {
            ||| c == '\t' || c == '\n' || c == '\u{b}' || c == '\u{c}' || c == '\r' || c == ' '
            ||| c == '\u{85}' || c == '\u{a0}' || c == '\u{1680}'
            ||| '\u{2000}' <= c <= '\u{200a}'
            ||| c == '\u{2028}' || c == '\u{2029}' || c == '\u{202f}'
            ||| c == '\u{205f}' || c == '\u{3000}'
        },
{
}

/// Whether two texts are not the same.
pub open spec fn unlike(a: Seq<char>, b: Seq<char>) -> bool {
    a != b
}

/// Texts that differ still differ with the same text behind them.
pub broadcast proof fn lemma_unlike_before(a: Seq<char>, b: Seq<char>, s: Seq<char>)
    requires
        unlike(a, b),
    ensures
        #[trigger] unlike(a + s, b + s),
{
    if a + s == b + s {
        assert((a + s).len() == a.len() + s.len() && (b + s).len() == b.len() + s.len());
        assert((a + s).take(a.len() as int) == a);
        assert((b + s).take(b.len() as int) == b);
    }
}

/// Texts that differ still differ with the same text before them.
pub broadcast proof fn lemma_unlike_behind(s: Seq<char>, a: Seq<char>, b: Seq<char>)
    requires
        unlike(a, b),
    ensures
        #[trigger] unlike(s + a, s + b),
{
    if s + a == s + b {
        assert((s + a).skip(s.len() as int) == a);
        assert((s + b).skip(s.len() as int) == b);
    }
}

} // verus!
