//! Escaping of text that goes into a page.

use vstd::prelude::*;

verus! {

/// `s` with each character replaced by what `f` gives for it.
pub open spec fn expand(s: Seq<char>, f: spec_fn(char) -> Seq<char>) -> Seq<char>
    decreases s.len(),
{
    if s.len() == 0 {
        seq![]
    } else {
        expand(s.drop_last(), f) + f(s.last())
    }
}

/// What stands for one character in an escaped text; an apostrophe becomes `apostrophe`.
pub open spec fn entity(c: char, apostrophe: Seq<char>) -> Seq<char> {
    if c == '&' {
        "&amp;"@
    } else if c == '<' {
        "&lt;"@
    } else if c == '>' {
        "&gt;"@
    } else if c == '"' {
        "&quot;"@
    } else if c == '\'' {
        apostrophe
    } else {
        seq![c]
    }
}

/// `s` as the preview puts it into its markup.
pub open spec fn escaped(s: Seq<char>) -> Seq<char> {
    expand(s, |c: char| entity(c, "&#39;"@))
}

/// `s` as the page templates put it into their markup.
pub open spec fn markup(s: Seq<char>) -> Seq<char> {
    expand(s, |c: char| entity(c, "&#x27;"@))
}

/// The characters that open or close markup or a quoted attribute.
pub open spec fn is_markup_char(c: char) -> bool {
    c == '<' || c == '>' || c == '"' || c == '\''
}

/// Whether `t` starts with `p`.
pub open spec fn starts(t: Seq<char>, p: Seq<char>) -> bool {
    p.len() <= t.len() && forall|i: int| 0 <= i < p.len() ==> t[i] == #[trigger] p[i]
}

/// An escaped text read back: each entity stands for its character.
pub open spec fn unescaped(t: Seq<char>) -> Seq<char>
    decreases t.len(),
{
    if t.len() == 0 {
        seq![]
    } else if t.len() >= 5 && starts(t, "&amp;"@) {
        seq!['&'] + unescaped(t.skip(5))
    } else if t.len() >= 4 && starts(t, "&lt;"@) {
        seq!['<'] + unescaped(t.skip(4))
    } else if t.len() >= 4 && starts(t, "&gt;"@) {
        seq!['>'] + unescaped(t.skip(4))
    } else if t.len() >= 6 && starts(t, "&quot;"@) {
        seq!['"'] + unescaped(t.skip(6))
    } else if t.len() >= 5 && starts(t, "&#39;"@) {
        seq!['\''] + unescaped(t.skip(5))
    } else if t.len() >= 6 && starts(t, "&#x27;"@) {
        seq!['\''] + unescaped(t.skip(6))
    } else {
        seq![t[0]] + unescaped(t.skip(1))
    }
}

/// `askama::MarkupDisplay::new_unsafe` with `askama::Html`, written out: what a template puts
/// into a page for a text. The five characters `&`, `<`, `>`, `"` and `'` become `&amp;`, `&lt;`,
/// `&gt;`, `&quot;` and `&#x27;`; every other character stays.
#[verifier::external_body]
fn markup_display(text: &str) -> (r: String)
    ensures
        r@ == markup(text@),
{
    askama::MarkupDisplay::new_unsafe(text, askama::Html).to_string()
}

/// Appends a text to a page, as a template does.
pub fn put_markup(out: &mut String, text: &str)
    ensures
        final(out)@ == old(out)@ + markup(text@),
{
    let shown = markup_display(text);
    out.append(shown.as_str());
}

/// Escapes a text for the preview: `&`, `<`, `>`, `"` and `'` become entities.
pub fn escape_html(value: &str) -> (r: String)
    ensures
        r@ == escaped(value@),
{
    let mut r = String::new();
    for c in it: value.chars()
        invariant
            it.seq() == value@,
            r@ == escaped(value@.take(it.index() as int)),
    {
        proof {
            let now = value@.take(it.index() + 1);
            assert(now.drop_last() == value@.take(it.index() as int));
            assert(now.last() == c);
        }
        if c == '&' {
            r.append("&amp;");
        } else if c == '<' {
            r.append("&lt;");
        } else if c == '>' {
            r.append("&gt;");
        } else if c == '"' {
            r.append("&quot;");
        } else if c == '\'' {
            r.append("&#39;");
        } else {
            r.push(c);
            assert(entity(c, "&#39;"@) == seq![c]);
        }
    }
    assert(value@.take(value@.len() as int) == value@);
    r
}

/// Expanding two texts one after the other expands their concatenation.
proof fn lemma_expand_concat(a: Seq<char>, b: Seq<char>, f: spec_fn(char) -> Seq<char>)
    ensures
        expand(a + b, f) == expand(a, f) + expand(b, f),
    decreases b.len(),
{
    if b.len() == 0 {
        assert(a + b == a);
        assert(expand(a, f) + expand(b, f) == expand(a, f));
    } else {
        assert((a + b).drop_last() == a + b.drop_last());
        lemma_expand_concat(a, b.drop_last(), f);
        assert(expand(a, f) + (expand(b.drop_last(), f) + f(b.last())) == (expand(a, f) + expand(
            b.drop_last(),
            f,
        )) + f(b.last()));
    }
}

/// Expanding one character more at the front.
proof fn lemma_expand_first(s: Seq<char>, f: spec_fn(char) -> Seq<char>)
    requires
        s.len() > 0,
    ensures
        expand(s, f) == f(s[0]) + expand(s.skip(1), f),
{
    let first = seq![s[0]];
    assert(s == first + s.skip(1));
    lemma_expand_concat(first, s.skip(1), f);
    assert(first.drop_last() == Seq::<char>::empty());
    assert(expand(first, f) == f(s[0])) by {
        assert(expand(first.drop_last(), f) == Seq::<char>::empty());
        assert(Seq::<char>::empty() + f(s[0]) == f(s[0]));
    }
}

/// No entity holds a markup character.
proof fn lemma_entity_plain(c: char, apostrophe: Seq<char>)
    requires
        apostrophe == "&#39;"@ || apostrophe == "&#x27;"@,
    ensures
        forall|i: int|
            0 <= i < entity(c, apostrophe).len() ==> !is_markup_char(#[trigger] entity(
                c,
                apostrophe,
            )[i]),
{
    reveal_strlit("&amp;");
    reveal_strlit("&lt;");
    reveal_strlit("&gt;");
    reveal_strlit("&quot;");
    reveal_strlit("&#39;");
    reveal_strlit("&#x27;");
}

/// No expansion of a text by entities holds a markup character.
proof fn lemma_expand_plain(s: Seq<char>, f: spec_fn(char) -> Seq<char>, apostrophe: Seq<char>)
    requires
        apostrophe == "&#39;"@ || apostrophe == "&#x27;"@,
        forall|c: char| #[trigger] f(c) == entity(c, apostrophe),
    ensures
        forall|i: int| 0 <= i < expand(s, f).len() ==> !is_markup_char(#[trigger] expand(s, f)[i]),
    decreases s.len(),
{
    if s.len() > 0 {
        lemma_expand_plain(s.drop_last(), f, apostrophe);
        lemma_entity_plain(s.last(), apostrophe);
        let head = expand(s.drop_last(), f);
        assert forall|i: int| 0 <= i < expand(s, f).len() implies !is_markup_char(
            #[trigger] expand(s, f)[i],
        ) by {
            if i < head.len() {
                assert(expand(s, f)[i] == head[i]);
            } else {
                assert(expand(s, f)[i] == f(s.last())[i - head.len()]);
            }
        }
    }
}

/// Reading back an expansion by entities gives the text.
proof fn lemma_expand_read_back(s: Seq<char>, f: spec_fn(char) -> Seq<char>, apostrophe: Seq<char>)
    requires
        apostrophe == "&#39;"@ || apostrophe == "&#x27;"@,
        forall|c: char| #[trigger] f(c) == entity(c, apostrophe),
    ensures
        unescaped(expand(s, f)) == s,
    decreases s.len(),
{
    if s.len() == 0 {
        assert(unescaped(expand(s, f)) == s);
    } else {
        lemma_expand_first(s, f);
        lemma_expand_read_back(s.skip(1), f, apostrophe);
        let t = expand(s, f);
        let e = f(s[0]);
        assert(e == entity(s[0], apostrophe));
        reveal_strlit("&amp;");
        reveal_strlit("&lt;");
        reveal_strlit("&gt;");
        reveal_strlit("&quot;");
        reveal_strlit("&#39;");
        reveal_strlit("&#x27;");
        assert(t.skip(e.len() as int) == expand(s.skip(1), f));
        assert(starts(t, e));
        assert(forall|i: int| 0 <= i < e.len() ==> t[i] == e[i]);
        let (amp, lt, gt) = ("&amp;"@, "&lt;"@, "&gt;"@);
        let (quot, dec, hex) = ("&quot;"@, "&#39;"@, "&#x27;"@);
        assert(amp[0] == '&' && lt[0] == '&' && gt[0] == '&');
        assert(quot[0] == '&' && dec[0] == '&' && hex[0] == '&');
        assert(amp[1] == 'a' && lt[1] == 'l' && gt[1] == 'g');
        assert(quot[1] == 'q' && dec[1] == '#' && hex[1] == '#');
        assert(dec[2] == '3' && hex[2] == 'x');
        assert(e == amp || !starts(t, amp));
        assert(e == lt || !starts(t, lt));
        assert(e == gt || !starts(t, gt));
        assert(e == quot || !starts(t, quot));
        assert(e == dec || !starts(t, dec));
        assert(e == hex || !starts(t, hex));
        assert(unescaped(t) == seq![s[0]] + unescaped(t.skip(e.len() as int)));
        assert(seq![s[0]] + s.skip(1) == s);
    }
}

/// A text that was escaped for the preview holds no character that could open or close markup
/// or a quoted attribute.
pub proof fn law_escaped_is_plain(s: Seq<char>)
    ensures
        forall|i: int| 0 <= i < escaped(s).len() ==> !is_markup_char(#[trigger] escaped(s)[i]),
{
    lemma_expand_plain(s, |c: char| entity(c, "&#39;"@), "&#39;"@);
}

/// A text that a template puts into a page holds no character that could open or close markup
/// or a quoted attribute.
pub proof fn law_markup_is_plain(s: Seq<char>)
    ensures
        forall|i: int| 0 <= i < markup(s).len() ==> !is_markup_char(#[trigger] markup(s)[i]),
{
    lemma_expand_plain(s, |c: char| entity(c, "&#x27;"@), "&#x27;"@);
}

/// Escaping loses nothing: reading the entities back gives the text.
pub proof fn law_escaped_reads_back(s: Seq<char>)
    ensures
        unescaped(escaped(s)) == s,
{
    lemma_expand_read_back(s, |c: char| entity(c, "&#39;"@), "&#39;"@);
}

/// What a template puts into a page loses nothing: reading the entities back gives the text.
pub proof fn law_markup_reads_back(s: Seq<char>)
    ensures
        unescaped(markup(s)) == s,
{
    lemma_expand_read_back(s, |c: char| entity(c, "&#x27;"@), "&#x27;"@);
}

/// Expanding a single character.
proof fn lemma_expand_one(c: char, f: spec_fn(char) -> Seq<char>)
    ensures
        expand(seq![c], f) == f(c),
{
    assert(seq![c].drop_last() == Seq::<char>::empty());
    assert(expand(seq![c].drop_last(), f) == Seq::<char>::empty());
    assert(Seq::<char>::empty() + f(c) == f(c));
}

/// Escaping for the preview goes character by character: the escaped text of two texts one behind
/// the other is that of each, and each of the five characters becomes its own entity, while any
/// other stays.
pub proof fn law_escaped_goes_by_character(a: Seq<char>, b: Seq<char>, c: char)
    ensures
        escaped(seq![]) == Seq::<char>::empty(),
        escaped(a + b) == escaped(a) + escaped(b),
        escaped(seq!['&']) == "&amp;"@,
        escaped(seq!['<']) == "&lt;"@,
        escaped(seq!['>']) == "&gt;"@,
        escaped(seq!['"']) == "&quot;"@,
        escaped(seq!['\'']) == "&#39;"@,
        c != '&' && c != '<' && c != '>' && c != '"' && c != '\'' ==> escaped(seq![c]) == seq![c],
{
    let f = |c: char| entity(c, "&#39;"@);
    lemma_expand_concat(a, b, f);
    lemma_expand_one('&', f);
    lemma_expand_one('<', f);
    lemma_expand_one('>', f);
    lemma_expand_one('"', f);
    lemma_expand_one('\'', f);
    lemma_expand_one(c, f);
}

/// What a template puts into a page goes character by character: for two texts one behind the
/// other it is what it is for each, and each of the five characters becomes its own entity, while
/// any other stays.
pub proof fn law_markup_goes_by_character(a: Seq<char>, b: Seq<char>, c: char)
    ensures
        markup(seq![]) == Seq::<char>::empty(),
        markup(a + b) == markup(a) + markup(b),
        markup(seq!['&']) == "&amp;"@,
        markup(seq!['<']) == "&lt;"@,
        markup(seq!['>']) == "&gt;"@,
        markup(seq!['"']) == "&quot;"@,
        markup(seq!['\'']) == "&#x27;"@,
        c != '&' && c != '<' && c != '>' && c != '"' && c != '\'' ==> markup(seq![c]) == seq![c],
{
    let f = |c: char| entity(c, "&#x27;"@);
    lemma_expand_concat(a, b, f);
    lemma_expand_one('&', f);
    lemma_expand_one('<', f);
    lemma_expand_one('>', f);
    lemma_expand_one('"', f);
    lemma_expand_one('\'', f);
    lemma_expand_one(c, f);
}

} // verus!
