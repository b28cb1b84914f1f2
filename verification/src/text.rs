//! Character-level text utilities: building strings, comparing them, escaping
//! markup, rendering and parsing decimal numbers.
use vstd::prelude::*;
use vstd::string::*;

verus! {

// ---------------------------------------------------------------------------
// Building strings
// ---------------------------------------------------------------------------

/// `String::push`: appends one character at the end of the string.
#[verifier::external_body]
pub(crate) fn push_char(s: &mut String, c: char)
    ensures
        final(s)@ == old(s)@.push(c),
{
    s.push(c);
}

/// Appends `t` at the end of `s`.
pub fn push_str(s: &mut String, t: &str)
    ensures
        final(s)@ == old(s)@ + t@,
{
    s.append(t);
}

/// A fresh `String` holding the characters of `s`.
pub fn owned(s: &str) -> (r: String)
    ensures
        r@ == s@,
{
    String::from_str(s)
}

/// A copy of an optional string.
pub fn copy_opt(s: &Option<String>) -> (r: Option<String>)
    ensures
        opt_view(r) == opt_view(*s),
{
    match s {
        Some(x) => Some(x.clone()),
        None => None,
    }
}

/// The characters of an optional string.
pub open spec fn opt_view(s: Option<String>) -> Option<Seq<char>> {
    match s {
        Some(x) => Some(x@),
        None => None,
    }
}

/// The characters of `s`, one per element.
pub fn chars_of(s: &str) -> (v: Vec<char>)
    ensures
        v@ == s@,
{
    let mut v: Vec<char> = Vec::new();
    for c in it: s.chars()
        invariant
            v@ == s@.take(it.index() as int),
            it.seq() == s@,
    {
        v.push(c);
    }
    proof {
        assert(s@.take(s@.len() as int) =~= s@);
    }
    v
}

/// The string made of the characters `v[lo..hi]`.
pub fn string_from_chars(v: &Vec<char>, lo: usize, hi: usize) -> (r: String)
    requires
        lo <= hi <= v.len(),
    ensures
        r@ == v@.subrange(lo as int, hi as int),
{
    let mut out = String::new();
    let mut i = lo;
    while i < hi
        invariant
            lo <= i <= hi <= v.len(),
            out@ == v@.subrange(lo as int, i as int),
        decreases hi - i,
    {
        push_char(&mut out, v[i]);
        proof {
            assert(v@.subrange(lo as int, (i + 1) as int) =~= v@.subrange(lo as int, i as int).push(
                v@[i as int],
            ));
        }
        i = i + 1;
    }
    out
}

/// Whether two strings hold the same characters.
pub fn str_eq(a: &str, b: &str) -> (r: bool)
    ensures
        r == (a@ == b@),
{
    let va = chars_of(a);
    let vb = chars_of(b);
    if va.len() != vb.len() {
        return false;
    }
    let mut i: usize = 0;
    while i < va.len()
        invariant
            va@ == a@,
            vb@ == b@,
            va.len() == vb.len(),
            i <= va.len(),
            forall|j: int| 0 <= j < i ==> va@[j] == vb@[j],
        decreases va.len() - i,
    {
        if va[i] != vb[i] {
            return false;
        }
        i = i + 1;
    }
    proof {
        assert(va@ =~= vb@);
    }
    true
}

/// Whether `s` holds no character.
pub fn str_is_empty(s: &str) -> (r: bool)
    ensures
        r == (s@.len() == 0),
{
    s.unicode_len() == 0
}

// ---------------------------------------------------------------------------
// Character maps
// ---------------------------------------------------------------------------

/// The text obtained by replacing each character `c` of `s` with `f(c)`.
pub open spec fn flat_map_chars(s: Seq<char>, f: spec_fn(char) -> Seq<char>) -> Seq<char>
    decreases s.len(),
{
    if s.len() == 0 {
        Seq::empty()
    } else {
        flat_map_chars(s.drop_last(), f) + f(s.last())
    }
}

/// Mapping one more character extends the mapped prefix by its image.
pub proof fn lemma_flat_map_step(s: Seq<char>, i: int, f: spec_fn(char) -> Seq<char>)
    requires
        0 <= i < s.len(),
    ensures
        flat_map_chars(s.take(i + 1), f) == flat_map_chars(s.take(i), f) + f(s[i]),
{
    assert(s.take(i + 1).drop_last() =~= s.take(i));
}

/// The whole of `s` mapped equals its mapped full prefix.
pub proof fn lemma_take_all(s: Seq<char>)
    ensures
        s.take(s.len() as int) == s,
{
    assert(s.take(s.len() as int) =~= s);
}

/// Image of one character under HTML escaping.
pub open spec fn escape_html_char(c: char) -> Seq<char> {
    if c == '&' {
        seq!['&', 'a', 'm', 'p', ';']
    } else if c == '<' {
        seq!['&', 'l', 't', ';']
    } else if c == '>' {
        seq!['&', 'g', 't', ';']
    } else {
        seq![c]
    }
}

/// `s` with `&`, `<` and `>` replaced by their HTML entities.
pub open spec fn spec_escape_html(s: Seq<char>) -> Seq<char> {
    flat_map_chars(s, escape_html_map())
}

/// HTML escaping as a character map.
pub open spec fn escape_html_map() -> spec_fn(char) -> Seq<char> {
    |c: char| escape_html_char(c)
}

/// Image of one character under Markdown escaping.
pub open spec fn escape_md_char(c: char) -> Seq<char> {
    if c == '\\' || c == '*' || c == '_' || c == '`' || c == '~' {
        seq!['\\', c]
    } else {
        seq![c]
    }
}

/// `s` with the Markdown-active characters `\`, `*`, `_`, `` ` `` and `~`
/// preceded by a backslash.
pub open spec fn spec_escape_md(s: Seq<char>) -> Seq<char> {
    flat_map_chars(s, escape_md_map())
}

/// Markdown escaping as a character map.
pub open spec fn escape_md_map() -> spec_fn(char) -> Seq<char> {
    |c: char| escape_md_char(c)
}

/// Escapes the characters that are special in Telegram's HTML parse mode.
pub fn escape_html(text: &str) -> (r: String)
    ensures
        r@ == spec_escape_html(text@),
{
        let mut out = String::new();
    for c in it: text.chars()
        invariant
            it.seq() == text@,
            out@ == spec_escape_html(text@.take(it.index() as int)),
    {
        let ghost prev = out@;
        proof {
            lemma_flat_map_step(text@, it.index() as int, escape_html_map());
        }
        if c == '&' {
            push_char(&mut out, '&');
            push_char(&mut out, 'a');
            push_char(&mut out, 'm');
            push_char(&mut out, 'p');
            push_char(&mut out, ';');
        } else if c == '<' {
            push_char(&mut out, '&');
            push_char(&mut out, 'l');
            push_char(&mut out, 't');
            push_char(&mut out, ';');
        } else if c == '>' {
            push_char(&mut out, '&');
            push_char(&mut out, 'g');
            push_char(&mut out, 't');
            push_char(&mut out, ';');
        } else {
            push_char(&mut out, c);
        }
        proof {
            assert(escape_html_map()(c) == escape_html_char(c));
            assert(out@ =~= prev + escape_html_char(c));
        }
    }
    proof {
        lemma_take_all(text@);
    }
    out
}

/// Escapes the Markdown-active characters of a short title for Discord.
pub fn escape_md(s: &str) -> (r: String)
    ensures
        r@ == spec_escape_md(s@),
{
        let mut out = String::new();
    for c in it: s.chars()
        invariant
            it.seq() == s@,
            out@ == spec_escape_md(s@.take(it.index() as int)),
    {
        let ghost prev = out@;
        proof {
            lemma_flat_map_step(s@, it.index() as int, escape_md_map());
        }
        if c == '\\' || c == '*' || c == '_' || c == '`' || c == '~' {
            push_char(&mut out, '\\');
        }
        push_char(&mut out, c);
        proof {
            assert(escape_md_map()(c) == escape_md_char(c));
            assert(out@ =~= prev + escape_md_char(c));
        }
    }
    proof {
        lemma_take_all(s@);
    }
    out
}

/// Removing HTML tags from a prefix: the text kept so far and whether the
/// scan is inside a tag.
pub open spec fn strip_html_run(s: Seq<char>) -> (Seq<char>, bool)
    decreases s.len(),
{
    if s.len() == 0 {
        (Seq::empty(), false)
    } else {
        let (out, in_tag) = strip_html_run(s.drop_last());
        let c = s.last();
        if c == '<' {
            (out, true)
        } else if c == '>' {
            (out, false)
        } else if !in_tag {
            (out.push(c), in_tag)
        } else {
            (out, in_tag)
        }
    }
}

/// `s` with every `<`, every `>` and everything between a `<` and the next
/// `>` removed.
pub open spec fn spec_strip_html(s: Seq<char>) -> Seq<char> {
    strip_html_run(s).0
}

/// Strips HTML tags, keeping the text between them.
pub fn strip_html(s: &str) -> (r: String)
    ensures
        r@ == spec_strip_html(s@),
{
    let mut out = String::new();
    let mut in_tag = false;
    for c in it: s.chars()
        invariant
            it.seq() == s@,
            (out@, in_tag) == strip_html_run(s@.take(it.index() as int)),
    {
        proof {
            assert(s@.take(it.index() + 1).drop_last() =~= s@.take(it.index() as int));
        }
        if c == '<' {
            in_tag = true;
        } else if c == '>' {
            in_tag = false;
        } else if !in_tag {
            push_char(&mut out, c);
        }
    }
    proof {
        lemma_take_all(s@);
    }
    out
}

/// Nothing that `strip_html` returns holds a `<` or a `>`.
pub proof fn lemma_strip_html_no_angle_brackets(s: Seq<char>)
    ensures
        forall|i: int|
            0 <= i < spec_strip_html(s).len() ==> spec_strip_html(s)[i] != '<'
                && spec_strip_html(s)[i] != '>',
    decreases s.len(),
{
    if s.len() > 0 {
        lemma_strip_html_no_angle_brackets(s.drop_last());
        let prev = strip_html_run(s.drop_last()).0;
        assert(prev == spec_strip_html(s.drop_last()));
        let c = s.last();
        if c != '<' && c != '>' && !strip_html_run(s.drop_last()).1 {
            assert(spec_strip_html(s) == prev.push(c));
            assert forall|i: int| 0 <= i < prev.push(c).len() implies prev.push(c)[i] != '<'
                && prev.push(c)[i] != '>' by {
                if i < prev.len() {
                    assert(prev.push(c)[i] == prev[i]);
                    assert(spec_strip_html(s.drop_last())[i] == prev[i]);
                }
            }
        } else {
            assert(spec_strip_html(s) == prev);
        }
    }
}

/// Text with neither `<` nor `>` comes out of `strip_html` unchanged.
pub proof fn lemma_strip_html_plain_text(s: Seq<char>)
    requires
        forall|i: int| 0 <= i < s.len() ==> s[i] != '<' && s[i] != '>',
    ensures
        strip_html_run(s) == (s, false),
        spec_strip_html(s) == s,
    decreases s.len(),
{
    if s.len() > 0 {
        lemma_strip_html_plain_text(s.drop_last());
        assert(s.drop_last().push(s.last()) =~= s);
    }
}

/// Text without `&`, `<` and `>` is left unchanged by HTML escaping.
pub proof fn lemma_escape_html_plain_text(s: Seq<char>)
    requires
        forall|i: int| 0 <= i < s.len() ==> s[i] != '&' && s[i] != '<' && s[i] != '>',
    ensures
        spec_escape_html(s) == s,
    decreases s.len(),
{
    if s.len() > 0 {
        lemma_escape_html_plain_text(s.drop_last());
        assert(s.drop_last() + seq![s.last()] =~= s);
    }
}

/// HTML escaping leaves no raw `<` or `>` in its output.
pub proof fn lemma_escape_html_no_angle_brackets(s: Seq<char>)
    ensures
        forall|i: int|
            0 <= i < spec_escape_html(s).len() ==> spec_escape_html(s)[i] != '<'
                && spec_escape_html(s)[i] != '>',
    decreases s.len(),
{
    if s.len() > 0 {
        lemma_escape_html_no_angle_brackets(s.drop_last());
        let prev = spec_escape_html(s.drop_last());
        let img = escape_html_char(s.last());
        assert(spec_escape_html(s) == prev + img);
        assert forall|i: int| 0 <= i < (prev + img).len() implies (prev + img)[i] != '<' && (
        prev + img)[i] != '>' by {
            if i >= prev.len() {
                assert((prev + img)[i] == img[i - prev.len()]);
            }
        }
    }
}

/// Reading HTML entities back in one pass, left to right: `&amp;`, `&lt;`
/// and `&gt;` become `&`, `<` and `>`; every other character stays.
pub open spec fn spec_unescape_html(t: Seq<char>) -> Seq<char>
    decreases t.len(),
{
    if t.len() == 0 {
        Seq::empty()
    } else if t.len() >= 5 && t.take(5) == seq!['&', 'a', 'm', 'p', ';'] {
        seq!['&'] + spec_unescape_html(t.skip(5))
    } else if t.len() >= 4 && t.take(4) == seq!['&', 'l', 't', ';'] {
        seq!['<'] + spec_unescape_html(t.skip(4))
    } else if t.len() >= 4 && t.take(4) == seq!['&', 'g', 't', ';'] {
        seq!['>'] + spec_unescape_html(t.skip(4))
    } else {
        seq![t[0]] + spec_unescape_html(t.drop_first())
    }
}

/// Whether an entity `&amp;`, `&lt;` or `&gt;` starts at index `i` of `t`.
pub open spec fn entity_at(t: Seq<char>, i: int) -> bool {
    ||| i + 5 <= t.len() && t.subrange(i, i + 5) == seq!['&', 'a', 'm', 'p', ';']
    ||| i + 4 <= t.len() && t.subrange(i, i + 4) == seq!['&', 'l', 't', ';']
    ||| i + 4 <= t.len() && t.subrange(i, i + 4) == seq!['&', 'g', 't', ';']
}

/// Mapping characters can be unfolded from the front as well.
proof fn lemma_flat_map_front(s: Seq<char>, f: spec_fn(char) -> Seq<char>)
    requires
        s.len() > 0,
    ensures
        flat_map_chars(s, f) == f(s[0]) + flat_map_chars(s.drop_first(), f),
    decreases s.len(),
{
    if s.len() == 1 {
        assert(s.drop_last() =~= Seq::<char>::empty());
        assert(s.drop_first() =~= Seq::<char>::empty());
        assert(f(s[0]) + Seq::<char>::empty() =~= f(s[0]));
        assert(Seq::<char>::empty() + f(s[0]) =~= f(s[0]));
    } else {
        lemma_flat_map_front(s.drop_last(), f);
        assert(s.drop_last().drop_first() =~= s.drop_first().drop_last());
        assert(s.drop_first().last() == s.last());
        assert(flat_map_chars(s.drop_first(), f) == flat_map_chars(s.drop_first().drop_last(), f)
            + f(s.drop_first().last()));
        assert(flat_map_chars(s, f) =~= f(s[0]) + flat_map_chars(s.drop_first(), f));
    }
}

/// Reading back the image of one character gives the character.
proof fn lemma_unescape_one(c: char, rest: Seq<char>)
    ensures
        spec_unescape_html(escape_html_char(c) + rest) == seq![c] + spec_unescape_html(rest),
{
    let t = escape_html_char(c) + rest;
    if c == '&' {
        assert(t.take(5) =~= seq!['&', 'a', 'm', 'p', ';']);
        assert(t.skip(5) =~= rest);
    } else if c == '<' {
        assert(t.take(4) =~= seq!['&', 'l', 't', ';']);
        assert(t.skip(4) =~= rest);
        assert(t[1] == 'l');
        if t.len() >= 5 {
            assert(t.take(5)[1] != seq!['&', 'a', 'm', 'p', ';'][1]);
        }
    } else if c == '>' {
        assert(t.take(4) =~= seq!['&', 'g', 't', ';']);
        assert(t.skip(4) =~= rest);
        assert(t[1] == 'g');
        if t.len() >= 5 {
            assert(t.take(5)[1] != seq!['&', 'a', 'm', 'p', ';'][1]);
        }
        assert(t.take(4)[1] != seq!['&', 'l', 't', ';'][1]);
    } else {
        assert(t[0] == c);
        assert(t.drop_first() =~= rest);
        if t.len() >= 5 {
            assert(t.take(5)[0] != seq!['&', 'a', 'm', 'p', ';'][0]);
        }
        if t.len() >= 4 {
            assert(t.take(4)[0] != seq!['&', 'l', 't', ';'][0]);
            assert(t.take(4)[0] != seq!['&', 'g', 't', ';'][0]);
        }
    }
}

/// HTML escaping can be undone: reading the entities back in one pass
/// gives the original text.
pub proof fn lemma_escape_html_decodes(s: Seq<char>)
    ensures
        spec_unescape_html(spec_escape_html(s)) == s,
    decreases s.len(),
{
    if s.len() > 0 {
        lemma_flat_map_front(s, escape_html_map());
        lemma_escape_html_decodes(s.drop_first());
        lemma_unescape_one(s[0], spec_escape_html(s.drop_first()));
        assert(escape_html_map()(s[0]) == escape_html_char(s[0]));
        assert(seq![s[0]] + s.drop_first() =~= s);
    }
}

/// Every `&` that HTML escaping outputs starts one of the entities `&amp;`,
/// `&lt;` and `&gt;`.
pub proof fn lemma_escape_html_ampersands(s: Seq<char>)
    ensures
        forall|i: int|
            0 <= i < spec_escape_html(s).len() && spec_escape_html(s)[i] == '&' ==> entity_at(
                spec_escape_html(s),
                i,
            ),
    decreases s.len(),
{
    if s.len() > 0 {
        lemma_escape_html_ampersands(s.drop_last());
        let prev = spec_escape_html(s.drop_last());
        let img = escape_html_char(s.last());
        let t = prev + img;
        assert(spec_escape_html(s) == t);
        assert forall|i: int| 0 <= i < t.len() && t[i] == '&' implies entity_at(t, i) by {
            if i < prev.len() {
                assert(prev[i] == '&');
                assert(entity_at(prev, i));
                if i + 5 <= prev.len() && prev.subrange(i, i + 5) == seq!['&', 'a', 'm', 'p', ';'] {
                    assert(t.subrange(i, i + 5) =~= prev.subrange(i, i + 5));
                } else if i + 4 <= prev.len() && prev.subrange(i, i + 4) == seq!['&', 'l', 't', ';'] {
                    assert(t.subrange(i, i + 4) =~= prev.subrange(i, i + 4));
                } else {
                    assert(t.subrange(i, i + 4) =~= prev.subrange(i, i + 4));
                }
            } else {
                let k = i - prev.len();
                assert(t[i] == img[k]);
                assert(k == 0);
                if s.last() == '&' {
                    assert(t.subrange(i, i + 5) =~= img);
                } else if s.last() == '<' {
                    assert(t.subrange(i, i + 4) =~= img);
                } else {
                    assert(t.subrange(i, i + 4) =~= img);
                }
            }
        }
    }
}

/// Whether `a` is a subsequence of `b`, as shown by the increasing indices
/// `idx` at which `b` holds the characters of `a`.
pub open spec fn subsequence_at(a: Seq<char>, b: Seq<char>, idx: Seq<int>) -> bool {
    &&& idx.len() == a.len()
    &&& forall|i: int, j: int| 0 <= i < j < idx.len() ==> idx[i] < idx[j]
    &&& forall|i: int| 0 <= i < idx.len() ==> 0 <= #[trigger] idx[i] < b.len() && b[idx[i]] == a[i]
}

/// Whether `a` is obtained from `b` by removing characters.
pub open spec fn is_subsequence(a: Seq<char>, b: Seq<char>) -> bool {
    exists|idx: Seq<int>| subsequence_at(a, b, idx)
}

/// The indices at which `s` holds what tag stripping keeps.
proof fn strip_html_indices(s: Seq<char>) -> (idx: Seq<int>)
    ensures
        subsequence_at(spec_strip_html(s), s, idx),
    decreases s.len(),
{
    if s.len() == 0 {
        Seq::empty()
    } else {
        let prev = strip_html_indices(s.drop_last());
        let (out, in_tag) = strip_html_run(s.drop_last());
        let c = s.last();
        if c != '<' && c != '>' && !in_tag {
            let idx = prev.push(s.len() - 1);
            assert(spec_strip_html(s) == out.push(c));
            assert forall|i: int| 0 <= i < idx.len() implies 0 <= #[trigger] idx[i] < s.len()
                && s[idx[i]] == out.push(c)[i] by {
                if i < prev.len() {
                    assert(idx[i] == prev[i]);
                    assert(s.drop_last()[prev[i]] == s[prev[i]]);
                }
            }
            idx
        } else {
            assert(spec_strip_html(s) == out);
            assert forall|i: int| 0 <= i < prev.len() implies 0 <= #[trigger] prev[i] < s.len()
                && s[prev[i]] == out[i] by {
                assert(s.drop_last()[prev[i]] == s[prev[i]]);
            }
            prev
        }
    }
}

/// Tag stripping only removes characters: what it keeps appears in the
/// input, in the same order.
pub proof fn lemma_strip_html_subsequence(s: Seq<char>)
    ensures
        is_subsequence(spec_strip_html(s), s),
{
    let idx = strip_html_indices(s);
    assert(subsequence_at(spec_strip_html(s), s, idx));
}

/// Stripping tags a second time changes nothing.
pub proof fn lemma_strip_html_idempotent(s: Seq<char>)
    ensures
        spec_strip_html(spec_strip_html(s)) == spec_strip_html(s),
{
    lemma_strip_html_no_angle_brackets(s);
    lemma_strip_html_plain_text(spec_strip_html(s));
}

// ---------------------------------------------------------------------------
// Decimal numbers
// ---------------------------------------------------------------------------

/// The character of a decimal digit.
pub open spec fn digit_char(d: int) -> char {
    if d == 0 {
        '0'
    } else if d == 1 {
        '1'
    } else if d == 2 {
        '2'
    } else if d == 3 {
        '3'
    } else if d == 4 {
        '4'
    } else if d == 5 {
        '5'
    } else if d == 6 {
        '6'
    } else if d == 7 {
        '7'
    } else if d == 8 {
        '8'
    } else {
        '9'
    }
}

/// Whether `c` is an ASCII decimal digit.
pub open spec fn is_digit(c: char) -> bool {
    '0' <= c && c <= '9'
}

/// The value of a decimal digit character.
pub open spec fn digit_value(c: char) -> int {
    (c as int) - ('0' as int)
}

/// Whether every character of `s` is a decimal digit.
pub open spec fn all_digits(s: Seq<char>) -> bool {
    forall|i: int| 0 <= i < s.len() ==> is_digit(s[i])
}

/// The number that the decimal digits `s` spell (most significant first).
pub open spec fn digits_value(s: Seq<char>) -> int
    decreases s.len(),
{
    if s.len() == 0 {
        0
    } else {
        digits_value(s.drop_last()) * 10 + digit_value(s.last())
    }
}

/// The shortest decimal rendering of `n`.
pub open spec fn spec_decimal(n: nat) -> Seq<char>
    decreases n,
{
    if n < 10 {
        seq![digit_char(n as int)]
    } else {
        spec_decimal(n / 10).push(digit_char((n % 10) as int))
    }
}

/// The character of the decimal digit `d`.
pub fn decimal_digit(d: u64) -> (c: char)
    requires
        d < 10,
    ensures
        c == digit_char(d as int),
{
    match d {
        0 => '0',
        1 => '1',
        2 => '2',
        3 => '3',
        4 => '4',
        5 => '5',
        6 => '6',
        7 => '7',
        8 => '8',
        _ => '9',
    }
}

/// Appends the decimal rendering of `n` to `out`.
pub fn push_decimal(out: &mut String, n: u64)
    ensures
        final(out)@ == old(out)@ + spec_decimal(n as nat),
    decreases n,
{
    if n >= 10 {
        push_decimal(out, n / 10);
    }
    push_char(out, decimal_digit(n % 10));
    proof {
        if n >= 10 {
            assert(final(out)@ =~= old(out)@ + spec_decimal(n as nat));
        } else {
            assert(final(out)@ =~= old(out)@ + spec_decimal(n as nat));
        }
    }
}

/// The decimal rendering of a signed number: a `-` before the digits of
/// its magnitude when it is negative.
pub open spec fn spec_signed_decimal(n: int) -> Seq<char> {
    if n < 0 {
        seq!['-'] + spec_decimal((-n) as nat)
    } else {
        spec_decimal(n as nat)
    }
}

/// Appends the decimal rendering of the signed number `n` to `out`.
pub fn push_signed_decimal(out: &mut String, n: i64)
    ensures
        final(out)@ == old(out)@ + spec_signed_decimal(n as int),
{
    if n < 0 {
        push_char(out, '-');
        let magnitude: u64 = (0i128 - (n as i128)) as u64;
        push_decimal(out, magnitude);
        proof {
            assert(final(out)@ =~= old(out)@ + spec_signed_decimal(n as int));
        }
    } else {
        push_decimal(out, n as u64);
    }
}

/// What `str::parse` gives for an unsigned integer type whose largest value
/// is `max`: an optional `+`, then one or more decimal digits whose value is
/// at most `max`.
pub open spec fn spec_parse_unsigned(s: Seq<char>, max: int) -> Option<int> {
    let d = if s.len() > 0 && s[0] == '+' {
        s.drop_first()
    } else {
        s
    };
    if d.len() > 0 && all_digits(d) && digits_value(d) <= max {
        Some(digits_value(d))
    } else {
        None
    }
}

/// What `str::parse` gives for a signed integer type with range
/// `min..=max`: an optional sign, then one or more decimal digits whose
/// signed value lies in the range.
pub open spec fn spec_parse_signed(s: Seq<char>, min: int, max: int) -> Option<int> {
    if s.len() > 0 && s[0] == '-' {
        let d = s.drop_first();
        if d.len() > 0 && all_digits(d) && -digits_value(d) >= min {
            Some(-digits_value(d))
        } else {
            None
        }
    } else {
        spec_parse_unsigned(s, max)
    }
}

/// A number spelled by digits is never negative.
pub proof fn lemma_digits_value_nonneg(s: Seq<char>)
    requires
        all_digits(s),
    ensures
        digits_value(s) >= 0,
    decreases s.len(),
{
    if s.len() > 0 {
        assert(all_digits(s.drop_last()));
        lemma_digits_value_nonneg(s.drop_last());
    }
}

/// Appending digits never makes the spelled number smaller.
pub proof fn lemma_digits_prefix_le(s: Seq<char>, k: int)
    requires
        all_digits(s),
        0 <= k <= s.len(),
    ensures
        digits_value(s.take(k)) <= digits_value(s),
    decreases s.len() - k,
{
    if k == s.len() {
        assert(s.take(k) =~= s);
    } else {
        lemma_digits_prefix_le(s, k + 1);
        assert(s.take(k + 1).drop_last() =~= s.take(k));
        assert(all_digits(s.take(k)));
        lemma_digits_value_nonneg(s.take(k));
    }
}

/// Reads the digits `v[start..]` as a number no larger than `limit`;
/// `None` when one of them is not a digit, when there are none, or when the
/// number exceeds `limit`.
fn read_digits(v: &Vec<char>, start: usize, limit: u64) -> (r: Option<u64>)
    requires
        start <= v.len(),
        limit >= 9,
    ensures
        ({
            let d = v@.skip(start as int);
            match r {
                Some(n) => d.len() > 0 && all_digits(d) && n == digits_value(d) && n <= limit,
                None => !(d.len() > 0 && all_digits(d) && digits_value(d) <= limit),
            }
        }),
{
    let ghost d = v@.skip(start as int);
    if start == v.len() {
        return None;
    }
    let mut acc: u64 = 0;
    let mut i = start;
    while i < v.len()
        invariant
            start <= i <= v.len(),
            d == v@.skip(start as int),
            all_digits(d.take(i - start)),
            acc == digits_value(d.take(i - start)),
            acc <= limit,
            limit >= 9,
        decreases v.len() - i,
    {
        let c = v[i];
        proof {
            assert(d[i - start] == c);
        }
        if !('0' <= c && c <= '9') {
            return None;
        }
        let dv: u64 = (c as u64) - ('0' as u64);
        proof {
            assert(d.take(i - start + 1).drop_last() =~= d.take(i - start));
            assert(digits_value(d.take(i - start + 1)) == acc * 10 + dv);
            assert(all_digits(d.take(i - start + 1)));
        }
        if acc > (limit - dv) / 10 {
            proof {
                assert(acc * 10 + dv > limit) by (nonlinear_arith)
                    requires
                        acc > (limit - dv) / 10,
                        dv <= limit || dv > limit,
                ;
                if all_digits(d) {
                    lemma_digits_prefix_le(d, i - start + 1);
                }
            }
            return None;
        }
        proof {
            assert(acc * 10 + dv <= limit) by (nonlinear_arith)
                requires
                    acc <= (limit - dv) / 10,
                    dv <= limit,
            ;
        }
        acc = acc * 10 + dv;
        i = i + 1;
    }
    proof {
        assert(d.take(i - start) =~= d);
    }
    Some(acc)
}

/// `str::parse::<u16>`.
pub fn parse_u16(s: &str) -> (r: Option<u16>)
    ensures
        match r {
            Some(n) => spec_parse_unsigned(s@, u16::MAX as int) == Some(n as int),
            None => spec_parse_unsigned(s@, u16::MAX as int) is None,
        },
{
    let v = chars_of(s);
    let start: usize = if v.len() > 0 && v[0] == '+' {
        1
    } else {
        0
    };
    proof {
        if start == 1 {
            assert(v@.skip(1) =~= s@.drop_first());
        } else {
            assert(v@.skip(0) =~= s@);
        }
    }
    match read_digits(&v, start, 65535) {
        Some(n) => Some(n as u16),
        None => None,
    }
}

/// `str::parse::<i64>`.
pub fn parse_i64(s: &str) -> (r: Option<i64>)
    ensures
        match r {
            Some(n) => spec_parse_signed(s@, i64::MIN as int, i64::MAX as int) == Some(n as int),
            None => spec_parse_signed(s@, i64::MIN as int, i64::MAX as int) is None,
        },
{
    let v = chars_of(s);
    if v.len() > 0 && v[0] == '-' {
        proof {
            assert(v@.skip(1) =~= s@.drop_first());
        }
        match read_digits(&v, 1, 9223372036854775808) {
            Some(n) => {
                if n == 9223372036854775808 {
                    Some(i64::MIN)
                } else {
                    Some(-(n as i64))
                }
            },
            None => None,
        }
    } else {
        let start: usize = if v.len() > 0 && v[0] == '+' {
            1
        } else {
            0
        };
        proof {
            if start == 1 {
                assert(v@.skip(1) =~= s@.drop_first());
            } else {
                assert(v@.skip(0) =~= s@);
            }
        }
        match read_digits(&v, start, 9223372036854775807) {
            Some(n) => Some(n as i64),
            None => None,
        }
    }
}

/// The digit characters are digits and spell their own value.
pub proof fn lemma_digit_char(d: int)
    requires
        0 <= d < 10,
    ensures
        is_digit(digit_char(d)),
        digit_value(digit_char(d)) == d,
{
}

/// Every character of a decimal rendering is a digit, and the rendering
/// spells the number back.
pub proof fn lemma_decimal_digits(n: nat)
    ensures
        spec_decimal(n).len() > 0,
        all_digits(spec_decimal(n)),
        digits_value(spec_decimal(n)) == n,
        spec_decimal(n)[0] != '+' && spec_decimal(n)[0] != '-',
    decreases n,
{
    if n >= 10 {
        lemma_decimal_digits(n / 10);
        lemma_digit_char((n % 10) as int);
        let p = spec_decimal(n / 10);
        let ch = digit_char((n % 10) as int);
        assert(spec_decimal(n) == p.push(ch));
        assert(p.push(ch).drop_last() =~= p);
        assert(p.push(ch).last() == ch);
        assert(digits_value(p.push(ch)) == digits_value(p) * 10 + digit_value(ch));
        assert((n / 10) * 10 + n % 10 == n);
        assert(spec_decimal(n)[0] == p[0]);
        assert forall|i: int| 0 <= i < spec_decimal(n).len() implies is_digit(
            spec_decimal(n)[i],
        ) by {
            if i < p.len() {
                assert(spec_decimal(n)[i] == p[i]);
            }
        }
    } else {
        lemma_digit_char(n as int);
        let ch = digit_char(n as int);
        assert(spec_decimal(n) == seq![ch]);
        assert(seq![ch].drop_last() =~= Seq::<char>::empty());
        assert(seq![ch].last() == ch);
        assert(digits_value(seq![ch]) == digits_value(Seq::<char>::empty()) * 10 + digit_value(ch));
    }
}

/// Reading back the decimal rendering of a number gives the number.
pub proof fn lemma_parse_decimal_roundtrip(n: nat, max: int)
    requires
        n <= max,
    ensures
        spec_parse_unsigned(spec_decimal(n), max) == Some(n as int),
{
    lemma_decimal_digits(n);
}

} // verus!
