//! Text building blocks: Unicode whitespace, trimming, and the
//! specifications of the two `String` appends replies are built with.
use vstd::prelude::*;

verus! {

/// `String::push` (std): appends the one given `char` at the end of the
/// string and changes nothing else.
pub assume_specification[ String::push ](s: &mut String, ch: char)
    ensures
        final(s)@ == old(s)@.push(ch),
;

/// `String::push_str` (std): appends the given string slice at the end of
/// the string and changes nothing else.
pub assume_specification[ String::push_str ](s: &mut String, string: &str)
    ensures
        final(s)@ == old(s)@ + string@,
;

/// A character of the Unicode `White_Space` property, the whitespace
/// of `char::is_whitespace` and `str::trim`.
pub open spec fn is_white_space(c: char) -> bool {
    let v = c as u32;
    ||| 9 <= v <= 13
    ||| v == 32
    ||| v == 0x85
    ||| v == 0xA0
    ||| v == 0x1680
    ||| 0x2000 <= v <= 0x200A
    ||| v == 0x2028
    ||| v == 0x2029
    ||| v == 0x202F
    ||| v == 0x205F
    ||| v == 0x3000
}

/// Whether a character is Unicode whitespace.
pub fn is_white_space_char(c: char) -> (b: bool)
    ensures
        b == is_white_space(c),
{
    let v = c as u32;
    (9 <= v && v <= 13) || v == 32 || v == 0x85 || v == 0xA0 || v == 0x1680 || (0x2000 <= v && v
        <= 0x200A) || v == 0x2028 || v == 0x2029 || v == 0x202F || v == 0x205F || v == 0x3000
}

/// The characters of a string slice, in order.
fn chars_of(s: &str) -> (v: Vec<char>)
    ensures
        v@ == s@,
{
    let mut v: Vec<char> = Vec::new();
    for c in it: s.chars()
        invariant
            v@ == it.seq().take(it.index()),
    {
        v.push(c);
    }
    v
}

/// The characters left once the leading whitespace is removed.
pub open spec fn trim_start(s: Seq<char>) -> Seq<char>
    decreases s.len(),
{
    if s.len() > 0 && is_white_space(s[0]) {
        trim_start(s.drop_first())
    } else {
        s
    }
}

/// The characters left once the trailing whitespace is removed.
pub open spec fn trim_end(s: Seq<char>) -> Seq<char>
    decreases s.len(),
{
    if s.len() > 0 && is_white_space(s.last()) {
        trim_end(s.drop_last())
    } else {
        s
    }
}

/// The characters left once the leading and the trailing whitespace are
/// removed (what `str::trim` leaves).
pub open spec fn spec_trim(s: Seq<char>) -> Seq<char> {
    trim_end(trim_start(s))
}

proof fn lemma_trim_start_at(s: Seq<char>, a: int)
    requires
        0 <= a <= s.len(),
        forall|k: int| 0 <= k < a ==> is_white_space(#[trigger] s[k]),
        a < s.len() ==> !is_white_space(s[a]),
    ensures
        trim_start(s) == s.subrange(a, s.len() as int),
    decreases a,
{
    if a == 0 {
        assert(s.subrange(0, s.len() as int) =~= s);
    } else {
        let t = s.drop_first();
        assert forall|k: int| 0 <= k < a - 1 implies is_white_space(#[trigger] t[k]) by {
            assert(t[k] == s[k + 1]);
        }
        lemma_trim_start_at(t, a - 1);
        assert(t.subrange(a - 1, t.len() as int) =~= s.subrange(a, s.len() as int));
    }
}

proof fn lemma_trim_end_at(s: Seq<char>, b: int)
    requires
        0 <= b <= s.len(),
        forall|k: int| b <= k < s.len() ==> is_white_space(#[trigger] s[k]),
        b > 0 ==> !is_white_space(s[b - 1]),
    ensures
        trim_end(s) == s.subrange(0, b),
    decreases s.len() - b,
{
    if b == s.len() {
        assert(s.subrange(0, b) =~= s);
    } else {
        let t = s.drop_last();
        assert forall|k: int| b <= k < t.len() implies is_white_space(#[trigger] t[k]) by {
            assert(t[k] == s[k]);
        }
        lemma_trim_end_at(t, b);
        assert(t.subrange(0, b) =~= s.subrange(0, b));
    }
}

/// Copies `chars[start..end]` into a new string.
fn string_of_range(chars: &Vec<char>, start: usize, end: usize) -> (out: String)
    requires
        start <= end <= chars@.len(),
    ensures
        out@ == chars@.subrange(start as int, end as int),
{
    let mut out = String::new();
    let mut i = start;
    while i < end
        invariant
            start <= i <= end,
            end <= chars@.len(),
            out@ == chars@.subrange(start as int, i as int),
        decreases end - i,
    {
        out.push(chars[i]);
        assert(chars@.subrange(start as int, i + 1) =~= chars@.subrange(start as int, i as int).push(
            chars@[i as int],
        ));
        i = i + 1;
    }
    out
}

/// The string with its leading and trailing Unicode whitespace removed,
/// as `str::trim` leaves it.
pub fn trim(s: &str) -> (out: String)
    ensures
        out@ == spec_trim(s@),
{
    let chars = chars_of(s);
    let n = chars.len();
    let mut a: usize = 0;
    while a < n && is_white_space_char(chars[a])
        invariant
            a <= n,
            n == chars@.len(),
            forall|k: int| 0 <= k < a ==> is_white_space(#[trigger] chars@[k]),
        decreases n - a,
    {
        a = a + 1;
    }
    proof {
        lemma_trim_start_at(chars@, a as int);
    }
    let ghost rest = chars@.subrange(a as int, n as int);
    let mut b: usize = n;
    while b > a && is_white_space_char(chars[b - 1])
        invariant
            a <= b <= n,
            n == chars@.len(),
            forall|k: int| b <= k < n ==> is_white_space(#[trigger] chars@[k]),
        decreases b - a,
    {
        b = b - 1;
    }
    proof {
        assert forall|k: int| b - a <= k < rest.len() implies is_white_space(#[trigger] rest[k]) by {
            assert(rest[k] == chars@[a + k]);
        }
        if b > a {
            assert(rest[b - a - 1] == chars@[b - 1]);
        }
        lemma_trim_end_at(rest, b - a);
        assert(rest.subrange(0, b - a) =~= chars@.subrange(a as int, b as int));
    }
    string_of_range(&chars, a, b)
}

/// Every character of the text is whitespace.
pub open spec fn is_blank(s: Seq<char>) -> bool {
    forall|k: int| 0 <= k < s.len() ==> is_white_space(#[trigger] s[k])
}

/// Trimming removes exactly the surrounding whitespace: a text that
/// neither starts nor ends with whitespace, with any whitespace before it
/// and any after it, trims to that text.
pub proof fn lemma_trim_removes_surrounding_white_space(
    lead: Seq<char>,
    text: Seq<char>,
    trail: Seq<char>,
)
    requires
        is_blank(lead),
        is_blank(trail),
        text.len() > 0 ==> !is_white_space(text[0]) && !is_white_space(text.last()),
    ensures
        spec_trim(lead + text + trail) == text,
{
    let s = lead + text + trail;
    if text.len() > 0 {
        let a = lead.len() as int;
        assert forall|k: int| 0 <= k < a implies is_white_space(#[trigger] s[k]) by {
            assert(s[k] == lead[k]);
        }
        assert(s[a] == text[0]);
        lemma_trim_start_at(s, a);
        let rest = s.subrange(a, s.len() as int);
        assert(rest =~= text + trail);
        let b = text.len() as int;
        assert forall|k: int| b <= k < rest.len() implies is_white_space(#[trigger] rest[k]) by {
            assert(rest[k] == trail[k - b]);
        }
        assert(rest[b - 1] == text.last());
        lemma_trim_end_at(rest, b);
        assert(rest.subrange(0, b) =~= text);
    } else {
        assert forall|k: int| 0 <= k < s.len() implies is_white_space(#[trigger] s[k]) by {
            if k < lead.len() {
                assert(s[k] == lead[k]);
            } else {
                assert(s[k] == trail[k - lead.len()]);
            }
        }
        lemma_trim_start_at(s, s.len() as int);
        let rest = s.subrange(s.len() as int, s.len() as int);
        lemma_trim_end_at(rest, 0);
        assert(rest.subrange(0, 0) =~= text);
    }
}

/// A text trims to nothing exactly when it is blank.
pub proof fn lemma_trim_is_empty_exactly_when_blank(s: Seq<char>)
    ensures
        (spec_trim(s).len() == 0) <==> is_blank(s),
{
    if is_blank(s) {
        lemma_trim_removes_surrounding_white_space(s, Seq::empty(), Seq::empty());
        assert(s + Seq::<char>::empty() + Seq::<char>::empty() =~= s);
    } else {
        let a = choose|k: int| 0 <= k < s.len() && !is_white_space(#[trigger] s[k]);
        let first = first_non_blank(s, 0);
        let last = last_non_blank(s, s.len() as int);
        let lead = s.subrange(0, first);
        let text = s.subrange(first, last + 1);
        let trail = s.subrange(last + 1, s.len() as int);
        assert(lead + text + trail =~= s);
        lemma_trim_removes_surrounding_white_space(lead, text, trail);
    }
}

/// The first index at or after `from` whose character is not whitespace,
/// where the text holds one there and all before `from` is whitespace.
proof fn first_non_blank(s: Seq<char>, from: int) -> (i: int)
    requires
        0 <= from <= s.len(),
        forall|k: int| 0 <= k < from ==> is_white_space(#[trigger] s[k]),
        exists|k: int| from <= k < s.len() && !is_white_space(#[trigger] s[k]),
    ensures
        from <= i < s.len(),
        !is_white_space(s[i]),
        forall|k: int| 0 <= k < i ==> is_white_space(#[trigger] s[k]),
    decreases s.len() - from,
{
    if !is_white_space(s[from]) {
        from
    } else {
        first_non_blank(s, from + 1)
    }
}

/// The last index before `to` whose character is not whitespace, where
/// the text holds one there and all from `to` on is whitespace.
proof fn last_non_blank(s: Seq<char>, to: int) -> (i: int)
    requires
        0 <= to <= s.len(),
        forall|k: int| to <= k < s.len() ==> is_white_space(#[trigger] s[k]),
        exists|k: int| 0 <= k < to && !is_white_space(#[trigger] s[k]),
    ensures
        0 <= i < to,
        !is_white_space(s[i]),
        forall|k: int| i < k < s.len() ==> is_white_space(#[trigger] s[k]),
    decreases to,
{
    if !is_white_space(s[to - 1]) {
        to - 1
    } else {
        last_non_blank(s, to - 1)
    }
}

} // verus!
