use vstd::prelude::*;

verus! {

/// The character of a decimal digit.
pub open spec fn digit_char(d: nat) -> char {
    if d == 0 {
        '0'
    } else if d == 1 {
        '1'
    } else if d == 2 {
        '2'
    } else if d == 3 {
        '3'
    } else if d == 4 {
        '4'
    } else if d == 5 {
        '5'
    } else if d == 6 {
        '6'
    } else if d == 7 {
        '7'
    } else if d == 8 {
        '8'
    } else {
        '9'
    }
}

/// `n` written in decimal, without leading zeros.
pub open spec fn decimal(n: nat) -> Seq<char>
    decreases n,
{
    if n < 10 {
        seq![digit_char(n)]
    } else {
        decimal(n / 10).push(digit_char(n % 10))
    }
}

fn digit_str(d: u16) -> (r: &'static str)
    requires
        d < 10,
    ensures
        r@ == seq![digit_char(d as nat)],
{
    if d == 0 {
        proof { reveal_strlit("0"); }
        "0"
    } else if d == 1 {
        proof { reveal_strlit("1"); }
        "1"
    } else if d == 2 {
        proof { reveal_strlit("2"); }
        "2"
    } else if d == 3 {
        proof { reveal_strlit("3"); }
        "3"
    } else if d == 4 {
        proof { reveal_strlit("4"); }
        "4"
    } else if d == 5 {
        proof { reveal_strlit("5"); }
        "5"
    } else if d == 6 {
        proof { reveal_strlit("6"); }
        "6"
    } else if d == 7 {
        proof { reveal_strlit("7"); }
        "7"
    } else if d == 8 {
        proof { reveal_strlit("8"); }
        "8"
    } else {
        proof { reveal_strlit("9"); }
        "9"
    }
}

/// Writes `n` in decimal.
pub fn decimal_string(n: u16) -> (r: String)
    ensures
        r@ == decimal(n as nat),
    decreases n,
{
    if n < 10 {
        digit_str(n).to_owned()
    } else {
        let mut s = decimal_string(n / 10);
        s.append(digit_str(n % 10));
        s
    }
}

/// Whitespace as `char::is_whitespace` defines it: the characters with the Unicode
/// `White_Space` property.
pub open spec fn is_white(c: char) -> bool {
    let u = c as u32;
    (9 <= u && u <= 13) || u == 32 || u == 0x85 || u == 0xA0 || u == 0x1680 || (0x2000 <= u
        && u <= 0x200A) || u == 0x2028 || u == 0x2029 || u == 0x202F || u == 0x205F || u
        == 0x3000
}

fn white(c: char) -> (r: bool)
    ensures
        r == is_white(c),
{
    let u = c as u32;
    (9 <= u && u <= 13) || u == 32 || u == 0x85 || u == 0xA0 || u == 0x1680 || (0x2000 <= u
        && u <= 0x200A) || u == 0x2028 || u == 0x2029 || u == 0x202F || u == 0x205F || u
        == 0x3000
}

/// The characters of `s`, one by one.
fn chars_of(s: &str) -> (r: Vec<char>)
    ensures
        r@ == s@,
{
    let n = s.unicode_len();
    let mut v: Vec<char> = Vec::new();
    let mut i: usize = 0;
    while i < n
        invariant
            n == s@.len(),
            0 <= i <= n,
            v@ == s@.subrange(0, i as int),
        decreases n - i,
    {
        v.push(s.get_char(i));
        i += 1;
        assert(v@ =~= s@.subrange(0, i as int));
    }
    assert(v@ =~= s@);
    v
}

/// `tok` stands at `i` in `text` as a whole whitespace-separated word.
pub open spec fn token_at(text: Seq<char>, tok: Seq<char>, i: int) -> bool {
    &&& 0 <= i && i + tok.len() <= text.len()
    &&& text.subrange(i, i + tok.len()) == tok
    &&& (i == 0 || is_white(text[i - 1]))
    &&& (i + tok.len() == text.len() || is_white(text[i + tok.len()]))
}

/// `text` holds `tok` as one of its whitespace-separated words, as
/// `text.split_whitespace().any(|w| w == tok)` tells.
pub open spec fn has_token(text: Seq<char>, tok: Seq<char>) -> bool {
    &&& tok.len() > 0
    &&& forall|j: int| 0 <= j < tok.len() ==> !is_white(#[trigger] tok[j])
    &&& exists|i: int| token_at(text, tok, i)
}

/// An empty listing holds no word; a listing made of exactly one word holds it.
pub proof fn lemma_listing_tokens(tok: Seq<char>)
    ensures
        !has_token(Seq::<char>::empty(), tok),
        tok.len() > 0 && (forall|j: int| 0 <= j < tok.len() ==> !is_white(#[trigger] tok[j]))
            ==> has_token(tok, tok),
{
    if tok.len() > 0 {
        assert(tok.subrange(0, tok.len() as int) =~= tok);
        assert(token_at(tok, tok, 0));
    }
}

fn matches_at(text: &[char], tok: &[char], i: usize) -> (r: bool)
    requires
        i + tok@.len() <= text@.len(),
    ensures
        r == (text@.subrange(i as int, i + tok@.len()) == tok@),
{
    let n = text.len();
    let mut j: usize = 0;
    while j < tok.len()
        invariant
            n == text@.len(),
            i + tok@.len() <= text@.len(),
            0 <= j <= tok@.len(),
            forall|t: int| 0 <= t < j ==> text@[i + t] == tok@[t],
        decreases tok@.len() - j,
    {
        if text[i + j] != tok[j] {
            assert(text@.subrange(i as int, i + tok@.len())[j as int] != tok@[j as int]);
            return false;
        }
        j += 1;
    }
    assert(text@.subrange(i as int, i + tok@.len()) =~= tok@);
    true
}

fn contains_token_chars(text: &[char], tok: &[char]) -> (r: bool)
    ensures
        r == has_token(text@, tok@),
{
    if tok.len() == 0 {
        return false;
    }
    let mut j: usize = 0;
    while j < tok.len()
        invariant
            0 <= j <= tok@.len(),
            forall|t: int| 0 <= t < j ==> !is_white(#[trigger] tok@[t]),
        decreases tok@.len() - j,
    {
        if white(tok[j]) {
            return false;
        }
        j += 1;
    }
    if tok.len() > text.len() {
        return false;
    }
    let last = text.len() - tok.len();
    let mut i: usize = 0;
    while i <= last
        invariant
            last == text@.len() - tok@.len(),
            text@.len() <= usize::MAX,
            tok@.len() > 0,
            forall|t: int| 0 <= t < tok@.len() ==> !is_white(#[trigger] tok@[t]),
            0 <= i <= last + 1,
            forall|t: int| 0 <= t < i ==> !token_at(text@, tok@, t),
        decreases last + 1 - i,
    {
        let before_ok = i == 0 || white(text[i - 1]);
        let end = i + tok.len();
        let after_ok = end == text.len() || white(text[end]);
        if before_ok && after_ok && matches_at(text, tok, i) {
            assert(token_at(text@, tok@, i as int));
            return true;
        }
        i += 1;
    }
    false
}

/// Whether `text` holds `tok` as a whole word: a plain substring inside a longer
/// word does not count.
pub fn contains_token(text: &str, tok: &str) -> (r: bool)
    ensures
        r == has_token(text@, tok@),
{
    let t = chars_of(text);
    let k = chars_of(tok);
    contains_token_chars(t.as_slice(), k.as_slice())
}

/// The first position in `lo .. hi` where `s` holds `c`, or `hi`.
pub open spec fn index_in(s: Seq<char>, c: char, lo: int, hi: int) -> int
    decreases hi - lo,
{
    if lo >= hi {
        hi
    } else if s[lo] == c {
        lo
    } else {
        index_in(s, c, lo + 1, hi)
    }
}

/// `s` without its leading whitespace.
pub open spec fn trim_start(s: Seq<char>) -> Seq<char>
    decreases s.len(),
{
    if s.len() > 0 && is_white(s[0]) {
        trim_start(s.drop_first())
    } else {
        s
    }
}

/// `s` without its trailing whitespace.
pub open spec fn trim_end(s: Seq<char>) -> Seq<char>
    decreases s.len(),
{
    if s.len() > 0 && is_white(s.last()) {
        trim_end(s.drop_last())
    } else {
        s
    }
}

/// `s` without leading and trailing whitespace, as `str::trim` gives it.
pub open spec fn trim(s: Seq<char>) -> Seq<char> {
    trim_end(trim_start(s))
}

/// The `key=value` field on the first line of `text`: what follows the first `=`,
/// up to the next `=` or the end of the line, trimmed. None when `text` is empty or
/// its first line holds no `=`.
pub open spec fn version_field(text: Seq<char>) -> Option<Seq<char>> {
    let line_end = index_in(text, '\n', 0, text.len() as int);
    let eq = index_in(text, '=', 0, line_end);
    if text.len() == 0 || eq == line_end {
        None
    } else {
        Some(trim(text.subrange(eq + 1, index_in(text, '=', eq + 1, line_end))))
    }
}

fn find_char(s: &[char], c: char, lo: usize, hi: usize) -> (r: usize)
    requires
        lo <= hi <= s@.len(),
    ensures
        r == index_in(s@, c, lo as int, hi as int),
        lo <= r <= hi,
{
    let mut i: usize = lo;
    while i < hi
        invariant
            lo <= i <= hi <= s@.len(),
            index_in(s@, c, lo as int, hi as int) == index_in(s@, c, i as int, hi as int),
        decreases hi - i,
    {
        if s[i] == c {
            return i;
        }
        i += 1;
    }
    i
}

/// The bounds, within `lo .. hi`, of that stretch of `s` without its surrounding
/// whitespace.
fn trim_range(s: &[char], lo: usize, hi: usize) -> (r: (usize, usize))
    requires
        lo <= hi <= s@.len(),
    ensures
        lo <= r.0 <= r.1 <= hi,
        s@.subrange(r.0 as int, r.1 as int) == trim(s@.subrange(lo as int, hi as int)),
{
    let mut start: usize = lo;
    while start < hi && white(s[start])
        invariant
            lo <= start <= hi <= s@.len(),
            trim_start(s@.subrange(lo as int, hi as int)) == trim_start(
                s@.subrange(start as int, hi as int),
            ),
        decreases hi - start,
    {
        assert(s@.subrange(start as int, hi as int).drop_first() =~= s@.subrange(
            start + 1,
            hi as int,
        ));
        start += 1;
    }
    let ghost front = s@.subrange(start as int, hi as int);
    assert(trim_start(s@.subrange(lo as int, hi as int)) == front);
    let mut end: usize = hi;
    while end > start && white(s[end - 1])
        invariant
            lo <= start <= end <= hi <= s@.len(),
            front == s@.subrange(start as int, hi as int),
            trim_end(front) == trim_end(s@.subrange(start as int, end as int)),
        decreases end - start,
    {
        assert(s@.subrange(start as int, end as int).drop_last() =~= s@.subrange(
            start as int,
            end - 1,
        ));
        end -= 1;
    }
    (start, end)
}

/// Extracts the field that `version_field` describes.
pub fn parse_version_field(text: &str) -> (r: Option<String>)
    ensures
        match r {
            Some(v) => version_field(text@) == Some(v@),
            None => version_field(text@) is None,
        },
{
    let cs = chars_of(text);
    let n = cs.len();
    if n == 0 {
        return None;
    }
    let line_end = find_char(cs.as_slice(), '\n', 0, n);
    let eq = find_char(cs.as_slice(), '=', 0, line_end);
    if eq == line_end {
        return None;
    }
    let field_end = find_char(cs.as_slice(), '=', eq + 1, line_end);
    let (a, b) = trim_range(cs.as_slice(), eq + 1, field_end);
    Some(text.substring_char(a, b).to_owned())
}

} // verus!
