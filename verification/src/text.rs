use vstd::prelude::*;
use vstd::utf8::{decode_utf8, valid_utf8};

verus! {

/// The ASCII letters and digits.
pub open spec fn is_ascii_alnum(c: char) -> bool {
    ('0' <= c && c <= '9') || ('a' <= c && c <= 'z') || ('A' <= c && c <= 'Z')
}

/// ASCII upper-case letters map to lower case; every other character is kept.
pub open spec fn ascii_lower(c: char) -> char {
    if 'A' <= c && c <= 'Z' {
        ((c as u32) + 32) as char
    } else {
        c
    }
}

pub open spec fn ascii_lower_seq(s: Seq<char>) -> Seq<char> {
    s.map_values(|c: char| ascii_lower(c))
}

/// The characters with the Unicode `White_Space` property.
pub open spec fn is_unicode_whitespace(c: char) -> bool {
    let u = c as u32;
    ||| 0x09 <= u <= 0x0d
    ||| u == 0x20
    ||| u == 0x85
    ||| u == 0xa0
    ||| u == 0x1680
    ||| 0x2000 <= u <= 0x200a
    ||| u == 0x2028
    ||| u == 0x2029
    ||| u == 0x202f
    ||| u == 0x205f
    ||| u == 0x3000
}

/// `s` with leading characters satisfying `p` removed.
pub open spec fn strip_start(s: Seq<char>, p: spec_fn(char) -> bool) -> Seq<char>
    decreases s.len(),
{
    if s.len() > 0 && p(s[0]) {
        strip_start(s.drop_first(), p)
    } else {
        s
    }
}

/// `s` with trailing characters satisfying `p` removed.
pub open spec fn strip_end(s: Seq<char>, p: spec_fn(char) -> bool) -> Seq<char>
    decreases s.len(),
{
    if s.len() > 0 && p(s.last()) {
        strip_end(s.drop_last(), p)
    } else {
        s
    }
}

/// `s` with matching characters removed from both ends.
pub open spec fn strip_both(s: Seq<char>, p: spec_fn(char) -> bool) -> Seq<char> {
    strip_end(strip_start(s, p), p)
}

/// What `str::trim` leaves of `s`.
pub open spec fn trim_ws(s: Seq<char>) -> Seq<char> {
    strip_both(s, |c: char| is_unicode_whitespace(c))
}

pub fn ascii_alphanumeric(c: char) -> (r: bool)
    ensures
        r == is_ascii_alnum(c),
{
    ('0' <= c && c <= '9') || ('a' <= c && c <= 'z') || ('A' <= c && c <= 'Z')
}

pub fn to_ascii_lowercase(c: char) -> (r: char)
    ensures
        r == ascii_lower(c),
{
    if 'A' <= c && c <= 'Z' {
        let b: u8 = c as u8;
        assert(b as u32 == c as u32);
        let r = (b + 32) as char;
        r
    } else {
        c
    }
}


/// What a strip removes: Unicode whitespace, or one given character.
pub open spec fn strip_pred(target: Option<char>) -> spec_fn(char) -> bool {
    match target {
        Some(t) => |c: char| c == t,
        None => |c: char| is_unicode_whitespace(c),
    }
}

pub fn is_whitespace(c: char) -> (r: bool)
    ensures
        r == is_unicode_whitespace(c),
{
    let u = c as u32;
    (0x09 <= u && u <= 0x0d) || u == 0x20 || u == 0x85 || u == 0xa0 || u == 0x1680 || (0x2000
        <= u && u <= 0x200a) || u == 0x2028 || u == 0x2029 || u == 0x202f || u == 0x205f || u
        == 0x3000
}

fn strip_matches(c: char, target: Option<char>) -> (r: bool)
    ensures
        r == (strip_pred(target))(c),
{
    match target {
        Some(t) => c == t,
        None => is_whitespace(c),
    }
}

proof fn lemma_strip_start_skip(s: Seq<char>, p: spec_fn(char) -> bool, i: int)
    requires
        0 <= i < s.len(),
        p(s[i]),
    ensures
        strip_start(s.skip(i), p) == strip_start(s.skip(i + 1), p),
{
    assert(s.skip(i).drop_first() =~= s.skip(i + 1));
}

proof fn lemma_strip_end_take(s: Seq<char>, p: spec_fn(char) -> bool, j: int)
    requires
        0 < j <= s.len(),
        p(s[j - 1]),
    ensures
        strip_end(s.take(j), p) == strip_end(s.take(j - 1), p),
{
    assert(s.take(j).drop_last() =~= s.take(j - 1));
}

/// `s` with the characters that `target` selects removed from both ends
/// (whitespace for `None`).
pub fn strip_str(s: &str, target: Option<char>) -> (r: String)
    ensures
        r@ == strip_both(s@, strip_pred(target)),
{
    let ghost p = strip_pred(target);
    let n = s.unicode_len();
    let mut i: usize = 0;
    assert(s@.skip(0) =~= s@);
    while i < n && strip_matches(s.get_char(i), target)
        invariant
            n == s@.len(),
            p == strip_pred(target),
            0 <= i <= n,
            strip_start(s@, p) == strip_start(s@.skip(i as int), p),
        decreases n - i,
    {
        proof {
            lemma_strip_start_skip(s@, p, i as int);
        }
        i = i + 1;
    }
    proof {
        if i < n {
            assert(s@.skip(i as int)[0] == s@[i as int]);
        }
        assert(strip_start(s@.skip(i as int), p) == s@.skip(i as int));
    }
    let ghost rest = s@.skip(i as int);
    let mut j: usize = n;
    assert(rest.take((n - i) as int) =~= rest);
    while j > i && strip_matches(s.get_char(j - 1), target)
        invariant
            n == s@.len(),
            p == strip_pred(target),
            0 <= i <= j <= n,
            rest == s@.skip(i as int),
            strip_end(rest, p) == strip_end(rest.take(j - i), p),
        decreases j,
    {
        proof {
            assert(rest[j - i - 1] == s@[j - 1]);
            lemma_strip_end_take(rest, p, j - i);
        }
        j = j - 1;
    }
    proof {
        let t = rest.take(j - i);
        if j > i {
            assert(t.last() == s@[j - 1]);
        }
        assert(strip_end(t, p) == t);
        assert(t =~= s@.subrange(i as int, j as int));
    }
    let piece = s.substring_char(i, j);
    String::from_str(piece)
}

/// What `str::trim` returns, as an owned string.
pub fn trim(s: &str) -> (r: String)
    ensures
        r@ == trim_ws(s@),
{
    strip_str(s, None)
}


/// Appends one character (`String::push`).
#[verifier::external_body]
pub fn push_char(s: &mut String, c: char)
    ensures
        final(s)@ == old(s)@.push(c),
{
    s.push(c);
}

/// Whether the two strings hold the same characters.
pub fn same_text(a: &str, b: &str) -> (r: bool)
    ensures
        r == (a@ == b@),
{
    let x = String::from_str(a);
    let y = String::from_str(b);
    x == y
}

/// Whether `s` starts with `prefix`.
pub fn has_prefix(s: &str, prefix: &str) -> (r: bool)
    ensures
        r == prefix@.is_prefix_of(s@),
{
    let n = s.unicode_len();
    let m = prefix.unicode_len();
    if m > n {
        return false;
    }
    let mut i: usize = 0;
    while i < m
        invariant
            n == s@.len(),
            m == prefix@.len(),
            m <= n,
            0 <= i <= m,
            forall|k: int| 0 <= k < i ==> prefix@[k] == s@[k],
        decreases m - i,
    {
        if s.get_char(i) != prefix.get_char(i) {
            return false;
        }
        i = i + 1;
    }
    true
}

/// `s` with ASCII letters lowered (`str::to_ascii_lowercase`).
pub fn lowercase_ascii(s: &str) -> (r: String)
    ensures
        r@ == ascii_lower_seq(s@),
{
    let n = s.unicode_len();
    let mut out = String::new();
    let mut i: usize = 0;
    while i < n
        invariant
            n == s@.len(),
            0 <= i <= n,
            out@ =~= ascii_lower_seq(s@.take(i as int)),
        decreases n - i,
    {
        let c = s.get_char(i);
        push_char(&mut out, to_ascii_lowercase(c));
        assert(s@.take(i + 1) =~= s@.take(i as int).push(c));
        i = i + 1;
    }
    assert(s@.take(n as int) =~= s@);
    out
}

/// `str::eq_ignore_ascii_case`.
pub fn eq_ignore_ascii_case(a: &str, b: &str) -> (r: bool)
    ensures
        r == (ascii_lower_seq(a@) == ascii_lower_seq(b@)),
{
    let la = lowercase_ascii(a);
    let lb = lowercase_ascii(b);
    la == lb
}

/// Index just past the last `/` of `p`, or 0 when there is none.
pub open spec fn last_segment_start(p: Seq<char>) -> int
    decreases p.len(),
{
    if p.len() == 0 {
        0
    } else if p.last() == '/' {
        p.len() as int
    } else {
        last_segment_start(p.drop_last())
    }
}

/// The final component of a `/`-separated path, as `Path::file_name` gives it
/// on Unix: trailing separators and `.` components are passed over, and a path
/// that ends in `..` (or has no normal component) has none.
pub open spec fn path_file_name(p: Seq<char>) -> Option<Seq<char>>
    decreases p.len(),
{
    if p.len() == 0 {
        None
    } else if p.last() == '/' {
        path_file_name(p.drop_last())
    } else {
        let k = last_segment_start(p);
        let seg = p.skip(k);
        proof {
            lemma_last_segment_start_bounds(p.drop_last());
        }
        if seg == seq!['.'] {
            if k == 0 {
                None
            } else {
                path_file_name(p.take(k))
            }
        } else if seg == seq!['.', '.'] {
            None
        } else {
            Some(seg)
        }
    }
}

pub proof fn lemma_last_segment_start_bounds(p: Seq<char>)
    ensures
        0 <= last_segment_start(p) <= p.len(),
        forall|i: int| last_segment_start(p) <= i < p.len() ==> p[i] != '/',
        last_segment_start(p) > 0 ==> p[last_segment_start(p) - 1] == '/',
    decreases p.len(),
{
    if p.len() > 0 && p.last() != '/' {
        let d = p.drop_last();
        lemma_last_segment_start_bounds(d);
        assert forall|i: int| last_segment_start(p) <= i < p.len() implies p[i] != '/' by {
            if i < d.len() {
                assert(p[i] == d[i]);
            }
        }
    }
}

/// `Path::new(path).file_name()` on Unix, as an owned string.
pub fn file_name(path: &str) -> (r: Option<String>)
    ensures
        r matches Some(name) ==> path_file_name(path@) == Some(name@),
        r is None ==> path_file_name(path@) is None,
{
    let n = path.unicode_len();
    let mut e: usize = n;
    assert(path@.take(n as int) =~= path@);
    loop
        invariant
            n == path@.len(),
            0 <= e <= n,
            path_file_name(path@) == path_file_name(path@.take(e as int)),
        decreases e,
    {
        let ghost t = path@.take(e as int);
        if e == 0 {
            return None;
        }
        if path.get_char(e - 1) == '/' {
            assert(t.last() == '/');
            assert(t.drop_last() =~= path@.take(e - 1));
            e = e - 1;
            continue;
        }
        assert(t.last() != '/');
        let mut k: usize = e;
        while k > 0 && path.get_char(k - 1) != '/'
            invariant
                n == path@.len(),
                0 <= k <= e <= n,
                t == path@.take(e as int),
                last_segment_start(t) == last_segment_start(path@.take(k as int)),
            decreases k,
        {
            assert(path@.take(k as int).drop_last() =~= path@.take(k - 1));
            k = k - 1;
        }
        assert(last_segment_start(path@.take(k as int)) == k);
        let ghost seg = t.skip(k as int);
        assert(seg =~= path@.subrange(k as int, e as int));
        let len = e - k;
        if len == 1 && path.get_char(k) == '.' {
            assert(seg =~= seq!['.']);
            if k == 0 {
                return None;
            }
            assert(t.take(k as int) =~= path@.take(k as int));
            e = k;
            continue;
        }
        if len == 2 && path.get_char(k) == '.' && path.get_char(k + 1) == '.' {
            assert(seg =~= seq!['.', '.']);
            return None;
        }
        assert(seg != seq!['.']) by {
            if len == 1 {
                assert(seg[0] == path@[k as int]);
            }
        }
        assert(seg != seq!['.', '.']) by {
            if len == 2 {
                assert(seg[0] == path@[k as int]);
                assert(seg[1] == path@[k + 1]);
            }
        }
        let piece = path.substring_char(k, e);
        return Some(String::from_str(piece));
    }
}

/// `base` with the relative component `name` appended, as `PathBuf::push`
/// does on Unix: a separator goes between them unless `base` is empty or
/// already ends in one.
pub open spec fn join_relative(base: Seq<char>, name: Seq<char>) -> Seq<char> {
    if base.len() > 0 && base.last() != '/' {
        base + seq!['/'] + name
    } else {
        base + name
    }
}

pub fn join_path(base: &str, name: &str) -> (r: String)
    ensures
        r@ == join_relative(base@, name@),
{
    let n = base.unicode_len();
    let mut out = String::from_str(base);
    if n > 0 && base.get_char(n - 1) != '/' {
        push_char(&mut out, '/');
    }
    out.append(name);
    out
}


/// What `format!("{:?}", s)` prints for a string: the text in double quotes
/// with std's escapes.
pub uninterp spec fn debug_repr(s: Seq<char>) -> Seq<char>;

/// The `Debug` rendering of `s`.
#[verifier::external_body]
pub fn debug_quoted(s: &str) -> (r: String)
    ensures
        r@ == debug_repr(s@),
{
    format!("{:?}", s)
}


/// What `String::from_utf8_lossy` makes of `bytes`.
pub uninterp spec fn lossy_utf8(bytes: Seq<u8>) -> Seq<char>;

/// `String::from_utf8_lossy`: the text of `bytes`, with invalid sequences
/// replaced; valid UTF-8 comes back unchanged.
#[verifier::external_body]
pub fn from_utf8_lossy(bytes: &[u8]) -> (r: String)
    ensures
        r@ == lossy_utf8(bytes@),
        valid_utf8(bytes@) ==> r@ == decode_utf8(bytes@),
{
    String::from_utf8_lossy(bytes).into_owned()
}


/// The decimal digit for a value below ten.
pub open spec fn digit_char(d: nat) -> char {
    ((d + 48) as u8) as char
}

/// The decimal text of `n`, as `{}` prints an unsigned integer.
pub open spec fn decimal(n: nat) -> Seq<char>
    decreases n,
{
    if n < 10 {
        seq![digit_char(n)]
    } else {
        decimal(n / 10) + seq![digit_char(n % 10)]
    }
}

/// Appends the decimal text of `n`.
pub fn push_decimal(out: &mut String, n: u64)
    ensures
        final(out)@ == old(out)@ + decimal(n as nat),
    decreases n,
{
    if n >= 10 {
        push_decimal(out, n / 10);
    }
    let d: u8 = (n % 10) as u8;
    let c = (48u8 + d) as char;
    push_char(out, c);
    assert(final(out)@ =~= old(out)@ + decimal(n as nat));
}

/// Words joined with a separator, as `[String]::join` does.
pub open spec fn join_with(words: Seq<Seq<char>>, sep: Seq<char>) -> Seq<char>
    decreases words.len(),
{
    if words.len() == 0 {
        Seq::empty()
    } else if words.len() == 1 {
        words[0]
    } else {
        join_with(words.drop_last(), sep) + sep + words.last()
    }
}

pub open spec fn string_views(v: Seq<String>) -> Seq<Seq<char>> {
    v.map_values(|s: String| s@)
}

/// The strings joined with `sep` between them.
pub fn join_strings(words: &Vec<String>, sep: &str) -> (r: String)
    ensures
        r@ == join_with(string_views(words@), sep@),
{
    let mut out = String::new();
    let mut i: usize = 0;
    while i < words.len()
        invariant
            0 <= i <= words@.len(),
            out@ == join_with(string_views(words@.take(i as int)), sep@),
        decreases words@.len() - i,
    {
        let ghost before = string_views(words@.take(i as int));
        let ghost after = string_views(words@.take(i + 1));
        assert(after.drop_last() =~= before);
        if i > 0 {
            out.append(sep);
        }
        out.append(words[i].as_str());
        proof {
            if i == 0 {
                assert(out@ =~= after[0]);
            } else {
                assert(out@ =~= join_with(before, sep@) + sep@ + after.last());
            }
        }
        i = i + 1;
    }
    assert(words@.take(words@.len() as int) =~= words@);
    out
}

/// The first run of non-whitespace characters, as `split_whitespace().next()`.
pub open spec fn first_word(s: Seq<char>) -> Option<Seq<char>> {
    let t = strip_start(s, |c: char| is_unicode_whitespace(c));
    if t.len() == 0 {
        None
    } else {
        Some(t.take(word_end(t)))
    }
}

/// The index of the first whitespace character, or the length.
pub open spec fn word_end(t: Seq<char>) -> int
    decreases t.len(),
{
    if t.len() == 0 {
        0
    } else if is_unicode_whitespace(t[0]) {
        0
    } else {
        1 + word_end(t.drop_first())
    }
}

pub proof fn lemma_word_end_bounds(t: Seq<char>)
    ensures
        0 <= word_end(t) <= t.len(),
        forall|i: int| 0 <= i < word_end(t) ==> !is_unicode_whitespace(#[trigger] t[i]),
        word_end(t) < t.len() ==> is_unicode_whitespace(t[word_end(t)]),
    decreases t.len(),
{
    if t.len() > 0 && !is_unicode_whitespace(t[0]) {
        let d = t.drop_first();
        lemma_word_end_bounds(d);
        assert forall|i: int| 0 <= i < word_end(t) implies !is_unicode_whitespace(#[trigger] t[i]) by {
            if i > 0 {
                assert(t[i] == d[i - 1]);
            }
        }
    }
}

proof fn lemma_word_end_skip(s: Seq<char>, a: int, e: int)
    requires
        0 <= a <= e <= s.len(),
        forall|i: int| a <= i < e ==> !is_unicode_whitespace(#[trigger] s[i]),
        e == s.len() || is_unicode_whitespace(s[e]),
    ensures
        word_end(s.skip(a)) == e - a,
    decreases e - a,
{
    let t = s.skip(a);
    if a < e {
        assert(t.drop_first() =~= s.skip(a + 1));
        lemma_word_end_skip(s, a + 1, e);
    } else if e < s.len() {
        assert(t[0] == s[e]);
    }
}

/// The first whitespace-separated word of `s`.
pub fn first_word_of(s: &str) -> (r: Option<String>)
    ensures
        r matches Some(w) ==> first_word(s@) == Some(w@),
        r is None ==> first_word(s@) is None,
{
    let ghost p = |c: char| is_unicode_whitespace(c);
    let n = s.unicode_len();
    let mut a: usize = 0;
    assert(s@.skip(0) =~= s@);
    while a < n && is_whitespace(s.get_char(a))
        invariant
            n == s@.len(),
            0 <= a <= n,
            p == (|c: char| is_unicode_whitespace(c)),
            strip_start(s@, p) == strip_start(s@.skip(a as int), p),
        decreases n - a,
    {
        proof {
            lemma_strip_start_skip(s@, p, a as int);
        }
        a = a + 1;
    }
    proof {
        if a < n {
            assert(s@.skip(a as int)[0] == s@[a as int]);
        }
        assert(strip_start(s@.skip(a as int), p) == s@.skip(a as int));
    }
    if a == n {
        return None;
    }
    let mut e: usize = a;
    while e < n && !is_whitespace(s.get_char(e))
        invariant
            n == s@.len(),
            0 <= a <= e <= n,
            forall|i: int| a <= i < e ==> !is_unicode_whitespace(#[trigger] s@[i]),
        decreases n - e,
    {
        e = e + 1;
    }
    proof {
        lemma_word_end_skip(s@, a as int, e as int);
        assert(s@.skip(a as int).take(e - a) =~= s@.subrange(a as int, e as int));
    }
    let piece = s.substring_char(a, e);
    Some(String::from_str(piece))
}


/// `strip_start` removes a prefix of matching characters and stops at one
/// that does not match.
pub proof fn lemma_strip_start_shape(s: Seq<char>, p: spec_fn(char) -> bool)
    ensures
        exists|k: int|
            0 <= k <= s.len() && #[trigger] strip_start(s, p) == s.skip(k) && (k == s.len() || !p(
                s[k],
            )),
    decreases s.len(),
{
    if s.len() > 0 && p(s[0]) {
        lemma_strip_start_shape(s.drop_first(), p);
        let k = choose|k: int|
            0 <= k <= s.drop_first().len() && #[trigger] strip_start(s.drop_first(), p)
                == s.drop_first().skip(k) && (k == s.drop_first().len() || !p(s.drop_first()[k]));
        assert(s.drop_first().skip(k) =~= s.skip(k + 1));
        if k < s.drop_first().len() {
            assert(s.drop_first()[k] == s[k + 1]);
        }
        assert(strip_start(s, p) == s.skip(k + 1));
    } else {
        assert(s.skip(0) =~= s);
        assert(strip_start(s, p) == s.skip(0));
    }
}

/// `strip_end` removes a suffix of matching characters and stops at one
/// that does not match.
pub proof fn lemma_strip_end_shape(s: Seq<char>, p: spec_fn(char) -> bool)
    ensures
        exists|k: int|
            0 <= k <= s.len() && #[trigger] strip_end(s, p) == s.take(k) && (k == 0 || !p(
                s[k - 1],
            )),
    decreases s.len(),
{
    if s.len() > 0 && p(s.last()) {
        lemma_strip_end_shape(s.drop_last(), p);
        let k = choose|k: int|
            0 <= k <= s.drop_last().len() && #[trigger] strip_end(s.drop_last(), p)
                == s.drop_last().take(k) && (k == 0 || !p(s.drop_last()[k - 1]));
        assert(s.drop_last().take(k) =~= s.take(k));
        if k > 0 {
            assert(s.drop_last()[k - 1] == s[k - 1]);
        }
        assert(strip_end(s, p) == s.take(k));
    } else {
        assert(s.take(s.len() as int) =~= s);
        assert(strip_end(s, p) == s.take(s.len() as int));
    }
}

} // verus!
