use vstd::prelude::*;
use vstd::string::*;

use crate::error::{classify, ConfigError, IoFailure};

verus! {

/// The characters with the Unicode `White_Space` property, the ones that
/// `str::trim` strips.
pub open spec fn is_white(c: char) -> bool {
    let u = c as u32;
    (0x9 <= u && u <= 0xd) || u == 0x20 || u == 0x85 || u == 0xa0 || u == 0x1680 || (0x2000
        <= u && u <= 0x200a) || u == 0x2028 || u == 0x2029 || u == 0x202f || u == 0x205f || u
        == 0x3000
}

/// The first position at or after `i` that holds no white space.
pub open spec fn skip_front(s: Seq<char>, i: int) -> int
    decreases s.len() - i,
{
    if 0 <= i < s.len() && is_white(s[i]) {
        skip_front(s, i + 1)
    } else {
        i
    }
}

/// The end of the text in `s[lo..j]` once white space at its end is dropped.
pub open spec fn skip_back(s: Seq<char>, lo: int, j: int) -> int
    decreases j - lo,
{
    if lo < j && j <= s.len() && is_white(s[j - 1]) {
        skip_back(s, lo, j - 1)
    } else {
        j
    }
}

/// `s` without its leading and trailing white space.
pub open spec fn trimmed(s: Seq<char>) -> Seq<char> {
    let a = skip_front(s, 0);
    s.subrange(a, skip_back(s, a, s.len() as int))
}

/// Whether a character is white space.
pub fn is_white_char(c: char) -> (r: bool)
    ensures
        r == is_white(c),
{
    let u = c as u32;
    (0x9 <= u && u <= 0xd) || u == 0x20 || u == 0x85 || u == 0xa0 || u == 0x1680 || (0x2000
        <= u && u <= 0x200a) || u == 0x2028 || u == 0x2029 || u == 0x202f || u == 0x205f || u
        == 0x3000
}

/// Copies `s` without its leading and trailing white space.
pub fn trim_whitespace(s: &str) -> (r: String)
    ensures
        r@ == trimmed(s@),
{
    let n = s.unicode_len();
    let mut a: usize = 0;
    while a < n && is_white_char(s.get_char(a))
        invariant
            n == s@.len(),
            a <= n,
            skip_front(s@, a as int) == skip_front(s@, 0),
        decreases n - a,
    {
        a = a + 1;
    }
    let mut b: usize = n;
    while b > a && is_white_char(s.get_char(b - 1))
        invariant
            n == s@.len(),
            a <= b <= n,
            a as int == skip_front(s@, 0),
            skip_back(s@, a as int, b as int) == skip_back(s@, a as int, n as int),
        decreases b,
    {
        b = b - 1;
    }
    String::from_str(s.substring_char(a, b))
}

/// What the key store reads back from the content of a key file: the content
/// without surrounding white space, or `Empty` where nothing else is left.
pub fn key_from_contents(s: &str) -> (r: Result<String, ConfigError>)
    ensures
        match r {
            Ok(k) => trimmed(s@).len() > 0 && k@ == trimmed(s@),
            Err(e) => trimmed(s@).len() == 0 && e == ConfigError::Empty,
        },
{
    let k = trim_whitespace(s);
    if k.unicode_len() == 0 {
        Err(ConfigError::Empty)
    } else {
        Ok(k)
    }
}

/// The key that reading the key file gives, from the outcome of the read: a
/// failed read is classified, a successful one goes through `key_from_contents`.
pub fn key_from_read(read: Result<String, IoFailure>) -> (r: Result<String, ConfigError>)
    ensures
        match read {
            Err(f) => r == Err::<String, ConfigError>(classify(f)),
            Ok(s) => match r {
                Ok(k) => trimmed(s@).len() > 0 && k@ == trimmed(s@),
                Err(e) => trimmed(s@).len() == 0 && e == ConfigError::Empty,
            },
        },
{
    match read {
        Err(f) => Err(ConfigError::from_io(f)),
        Ok(s) => key_from_contents(s.as_str()),
    }
}

/// The exact text that the key store writes for a key: the key without
/// surrounding white space, and no line break added.
pub fn key_file_contents(k: &str) -> (r: String)
    ensures
        r@ == trimmed(k@),
{
    trim_whitespace(k)
}

proof fn lemma_skip_front(s: Seq<char>, i: int)
    requires
        0 <= i <= s.len(),
    ensures
        i <= skip_front(s, i) <= s.len(),
        skip_front(s, i) < s.len() ==> !is_white(s[skip_front(s, i)]),
        forall|k: int| i <= k < skip_front(s, i) ==> is_white(#[trigger] s[k]),
    decreases s.len() - i,
{
    if i < s.len() && is_white(s[i]) {
        lemma_skip_front(s, i + 1);
    }
}

proof fn lemma_skip_back(s: Seq<char>, lo: int, j: int)
    requires
        0 <= lo <= j <= s.len(),
    ensures
        lo <= skip_back(s, lo, j) <= j,
        skip_back(s, lo, j) > lo ==> !is_white(s[skip_back(s, lo, j) - 1]),
        forall|k: int| skip_back(s, lo, j) <= k < j ==> is_white(#[trigger] s[k]),
    decreases j - lo,
{
    if lo < j && is_white(s[j - 1]) {
        lemma_skip_back(s, lo, j - 1);
    }
}

/// Trimming twice is trimming once: the key that `key_file_contents` writes
/// is the key that `key_from_contents` reads back from it.
pub proof fn lemma_key_round_trip(k: Seq<char>)
    ensures
        trimmed(trimmed(k)) == trimmed(k),
{
    let a = skip_front(k, 0);
    lemma_skip_front(k, 0);
    let b = skip_back(k, a, k.len() as int);
    lemma_skip_back(k, a, k.len() as int);
    let t = trimmed(k);
    assert(t == k.subrange(a, b));
    if t.len() > 0 {
        assert(t[0] == k[a]);
        assert(!is_white(t[0]));
        assert(skip_front(t, 0) == 0);
        assert(t[t.len() - 1] == k[b - 1]);
        assert(skip_back(t, 0, t.len() as int) == t.len());
    }
    assert(t.subrange(0, t.len() as int) =~= t);
}

/// A key file that holds only white space reads as `Empty`.
pub proof fn lemma_blank_key_is_empty(s: Seq<char>)
    requires
        forall|i: int| 0 <= i < s.len() ==> is_white(#[trigger] s[i]),
    ensures
        trimmed(s).len() == 0,
{
    lemma_skip_front(s, 0);
    let a = skip_front(s, 0);
    lemma_skip_back(s, a, s.len() as int);
}

} // verus!
