//! Small verified text utilities over `Seq<char>` views.
use vstd::prelude::*;

verus! {

/// Character-wise equality of two string slices.
pub fn str_equal(a: &str, b: &str) -> (res: bool)
    ensures
        res == (a@ == b@),
{
    let n = a.unicode_len();
    let m = b.unicode_len();
    if n != m {
        return false;
    }
    let mut i: usize = 0;
    while i < n
        invariant
            n == a@.len(),
            m == b@.len(),
            n == m,
            i <= n,
            forall|j: int| 0 <= j < i ==> a@[j] == b@[j],
        decreases n - i,
    {
        if a.get_char(i) != b.get_char(i) {
            return false;
        }
        i = i + 1;
    }
    assert(a@ =~= b@);
    true
}


/// `p` occurs in `s` starting at index `at`.
pub open spec fn spec_occurs_at(s: Seq<char>, p: Seq<char>, at: int) -> bool {
    0 <= at && at + p.len() <= s.len() && s.subrange(at, at + p.len()) == p
}

/// `p` occurs somewhere in `s` (the behaviour of `str::contains` with a string pattern).
pub open spec fn spec_contains(s: Seq<char>, p: Seq<char>) -> bool {
    exists|at: int| spec_occurs_at(s, p, at)
}

/// `s` ends with `p` (the behaviour of `str::ends_with` with a string pattern).
pub open spec fn spec_ends_with(s: Seq<char>, p: Seq<char>) -> bool {
    p.len() <= s.len() && s.subrange(s.len() - p.len(), s.len() as int) == p
}

/// Number of occurrences of the character `c` in `s`.
pub open spec fn spec_count_char(s: Seq<char>, c: char) -> nat
    decreases s.len(),
{
    if s.len() == 0 {
        0
    } else {
        spec_count_char(s.drop_last(), c) + if s.last() == c { 1nat } else { 0nat }
    }
}

/// Whether `p` occurs in `s` at index `at`.
pub fn occurs_at(s: &str, p: &str, at: usize) -> (res: bool)
    ensures
        res == spec_occurs_at(s@, p@, at as int),
{
    let n = s.unicode_len();
    let m = p.unicode_len();
    if at > n || m > n - at {
        return false;
    }
    let mut j: usize = 0;
    while j < m
        invariant
            n == s@.len(),
            m == p@.len(),
            at + m <= n,
            j <= m,
            forall|k: int| 0 <= k < j ==> s@[at + k] == p@[k],
        decreases m - j,
    {
        if s.get_char(at + j) != p.get_char(j) {
            assert(s@.subrange(at as int, at + m)[j as int] != p@[j as int]);
            return false;
        }
        j = j + 1;
    }
    assert(s@.subrange(at as int, at + m) =~= p@);
    true
}

/// Whether `s` contains `p` as a contiguous piece.
pub fn contains(s: &str, p: &str) -> (res: bool)
    ensures
        res == spec_contains(s@, p@),
{
    let n = s.unicode_len();
    let m = p.unicode_len();
    if m > n {
        assert forall|at: int| !spec_occurs_at(s@, p@, at) by {}
        return false;
    }
    let mut i: usize = 0;
    loop
        invariant
            n == s@.len(),
            m == p@.len(),
            m <= n,
            i <= n - m,
            forall|at: int| 0 <= at < i ==> !spec_occurs_at(s@, p@, at),
        ensures
            forall|at: int| 0 <= at <= n - m ==> !spec_occurs_at(s@, p@, at),
        decreases n - m - i,
    {
        if occurs_at(s, p, i) {
            return true;
        }
        if i == n - m {
            break;
        }
        i = i + 1;
    }
    assert forall|at: int| !spec_occurs_at(s@, p@, at) by {
        if 0 <= at <= n - m {
        }
    }
    false
}

/// Whether `s` ends with `p`.
pub fn ends_with(s: &str, p: &str) -> (res: bool)
    ensures
        res == spec_ends_with(s@, p@),
{
    let n = s.unicode_len();
    let m = p.unicode_len();
    if m > n {
        return false;
    }
    occurs_at(s, p, n - m)
}

/// Number of occurrences of `c` in `s`.
pub fn count_char(s: &str, c: char) -> (res: usize)
    ensures
        res == spec_count_char(s@, c),
{
    let n = s.unicode_len();
    let mut count: usize = 0;
    let mut i: usize = 0;
    while i < n
        invariant
            n == s@.len(),
            i <= n,
            count <= i,
            count == spec_count_char(s@.take(i as int), c),
        decreases n - i,
    {
        assert(s@.take(i + 1).drop_last() =~= s@.take(i as int));
        if s.get_char(i) == c {
            count = count + 1;
        }
        i = i + 1;
    }
    assert(s@.take(n as int) =~= s@);
    count
}


/// The decimal digit for `d < 10`.
pub open spec fn spec_digit(d: nat) -> char {
    seq!['0', '1', '2', '3', '4', '5', '6', '7', '8', '9'][d as int]
}

/// Decimal rendering of a natural number, without sign or leading zeros.
pub open spec fn spec_decimal(n: nat) -> Seq<char>
    decreases n,
{
    if n < 10 {
        seq![spec_digit(n)]
    } else {
        spec_decimal(n / 10) + seq![spec_digit(n % 10)]
    }
}

/// What `str::to_lowercase` returns for a string (Unicode lowercase mapping).
pub uninterp spec fn spec_lowercase(s: Seq<char>) -> Seq<char>;

/// The characters with the Unicode property White_Space, which is what
/// `char::is_whitespace` and `str::split_whitespace` count as whitespace.
pub open spec fn spec_is_white_space(c: char) -> bool {
    ||| ('\u{9}' <= c && c <= '\u{d}')
    ||| c == ' '
    ||| c == '\u{85}'
    ||| c == '\u{a0}'
    ||| c == '\u{1680}'
    ||| ('\u{2000}' <= c && c <= '\u{200a}')
    ||| c == '\u{2028}'
    ||| c == '\u{2029}'
    ||| c == '\u{202f}'
    ||| c == '\u{205f}'
    ||| c == '\u{3000}'
}

/// Length of the run of non-whitespace characters that `s` starts with.
pub open spec fn spec_word_len(s: Seq<char>) -> nat
    decreases s.len(),
{
    if s.len() == 0 || spec_is_white_space(s[0]) {
        0
    } else {
        1 + spec_word_len(s.drop_first())
    }
}

/// The leading word is no longer than the text, non-empty when the text
/// starts with a non-whitespace character, and holds no whitespace.
pub proof fn lemma_word_len_bounds(s: Seq<char>)
    ensures
        spec_word_len(s) <= s.len(),
        s.len() > 0 && !spec_is_white_space(s[0]) ==> spec_word_len(s) >= 1,
        forall|j: int| 0 <= j < spec_word_len(s) ==> !spec_is_white_space(#[trigger] s[j]),
    decreases s.len(),
{
    if s.len() > 0 && !spec_is_white_space(s[0]) {
        lemma_word_len_bounds(s.drop_first());
        assert forall|j: int| 0 <= j < spec_word_len(s) implies !spec_is_white_space(
            #[trigger] s[j],
        ) by {
            if j > 0 {
                assert(s[j] == s.drop_first()[j - 1]);
            }
        }
    }
}

/// The pieces of `s` between runs of whitespace, in order: what
/// `str::split_whitespace` yields, as its documentation describes.
pub open spec fn spec_split_whitespace(s: Seq<char>) -> Seq<Seq<char>>
    decreases s.len(),
{
    if s.len() == 0 {
        Seq::empty()
    } else if spec_is_white_space(s[0]) {
        spec_split_whitespace(s.drop_first())
    } else {
        proof {
            lemma_word_len_bounds(s);
        }
        seq![s.take(spec_word_len(s) as int)] + spec_split_whitespace(
            s.skip(spec_word_len(s) as int),
        )
    }
}

/// A word is non-empty and holds no whitespace.
pub open spec fn spec_is_word(w: Seq<char>) -> bool {
    w.len() > 0 && forall|j: int| 0 <= j < w.len() ==> !spec_is_white_space(#[trigger] w[j])
}

/// Every piece that splitting on whitespace yields is a word.
pub proof fn lemma_split_whitespace_words(s: Seq<char>)
    ensures
        forall|i: int|
            0 <= i < spec_split_whitespace(s).len() ==> spec_is_word(
                #[trigger] spec_split_whitespace(s)[i],
            ),
    decreases s.len(),
{
    if s.len() > 0 {
        if spec_is_white_space(s[0]) {
            lemma_split_whitespace_words(s.drop_first());
            assert(spec_split_whitespace(s) == spec_split_whitespace(s.drop_first()));
        } else {
            lemma_word_len_bounds(s);
            let n = spec_word_len(s) as int;
            let first = s.take(n);
            let rest = spec_split_whitespace(s.skip(n));
            lemma_split_whitespace_words(s.skip(n));
            assert(spec_split_whitespace(s) == seq![first] + rest);
            assert(first.len() == n && n >= 1);
            assert forall|i: int| 0 <= i < spec_split_whitespace(s).len() implies spec_is_word(
                #[trigger] spec_split_whitespace(s)[i],
            ) by {
                if i == 0 {
                    assert(spec_split_whitespace(s)[0] == first);
                    assert forall|j: int| 0 <= j < first.len() implies !spec_is_white_space(
                        #[trigger] first[j],
                    ) by {
                        assert(first[j] == s[j]);
                    }
                } else {
                    assert(spec_split_whitespace(s)[i] == rest[i - 1]);
                }
            }
        }
    }
}

/// The decimal digit for `d` as a one-character string.
fn digit(d: usize) -> (r: &'static str)
    requires
        d < 10,
    ensures
        r@ == seq![spec_digit(d as nat)],
{
    let r = match d {
        0 => {
            proof {
                reveal_strlit("0");
            }
            "0"
        },
        1 => {
            proof {
                reveal_strlit("1");
            }
            "1"
        },
        2 => {
            proof {
                reveal_strlit("2");
            }
            "2"
        },
        3 => {
            proof {
                reveal_strlit("3");
            }
            "3"
        },
        4 => {
            proof {
                reveal_strlit("4");
            }
            "4"
        },
        5 => {
            proof {
                reveal_strlit("5");
            }
            "5"
        },
        6 => {
            proof {
                reveal_strlit("6");
            }
            "6"
        },
        7 => {
            proof {
                reveal_strlit("7");
            }
            "7"
        },
        8 => {
            proof {
                reveal_strlit("8");
            }
            "8"
        },
        _ => {
            proof {
                reveal_strlit("9");
            }
            "9"
        },
    };
    assert(r@ =~= seq![spec_digit(d as nat)]);
    r
}

/// `n` written in decimal, as `usize`'s `to_string` writes it.
pub fn decimal(n: usize) -> (r: String)
    ensures
        r@ == spec_decimal(n as nat),
    decreases n,
{
    if n < 10 {
        String::from_str(digit(n))
    } else {
        let r = decimal(n / 10).concat(digit(n % 10));
        assert(r@ =~= spec_decimal((n / 10) as nat) + seq![spec_digit((n % 10) as nat)]);
        r
    }
}

/// Calls `str::to_lowercase`; the contract only names its result.
#[verifier::external_body]
pub(crate) fn lowercase(s: &str) -> (r: String)
    ensures
        r@ == spec_lowercase(s@),
{
    s.to_lowercase()
}

/// Calls `str::split_whitespace` and collects the pieces as owned strings:
/// the maximal runs of non-whitespace characters, in order.
#[verifier::external_body]
pub(crate) fn split_whitespace(s: &str) -> (r: Vec<String>)
    ensures
        r.deep_view() == spec_split_whitespace(s@),
{
    s.split_whitespace().map(|w| w.to_string()).collect()
}

} // verus!
