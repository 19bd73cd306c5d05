//! Small text utilities shared by the engine adapters: whitespace trimming
//! of scraped fragments and decimal rendering of offset parameters.

use vstd::prelude::*;
use vstd::string::*;

verus! {

/// The characters that count as whitespace when scraped text is trimmed:
/// the Unicode `White_Space` set.
pub open spec fn is_space_char(c: char) -> bool {
    ||| c == '\u{0009}'
    ||| c == '\u{000A}'
    ||| c == '\u{000B}'
    ||| c == '\u{000C}'
    ||| c == '\u{000D}'
    ||| c == ' '
    ||| c == '\u{0085}'
    ||| c == '\u{00A0}'
    ||| c == '\u{1680}'
    ||| c == '\u{2000}'
    ||| c == '\u{2001}'
    ||| c == '\u{2002}'
    ||| c == '\u{2003}'
    ||| c == '\u{2004}'
    ||| c == '\u{2005}'
    ||| c == '\u{2006}'
    ||| c == '\u{2007}'
    ||| c == '\u{2008}'
    ||| c == '\u{2009}'
    ||| c == '\u{200A}'
    ||| c == '\u{2028}'
    ||| c == '\u{2029}'
    ||| c == '\u{202F}'
    ||| c == '\u{205F}'
    ||| c == '\u{3000}'
}

/// Whether a character is trimmed away at the edges of scraped text.
pub fn is_space(c: char) -> (r: bool)
    ensures
        r == is_space_char(c),
{
    c == '\u{0009}' || c == '\u{000A}' || c == '\u{000B}' || c == '\u{000C}' || c == '\u{000D}'
        || c == ' ' || c == '\u{0085}' || c == '\u{00A0}' || c == '\u{1680}' || c == '\u{2000}'
        || c == '\u{2001}' || c == '\u{2002}' || c == '\u{2003}' || c == '\u{2004}' || c
        == '\u{2005}' || c == '\u{2006}' || c == '\u{2007}' || c == '\u{2008}' || c == '\u{2009}'
        || c == '\u{200A}' || c == '\u{2028}' || c == '\u{2029}' || c == '\u{202F}' || c
        == '\u{205F}' || c == '\u{3000}'
}

/// First index at or after `i` holding a non-whitespace character, or the
/// length of `s` if there is none.
pub open spec fn trim_start_idx(s: Seq<char>, i: int) -> int
    decreases s.len() - i,
{
    if i < 0 || i >= s.len() {
        s.len() as int
    } else if is_space_char(s[i]) {
        trim_start_idx(s, i + 1)
    } else {
        i
    }
}

/// Index one past the last non-whitespace character strictly before `j`,
/// or 0 if there is none.
pub open spec fn trim_end_idx(s: Seq<char>, j: int) -> int
    decreases j,
{
    if j <= 0 || j > s.len() {
        0
    } else if is_space_char(s[j - 1]) {
        trim_end_idx(s, j - 1)
    } else {
        j
    }
}

/// `s` with leading and trailing whitespace removed.
pub open spec fn trim_spec(s: Seq<char>) -> Seq<char> {
    let a = trim_start_idx(s, 0);
    let b = trim_end_idx(s, s.len() as int);
    if a <= b {
        s.subrange(a, b)
    } else {
        Seq::empty()
    }
}

/// In text that is whitespace throughout, trimming from the end reaches
/// the very start.
proof fn lemma_trim_end_all_space(s: Seq<char>, j: int)
    requires
        0 <= j <= s.len(),
        forall|i: int| 0 <= i < j ==> is_space_char(s[i]),
    ensures
        trim_end_idx(s, j) == 0,
    decreases j,
{
    if j > 0 {
        lemma_trim_end_all_space(s, j - 1);
    }
}

/// Remove leading and trailing whitespace, as scraped titles, displayed
/// URLs and snippets are cleaned before they enter a result record.
pub fn trim(s: &str) -> (r: String)
    ensures
        r@ == trim_spec(s@),
{
    let len = s.unicode_len();
    let mut a: usize = 0;
    while a < len && is_space(s.get_char(a))
        invariant
            len == s@.len(),
            0 <= a <= len,
            forall|j: int| 0 <= j < a ==> is_space_char(s@[j]),
            trim_start_idx(s@, 0) == trim_start_idx(s@, a as int),
        decreases len - a,
    {
        a = a + 1;
    }
    if a == len {
        proof {
            lemma_trim_end_all_space(s@, len as int);
            assert(trim_spec(s@) =~= Seq::<char>::empty());
        }
        return String::new();
    }
    assert(trim_start_idx(s@, 0) == a as int);
    let mut b: usize = len;
    while b > a + 1 && is_space(s.get_char(b - 1))
        invariant
            len == s@.len(),
            0 <= a < len,
            a + 1 <= b <= len,
            !is_space_char(s@[a as int]),
            forall|j: int| b <= j < len ==> is_space_char(s@[j]),
            trim_end_idx(s@, len as int) == trim_end_idx(s@, b as int),
        decreases b,
    {
        b = b - 1;
    }
    assert(trim_end_idx(s@, len as int) == b as int) by {
        if b == a + 1 {
            if is_space_char(s@[b - 1]) {
                assert(false);
            }
        }
    }
    let sub = s.substring_char(a, b);
    String::from_str(sub)
}

/// The decimal digit characters.
pub open spec fn digit_char(d: nat) -> char {
    if d == 0 {
        '0'
    } else if d == 1 {
        '1'
    } else if d == 2 {
        '2'
    } else if d == 3 {
        '3'
    } else if d == 4 {
        '4'
    } else if d == 5 {
        '5'
    } else if d == 6 {
        '6'
    } else if d == 7 {
        '7'
    } else if d == 8 {
        '8'
    } else {
        '9'
    }
}

/// The decimal rendering of a number, without a sign and without leading
/// zeros (except for the number 0 itself).
pub open spec fn dec_of(n: nat) -> Seq<char>
    decreases n,
{
    if n < 10 {
        seq![digit_char(n)]
    } else {
        dec_of(n / 10).push(digit_char(n % 10))
    }
}

/// One decimal digit as a string slice.
fn digit_str(d: u64) -> (r: &'static str)
    requires
        d < 10,
    ensures
        r@ == seq![digit_char(d as nat)],
{
    proof {
        reveal_strlit("0");
        reveal_strlit("1");
        reveal_strlit("2");
        reveal_strlit("3");
        reveal_strlit("4");
        reveal_strlit("5");
        reveal_strlit("6");
        reveal_strlit("7");
        reveal_strlit("8");
        reveal_strlit("9");
    }
    let r = if d == 0 {
        "0"
    } else if d == 1 {
        "1"
    } else if d == 2 {
        "2"
    } else if d == 3 {
        "3"
    } else if d == 4 {
        "4"
    } else if d == 5 {
        "5"
    } else if d == 6 {
        "6"
    } else if d == 7 {
        "7"
    } else if d == 8 {
        "8"
    } else {
        "9"
    };
    proof {
        assert(r@ =~= seq![digit_char(d as nat)]);
    }
    r
}

/// Render a number in decimal, as offset parameters are written into a
/// request URL.
pub fn u64_to_string(n: u64) -> (r: String)
    ensures
        r@ == dec_of(n as nat),
    decreases n,
{
    if n < 10 {
        String::from_str(digit_str(n))
    } else {
        let mut s = u64_to_string(n / 10);
        s.append(digit_str(n % 10));
        proof {
            assert(s@ =~= dec_of((n / 10) as nat).push(digit_char((n % 10) as nat)));
        }
        s
    }
}

} // verus!
