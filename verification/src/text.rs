//! Text helpers: decimal rendering of integers, joining and trimming.

use vstd::prelude::*;

verus! {

/// `String::from(&str)`: std documents it as converting a string slice into
/// a `String`, which then holds the same characters.
pub assume_specification<'a>[ <String as core::convert::From<&'a str>>::from ](s: &str) -> (r:
    String)
    ensures
        r@ == s@,
;

/// The reflexive `From<T> for T` of std: documented to return its argument
/// unchanged.
pub assume_specification<A>[ <A as core::convert::From<A>>::from ](a: A) -> (r: A)
    ensures
        r == a,
;

/// The character of the decimal digit `d`.
pub open spec fn digit_char(d: nat) -> char {
    (48 + d) as char
}

/// The decimal text of a natural number, without leading zeros.
pub open spec fn nat_text(n: nat) -> Seq<char>
    decreases n,
{
    if n < 10 {
        seq![digit_char(n)]
    } else {
        nat_text(n / 10).push(digit_char(n % 10))
    }
}

/// The decimal text of an integer, as Rust's `Display` writes it:
/// a leading `-` for negative numbers, no sign otherwise.
pub open spec fn int_text(i: int) -> Seq<char> {
    if i < 0 {
        seq!['-'] + nat_text((-i) as nat)
    } else {
        nat_text(i as nat)
    }
}

/// The text of a boolean, as Rust's `Display` writes it.
pub open spec fn bool_text(b: bool) -> Seq<char> {
    if b {
        seq!['t', 'r', 'u', 'e']
    } else {
        seq!['f', 'a', 'l', 's', 'e']
    }
}

/// The one-character string of a decimal digit.
fn digit_string(d: u64) -> (r: String)
    requires
        d < 10,
    ensures
        r@ == seq![digit_char(d as nat)],
{
    let s: &str = match d {
        0 => "0",
        1 => "1",
        2 => "2",
        3 => "3",
        4 => "4",
        5 => "5",
        6 => "6",
        7 => "7",
        8 => "8",
        _ => "9",
    };
    proof {
        reveal_strlit("0");
        reveal_strlit("1");
        reveal_strlit("2");
        reveal_strlit("3");
        reveal_strlit("4");
        reveal_strlit("5");
        reveal_strlit("6");
        reveal_strlit("7");
        reveal_strlit("8");
        reveal_strlit("9");
    }
    let r = String::from_str(s);
    assert(r@ =~= seq![digit_char(d as nat)]);
    r
}

/// Decimal text of an unsigned integer.
pub fn u64_text(n: u64) -> (r: String)
    ensures
        r@ == nat_text(n as nat),
    decreases n,
{
    if n < 10 {
        digit_string(n)
    } else {
        let mut s = u64_text(n / 10);
        let d = digit_string(n % 10);
        s.append(d.as_str());
        assert(s@ =~= nat_text(n as nat));
        s
    }
}

/// Decimal text of a signed integer.
pub fn i64_text(n: i64) -> (r: String)
    ensures
        r@ == int_text(n as int),
{
    if n < 0 {
        let magnitude: u64 = if n == i64::MIN {
            9223372036854775808u64
        } else {
            (-n) as u64
        };
        let mut s = String::from_str("-");
        proof {
            reveal_strlit("-");
        }
        let digits = u64_text(magnitude);
        s.append(digits.as_str());
        assert(s@ =~= int_text(n as int));
        s
    } else {
        u64_text(n as u64)
    }
}

/// Decimal text of an `i32`.
pub fn i32_text(n: i32) -> (r: String)
    ensures
        r@ == int_text(n as int),
{
    i64_text(n as i64)
}

/// Decimal text of a `usize`.
pub fn usize_text(n: usize) -> (r: String)
    ensures
        r@ == nat_text(n as nat),
{
    u64_text(n as u64)
}

/// Text of a boolean (`"true"` or `"false"`).
pub fn bool_string(b: bool) -> (r: String)
    ensures
        r@ == bool_text(b),
{
    proof {
        reveal_strlit("true");
        reveal_strlit("false");
    }
    if b {
        String::from_str("true")
    } else {
        String::from_str("false")
    }
}

/// The text left when every leading `/` is removed.
pub open spec fn trim_leading_slashes(s: Seq<char>) -> Seq<char>
    decreases s.len(),
{
    if s.len() > 0 && s[0] == '/' {
        trim_leading_slashes(s.drop_first())
    } else {
        s
    }
}

/// Trimming leading slashes leaves a suffix of the text that does not start
/// with `/`, and everything cut off is `/`.
pub proof fn law_trim_leading_slashes(s: Seq<char>)
    ensures
        trim_leading_slashes(s).len() <= s.len(),
        trim_leading_slashes(s) == s.skip(s.len() - trim_leading_slashes(s).len()),
        trim_leading_slashes(s).len() == 0 || trim_leading_slashes(s)[0] != '/',
        forall|i: int| 0 <= i < s.len() - trim_leading_slashes(s).len() ==> s[i] == '/',
    decreases s.len(),
{
    if s.len() > 0 && s[0] == '/' {
        let t = s.drop_first();
        law_trim_leading_slashes(t);
        assert(s.skip(s.len() - trim_leading_slashes(s).len()) =~= t.skip(
            t.len() - trim_leading_slashes(t).len(),
        ));
        assert forall|i: int| 0 <= i < s.len() - trim_leading_slashes(s).len() implies s[i]
            == '/' by {
            if i > 0 {
                assert(s[i] == t[i - 1]);
            }
        }
    } else {
        assert(s.skip(0) =~= s);
    }
}

/// `s` without its leading `/` characters (what `trim_start_matches('/')` gives).
pub fn trim_start_slashes(s: &str) -> (r: &str)
    ensures
        r@ == trim_leading_slashes(s@),
{
    let n = s.unicode_len();
    let mut i: usize = 0;
    assert(s@.skip(0) =~= s@);
    while i < n && s.get_char(i) == '/'
        invariant
            i <= n,
            n == s@.len(),
            trim_leading_slashes(s@) == trim_leading_slashes(s@.skip(i as int)),
        decreases n - i,
    {
        assert(s@.skip(i as int).drop_first() =~= s@.skip(i + 1));
        i = i + 1;
    }
    let r = s.substring_char(i, n);
    assert(r@ =~= s@.skip(i as int));
    r
}

/// The elements of `list` joined with `sep` between consecutive elements.
pub open spec fn join_text(list: Seq<Seq<char>>, sep: Seq<char>) -> Seq<char>
    decreases list.len(),
{
    if list.len() == 0 {
        Seq::empty()
    } else if list.len() == 1 {
        list[0]
    } else {
        join_text(list.drop_last(), sep) + sep + list.last()
    }
}

/// The texts of a list of strings.
pub open spec fn texts(list: Seq<String>) -> Seq<Seq<char>> {
    list.map_values(|s: String| s@)
}

/// Joins the strings of `list`, putting `sep` between consecutive ones.
pub fn join_strings(list: &Vec<String>, sep: &str) -> (r: String)
    ensures
        r@ == join_text(texts(list@), sep@),
{
    let mut r = String::new();
    let n = list.len();
    let mut i: usize = 0;
    while i < n
        invariant
            i <= n,
            n == list@.len(),
            r@ == join_text(texts(list@).take(i as int), sep@),
        decreases n - i,
    {
        if i != 0 {
            r.append(sep);
        }
        r.append(list[i].as_str());
        assert(texts(list@).take(i + 1).drop_last() =~= texts(list@).take(i as int));
        i = i + 1;
    }
    assert(texts(list@).take(n as int) =~= texts(list@));
    r
}

} // verus!
