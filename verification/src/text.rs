//! Text that ends up on screen: decimal numbers, trimming and comparison.
//!
//! Every sentence the window shows is a `String` whose characters are fixed
//! by a contract, so the few operations that produce characters live here.

use vstd::prelude::*;
use vstd::string::*;

verus! {

/// The character for one decimal digit.
pub open spec fn digit(d: nat) -> char {
    (48 + d) as char
}

/// `n` in decimal, without leading zeros.
pub open spec fn decimal(n: nat) -> Seq<char>
    decreases n,
{
    if n < 10 {
        seq![digit(n)]
    } else {
        decimal(n / 10).push(digit(n % 10))
    }
}

/// `n` in decimal, in at least two characters.
pub open spec fn two_digits(n: nat) -> Seq<char> {
    if n < 10 {
        seq!['0', digit(n)]
    } else {
        decimal(n)
    }
}

/// Whether `c` has the Unicode property `White_Space`.
pub open spec fn is_white_space(c: char) -> bool {
    let u = c as u32;
    ||| 0x9 <= u <= 0xd
    ||| u == 0x20
    ||| u == 0x85
    ||| u == 0xa0
    ||| u == 0x1680
    ||| 0x2000 <= u <= 0x200a
    ||| u == 0x2028
    ||| u == 0x2029
    ||| u == 0x202f
    ||| u == 0x205f
    ||| u == 0x3000
}

/// `s` without the white space it begins with.
pub open spec fn trimmed_start(s: Seq<char>) -> Seq<char>
    decreases s.len(),
{
    if s.len() > 0 && is_white_space(s.first()) {
        trimmed_start(s.drop_first())
    } else {
        s
    }
}

/// `s` without the white space it ends with.
pub open spec fn trimmed_end(s: Seq<char>) -> Seq<char>
    decreases s.len(),
{
    if s.len() > 0 && is_white_space(s.last()) {
        trimmed_end(s.drop_last())
    } else {
        s
    }
}

/// `s` without the white space at either end.
pub open spec fn trimmed(s: Seq<char>) -> Seq<char> {
    trimmed_end(trimmed_start(s))
}

/// `str::trim` takes the longest run of `White_Space` characters off each
/// end and leaves everything between them alone.
pub assume_specification[ str::trim ](s: &str) -> (r: &str)
    ensures
        r@ == trimmed(s@),
;

/// One decimal digit as text.
fn digit_text(d: u64) -> (r: String)
    requires
        d < 10,
    ensures
        r@ == seq![digit(d as nat)],
{
    proof {
        reveal_strlit("0");
        reveal_strlit("1");
        reveal_strlit("2");
        reveal_strlit("3");
        reveal_strlit("4");
        reveal_strlit("5");
        reveal_strlit("6");
        reveal_strlit("7");
        reveal_strlit("8");
        reveal_strlit("9");
    }
    let text: &str = match d {
        0 => "0",
        1 => "1",
        2 => "2",
        3 => "3",
        4 => "4",
        5 => "5",
        6 => "6",
        7 => "7",
        8 => "8",
        _ => "9",
    };
    assert(text@ =~= seq![digit(d as nat)]);
    text.to_owned()
}

/// A number in decimal.
pub fn decimal_text(n: u64) -> (r: String)
    ensures
        r@ == decimal(n as nat),
    decreases n,
{
    if n < 10 {
        digit_text(n)
    } else {
        let mut r: String = decimal_text(n / 10);
        r.append(digit_text(n % 10).as_str());
        assert(r@ =~= decimal(n as nat));
        r
    }
}

/// A number in decimal, padded with a zero to two characters.
pub fn two_digits_text(n: u64) -> (r: String)
    ensures
        r@ == two_digits(n as nat),
{
    if n < 10 {
        let mut r: String = "0".to_owned();
        r.append(digit_text(n).as_str());
        proof {
            reveal_strlit("0");
        }
        assert(r@ =~= two_digits(n as nat));
        r
    } else {
        decimal_text(n)
    }
}

/// Whether two pieces of text hold the same characters.
pub fn same_text(a: &str, b: &str) -> (r: bool)
    ensures
        r == (a@ == b@),
{
    a.to_owned() == b.to_owned()
}

/// Two pieces of text, one after the other.
pub fn text2(a: &str, b: &str) -> (r: String)
    ensures
        r@ == a@ + b@,
{
    let mut r: String = a.to_owned();
    r.append(b);
    r
}

/// Three pieces of text, one after the other.
pub fn text3(a: &str, b: &str, c: &str) -> (r: String)
    ensures
        r@ == a@ + b@ + c@,
{
    let mut r: String = text2(a, b);
    r.append(c);
    r
}

/// Four pieces of text, one after the other.
pub fn text4(a: &str, b: &str, c: &str, d: &str) -> (r: String)
    ensures
        r@ == a@ + b@ + c@ + d@,
{
    let mut r: String = text3(a, b, c);
    r.append(d);
    r
}

/// Five pieces of text, one after the other.
pub fn text5(a: &str, b: &str, c: &str, d: &str, e: &str) -> (r: String)
    ensures
        r@ == a@ + b@ + c@ + d@ + e@,
{
    let mut r: String = text4(a, b, c, d);
    r.append(e);
    r
}

/// The characters of a piece of text.
pub fn chars_of(text: &str) -> (r: Vec<char>)
    ensures
        r@ == text@,
{
    let mut r: Vec<char> = Vec::new();
    for c in it: text.chars()
        invariant
            it.seq() == text@,
            r@ == text@.take(it.index()),
    {
        r.push(c);
        assert(text@.take(it.index() + 1) =~= text@.take(it.index()).push(c));
    }
    assert(text@.take(text@.len() as int) =~= text@);
    r
}

/// What a field holds once the white space around it is gone: `None` for a
/// field nothing has been typed into, which is neither a value nor an error.
/// `Some` is exactly the text a parser is asked about.
pub fn text_to_read(text: &str) -> (r: Option<String>)
    ensures
        r is None <==> trimmed(text@).len() == 0,
        r matches Some(t) ==> t@ == trimmed(text@),
{
    let t: &str = text.trim();
    if t.is_empty() {
        None
    } else {
        Some(t.to_owned())
    }
}

/// The characters of a text that may be missing.
pub open spec fn text_of(o: Option<String>) -> Option<Seq<char>> {
    match o {
        Some(s) => Some(s@),
        None => None,
    }
}

/// A copy of a text that may be missing.
pub fn copy_text(o: &Option<String>) -> (r: Option<String>)
    ensures
        r == *o,
{
    match o {
        Some(s) => Some(s.clone()),
        None => None,
    }
}

/// A text, unless it is missing or empty.
pub open spec fn non_empty(o: Option<Seq<char>>) -> Option<Seq<char>> {
    match o {
        Some(s) => if s.len() > 0 {
            Some(s)
        } else {
            None
        },
        None => None,
    }
}

pub fn copy_non_empty(o: &Option<String>) -> (r: Option<String>)
    ensures
        text_of(r) == non_empty(text_of(*o)),
{
    match o {
        Some(s) => if s.as_str().unicode_len() > 0 {
            Some(s.clone())
        } else {
            None
        },
        None => None,
    }
}

/// The views of a list's items, in the same order.
pub open spec fn views<T: View>(items: Seq<T>) -> Seq<T::V> {
    Seq::new(items.len(), |i: int| items[i]@)
}

/// The characters of every text of a list.
pub open spec fn texts(items: Seq<String>) -> Seq<Seq<char>> {
    Seq::new(items.len(), |i: int| items[i]@)
}

/// Whether `c` is one of the ten decimal digits.
pub open spec fn is_digit(c: char) -> bool {
    48 <= c as u32 <= 57
}

/// A decimal number is at least one character, and every character is a
/// digit.
pub proof fn decimal_is_all_digits(n: nat)
    ensures
        decimal(n).len() > 0,
        forall|i: int| 0 <= i < decimal(n).len() ==> is_digit(#[trigger] decimal(n)[i]),
    decreases n,
{
    if n >= 10 {
        decimal_is_all_digits(n / 10);
    }
}

/// Two different numbers never read the same in decimal.
pub proof fn decimal_is_injective(m: nat, n: nat)
    requires
        decimal(m) == decimal(n),
    ensures
        m == n,
    decreases m,
{
    decimal_is_all_digits(m / 10);
    decimal_is_all_digits(n / 10);
    if m >= 10 && n >= 10 {
        let a = decimal(m / 10).push(digit(m % 10));
        let b = decimal(n / 10).push(digit(n % 10));
        assert(a.last() == b.last());
        assert(a.drop_last() =~= decimal(m / 10));
        assert(b.drop_last() =~= decimal(n / 10));
        decimal_is_injective(m / 10, n / 10);
        assert(digit(m % 10) == digit(n % 10));
        assert(m % 10 == n % 10);
    } else if m < 10 && n < 10 {
        assert(decimal(m)[0] == digit(m));
        assert(decimal(n)[0] == digit(n));
    } else if m < 10 {
        assert(decimal(m).len() == 1);
        assert(decimal(n).len() >= 2);
    } else {
        assert(decimal(n).len() == 1);
        assert(decimal(m).len() >= 2);
    }
}

/// The number a run of decimal digits stands for, read from the left: every
/// further digit is worth a tenth of the one before it.
pub open spec fn value_of(s: Seq<char>) -> nat
    decreases s.len(),
{
    if s.len() == 0 {
        0
    } else {
        value_of(s.drop_last()) * 10 + (s.last() as nat - 48) as nat
    }
}

/// Whether a reader who takes `s` for a plain decimal number reads `n`.
pub open spec fn reads_as(s: Seq<char>, n: nat) -> bool {
    &&& s.len() > 0
    &&& forall|i: int| 0 <= i < s.len() ==> '0' <= #[trigger] s[i] <= '9'
    &&& s.len() > 1 ==> s[0] != '0'
    &&& value_of(s) == n
}

/// A number written in decimal reads back as that number.
pub proof fn decimal_reads_back(n: nat)
    ensures
        reads_as(decimal(n), n),
    decreases n,
{
    let s = decimal(n);
    if n < 10 {
        assert(s.drop_last() =~= Seq::<char>::empty());
        assert(value_of(s.drop_last()) == 0);
    } else {
        decimal_reads_back(n / 10);
        assert(s.drop_last() =~= decimal(n / 10));
        assert(s[0] == decimal(n / 10)[0]);
        if n / 10 < 10 {
            assert(decimal(n / 10)[0] == digit(n / 10));
            assert(s[0] as u32 == 48 + n / 10);
        } else {
            decimal_is_all_digits(n / 10 / 10);
            assert(decimal(n / 10).len() > 1);
        }
        assert(s.last() == digit(n % 10));
        assert(value_of(s) == n / 10 * 10 + n % 10);
        assert forall|i: int| 0 <= i < s.len() implies '0' <= #[trigger] s[i] <= '9' by {
            if i < s.len() - 1 {
                assert(s[i] == decimal(n / 10)[i]);
            }
        }
    }
}

/// A number padded to two characters reads back as that number too, and only
/// the padding can be a leading zero.
pub proof fn two_digits_read_back(n: nat)
    ensures
        two_digits(n).len() >= 2,
        n < 100 ==> two_digits(n).len() == 2,
        forall|i: int| 0 <= i < two_digits(n).len() ==> '0' <= #[trigger] two_digits(n)[i] <= '9',
        two_digits(n).len() > 2 ==> two_digits(n)[0] != '0',
        value_of(two_digits(n)) == n,
{
    reveal_with_fuel(decimal, 3);
    reveal_with_fuel(value_of, 3);
    decimal_reads_back(n);
    if n < 10 {
        let s = two_digits(n);
        assert(s.drop_last() =~= seq!['0']);
        assert(s.drop_last().drop_last() =~= Seq::<char>::empty());
    } else {
        decimal_is_all_digits(n / 10);
        assert(decimal(n).len() == decimal(n / 10).len() + 1);
    }
}

/// Trimming cuts white space off the two ends and nothing else: what is left
/// is one unbroken piece of the text, with only white space before and after
/// it, and none at its own ends.
pub proof fn trimming_cuts_white_space_off_the_ends(s: Seq<char>)
    ensures
        exists|i: int, j: int|
            #![trigger s.subrange(i, j)]
            {
                &&& 0 <= i <= j <= s.len()
                &&& trimmed(s) == s.subrange(i, j)
                &&& forall|k: int| 0 <= k < i || j <= k < s.len() ==> is_white_space(#[trigger] s[k])
                &&& i < j ==> !is_white_space(s[i]) && !is_white_space(s[j - 1])
            },
{
    let i = trimming_the_start(s);
    let t = trimmed_start(s);
    let n = trimming_the_end(t);
    let j = i + n;
    assert(trimmed(s) =~= s.subrange(i, j));
    assert forall|k: int| 0 <= k < i || j <= k < s.len() implies is_white_space(#[trigger] s[k]) by {
        if j <= k {
            assert(t[k - i] == s[k]);
        }
    }
    if i < j {
        assert(s[i] == t[0]);
        assert(s[j - 1] == t[n - 1]);
    }
    assert(s.subrange(i, j) == trimmed(s));
}

/// Trimming leaves nothing exactly of a text that is all white space.
pub proof fn trimming_to_nothing(s: Seq<char>)
    ensures
        trimmed(s).len() == 0 <==> forall|k: int|
            0 <= k < s.len() ==> is_white_space(#[trigger] s[k]),
{
    trimming_cuts_white_space_off_the_ends(s);
    let (i, j) = choose|i: int, j: int|
        #![trigger s.subrange(i, j)]
        {
            &&& 0 <= i <= j <= s.len()
            &&& trimmed(s) == s.subrange(i, j)
            &&& forall|k: int| 0 <= k < i || j <= k < s.len() ==> is_white_space(#[trigger] s[k])
            &&& i < j ==> !is_white_space(s[i]) && !is_white_space(s[j - 1])
        };
    assert(trimmed(s).len() == j - i);
}

proof fn trimming_the_start(s: Seq<char>) -> (i: int)
    ensures
        0 <= i <= s.len(),
        trimmed_start(s) == s.subrange(i, s.len() as int),
        forall|k: int| 0 <= k < i ==> is_white_space(#[trigger] s[k]),
        i < s.len() ==> !is_white_space(s[i]),
    decreases s.len(),
{
    if s.len() > 0 && is_white_space(s.first()) {
        let rest = s.drop_first();
        let i = trimming_the_start(rest);
        assert(rest.subrange(i, rest.len() as int) =~= s.subrange(i + 1, s.len() as int));
        assert forall|k: int| 0 <= k < i + 1 implies is_white_space(#[trigger] s[k]) by {
            if k > 0 {
                assert(rest[k - 1] == s[k]);
            }
        }
        i + 1
    } else {
        assert(s =~= s.subrange(0, s.len() as int));
        0
    }
}

proof fn trimming_the_end(s: Seq<char>) -> (j: int)
    ensures
        0 <= j <= s.len(),
        trimmed_end(s) == s.subrange(0, j),
        forall|k: int| j <= k < s.len() ==> is_white_space(#[trigger] s[k]),
        j > 0 ==> !is_white_space(s[j - 1]),
    decreases s.len(),
{
    if s.len() > 0 && is_white_space(s.last()) {
        let rest = s.drop_last();
        let j = trimming_the_end(rest);
        assert(rest.subrange(0, j) =~= s.subrange(0, j));
        assert forall|k: int| j <= k < s.len() implies is_white_space(#[trigger] s[k]) by {
            if k < rest.len() {
                assert(rest[k] == s[k]);
            }
        }
        j
    } else {
        assert(s =~= s.subrange(0, s.len() as int));
        s.len() as int
    }
}

/// Blanks, tabs and line ends are white space; no other printable ASCII
/// character is.
pub proof fn ascii_white_space(c: char)
    requires
        (c as u32) < 0x80,
    ensures
        is_white_space(c) <==> c == ' ' || c == '\t' || c == '\n' || c as u32 == 0xb || c as u32
            == 0xc || c == '\r',
{
}

/// A text is left out exactly when there is nothing in it to read, and is
/// otherwise left alone.
pub proof fn only_an_empty_text_is_left_out(o: Option<Seq<char>>)
    ensures
        non_empty(o) is None <==> o is None || o == Some(Seq::<char>::empty()),
        non_empty(o) is Some ==> non_empty(o) == o,
{
    if let Some(s) = o {
        if s.len() == 0 {
            assert(s =~= Seq::<char>::empty());
        }
    }
}

/// Looking at texts shows each one's own characters, in its place.
pub proof fn texts_are_looked_at_as_they_are(o: Option<String>, items: Seq<String>, i: int)
    ensures
        o matches Some(s) ==> text_of(o) == Some(s@),
        o is None ==> text_of(o) is None,
        texts(items).len() == items.len(),
        0 <= i < items.len() ==> texts(items)[i] == items[i]@,
        views(items).len() == items.len(),
        0 <= i < items.len() ==> views(items)[i] == items[i]@,
{
}

} // verus!
