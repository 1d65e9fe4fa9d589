//! IPv4 addresses and networks as plain values, and the text each is written
//! as.

use crate::text::{
    chars_of, decimal, decimal_is_all_digits, decimal_is_injective, decimal_reads_back, decimal_text,
    digit, is_digit, reads_as,
};
use vstd::prelude::*;
use vstd::string::*;

verus! {

/// An IPv4 address, octet by octet.
#[derive(Clone, Copy, Debug, PartialEq, Eq, Structural)]
pub struct Ipv4Addr {
    pub a: u8,
    pub b: u8,
    pub c: u8,
    pub d: u8,
}

/// The usual dotted form of an address.
pub open spec fn dotted(addr: Ipv4Addr) -> Seq<char> {
    decimal(addr.a as nat) + "."@ + decimal(addr.b as nat) + "."@ + decimal(addr.c as nat) + "."@
        + decimal(addr.d as nat)
}

impl Ipv4Addr {
    pub fn new(a: u8, b: u8, c: u8, d: u8) -> (r: Self)
        ensures
            r == (Ipv4Addr { a, b, c, d }),
    {
        Ipv4Addr { a, b, c, d }
    }

    /// The address in dotted form.
    pub fn text(&self) -> (r: String)
        ensures
            r@ == dotted(*self),
    {
        let mut r: String = decimal_text(self.a as u64);
        r.append(".");
        r.append(decimal_text(self.b as u64).as_str());
        r.append(".");
        r.append(decimal_text(self.c as u64).as_str());
        r.append(".");
        r.append(decimal_text(self.d as u64).as_str());
        r
    }

    /// Whether the address is in 127.0.0.0/8.
    pub open spec fn loopback(self) -> bool {
        self.a == 127
    }

    pub fn is_loopback(&self) -> (r: bool)
        ensures
            r == self.loopback(),
    {
        self.a == 127
    }
}

/// The value of a digit character, if it is one.
fn digit_of(c: char) -> (r: Option<u32>)
    ensures
        r is Some <==> is_digit(c),
        r matches Some(v) ==> v < 10 && c == digit(v as nat),
{
    let u: u32 = c as u32;
    if 48 <= u && u <= 57 {
        Some(u - 48)
    } else {
        None
    }
}

/// The decimal forms of the numbers an octet can hold, one case per length.
proof fn octet_decimal(n: nat)
    requires
        n <= 255,
    ensures
        n < 10 ==> decimal(n) == seq![digit(n)],
        10 <= n < 100 ==> decimal(n) == seq![digit(n / 10), digit(n % 10)],
        100 <= n ==> decimal(n) == seq![digit(n / 100), digit(n / 10 % 10), digit(n % 10)],
{
    reveal_with_fuel(decimal, 4);
    if 10 <= n < 100 {
        assert(decimal(n) =~= seq![digit(n / 10), digit(n % 10)]);
    }
    if 100 <= n {
        assert(n / 10 / 10 == n / 100);
        assert(decimal(n) =~= seq![digit(n / 100), digit(n / 10 % 10), digit(n % 10)]);
    }
}

/// Whether the run of digits that starts at `from` ends just before `end`.
spec fn digit_run(s: Seq<char>, from: int, end: int) -> bool {
    &&& 0 <= from <= end <= s.len()
    &&& forall|i: int| from <= i < end ==> is_digit(#[trigger] s[i])
    &&& end < s.len() ==> !is_digit(s[end])
}

/// Reads the octet that starts at `from`: the whole run of digits there, when
/// that run is exactly how a number up to 255 is written.
fn read_octet(chars: &Vec<char>, from: usize) -> (r: Option<(u8, usize)>)
    requires
        from <= chars@.len(),
    ensures
        r matches Some((n, end)) ==> digit_run(chars@, from as int, end as int)
            && chars@.subrange(from as int, end as int) == decimal(n as nat),
        r is None ==> forall|n: u8, end: int|
            digit_run(chars@, from as int, end) ==> #[trigger] chars@.subrange(from as int, end)
                != #[trigger] decimal(n as nat),
{
    let mut end: usize = from;
    let mut digits: Vec<u32> = Vec::new();
    let mut running: bool = true;
    while running && end < chars.len()
        invariant
            from <= end <= chars@.len(),
            digits@.len() == end - from,
            forall|i: int|
                0 <= i < digits@.len() ==> #[trigger] digits@[i] < 10 && chars@[from + i] == digit(
                    digits@[i] as nat,
                ),
            !running ==> end < chars@.len() && !is_digit(chars@[end as int]),
        decreases chars@.len() - end, (if running { 1int } else { 0int }),
    {
        match digit_of(chars[end]) {
            Some(v) => {
                digits.push(v);
                end += 1;
            },
            None => {
                running = false;
            },
        }
    }
    let ghost run = chars@.subrange(from as int, end as int);
    assert forall|i: int| from <= i < end implies is_digit(#[trigger] chars@[i]) by {
        assert(digits@[i - from] < 10);
    }
    assert(run.len() == digits@.len());
    assert(forall|i: int|
        0 <= i < run.len() ==> digits@[i] < 10 && #[trigger] run[i] == digit(digits@[i] as nat));
    assert forall|e: int| digit_run(chars@, from as int, e) implies e == end by {
        if e < end {
            assert(is_digit(chars@[e]));
        }
        if e > end {
            assert(is_digit(chars@[end as int]));
        }
    }
    let len: usize = digits.len();
    let mut value: u32 = 0;
    let mut well_written: bool = false;
    if len == 1 {
        value = digits[0];
        well_written = true;
        proof {
            octet_decimal(value as nat);
            assert(run =~= decimal(value as nat));
        }
    } else if len == 2 {
        value = 10 * digits[0] + digits[1];
        well_written = digits[0] != 0;
        proof {
            if well_written {
                octet_decimal(value as nat);
                assert(run =~= decimal(value as nat));
            }
        }
    } else if len == 3 {
        value = 100 * digits[0] + 10 * digits[1] + digits[2];
        well_written = digits[0] != 0 && value <= 255;
        proof {
            if well_written {
                octet_decimal(value as nat);
                assert(run =~= decimal(value as nat));
            }
        }
    }
    if well_written {
        Some((value as u8, end))
    } else {
        proof {
            assert forall|n: u8, e: int|
                digit_run(chars@, from as int, e) implies #[trigger] chars@.subrange(
                from as int,
                e,
            ) != #[trigger] decimal(n as nat) by {
                octet_decimal(n as nat);
                assert(e == end);
                if run == decimal(n as nat) {
                    assert(run.len() == len);
                    assert(run[0] == chars@[from as int]);
                    if len >= 2 {
                        assert(run[1] == chars@[from + 1]);
                    }
                    if len == 3 {
                        assert(run[2] == chars@[from + 2]);
                    }
                    assert(false);
                }
            }
        }
        None
    }
}

/// The octet at `from` is written `n` and ends just before `end`.
spec fn octet_at(s: Seq<char>, from: int, end: int, n: u8) -> bool {
    digit_run(s, from, end) && s.subrange(from, end) == decimal(n as nat)
}

/// Only one number, ending in one place, can start at a given position.
proof fn octet_is_unique(s: Seq<char>, from: int, e: int, m: u8, f: int, n: u8)
    requires
        octet_at(s, from, e, m),
        octet_at(s, from, f, n),
    ensures
        e == f,
        m == n,
{
    if e < f {
        assert(is_digit(s[e]));
    }
    if f < e {
        assert(is_digit(s[f]));
    }
    decimal_is_injective(m as nat, n as nat);
}

/// Where the three dots of a dotted form stand.
spec fn dots(addr: Ipv4Addr) -> (int, int, int) {
    let e0 = decimal(addr.a as nat).len() as int;
    let e1 = e0 + 1 + decimal(addr.b as nat).len();
    let e2 = e1 + 1 + decimal(addr.c as nat).len();
    (e0, e1, e2)
}

proof fn dotted_layout(addr: Ipv4Addr)
    ensures
        octet_at(dotted(addr), 0, dots(addr).0, addr.a),
        octet_at(dotted(addr), dots(addr).0 + 1, dots(addr).1, addr.b),
        octet_at(dotted(addr), dots(addr).1 + 1, dots(addr).2, addr.c),
        octet_at(dotted(addr), dots(addr).2 + 1, dotted(addr).len() as int, addr.d),
        dots(addr).2 < dotted(addr).len(),
        dotted(addr)[dots(addr).0] == '.',
        dotted(addr)[dots(addr).1] == '.',
        dotted(addr)[dots(addr).2] == '.',
{
    reveal_strlit(".");
    let a = decimal(addr.a as nat);
    let b = decimal(addr.b as nat);
    let c = decimal(addr.c as nat);
    let d = decimal(addr.d as nat);
    decimal_is_all_digits(addr.a as nat);
    decimal_is_all_digits(addr.b as nat);
    decimal_is_all_digits(addr.c as nat);
    decimal_is_all_digits(addr.d as nat);
    let s = dotted(addr);
    let e0: int = a.len() as int;
    let e1: int = e0 + 1 + b.len();
    let e2: int = e1 + 1 + c.len();
    assert(s.len() == e2 + 1 + d.len());
    assert(s.subrange(0, e0) =~= a);
    assert(s.subrange(e0 + 1, e1) =~= b);
    assert(s.subrange(e1 + 1, e2) =~= c);
    assert(s.subrange(e2 + 1, s.len() as int) =~= d);
    assert forall|i: int| 0 <= i < e0 implies is_digit(#[trigger] s[i]) by {
        assert(s[i] == a[i]);
    }
    assert forall|i: int| e0 + 1 <= i < e1 implies is_digit(#[trigger] s[i]) by {
        assert(s[i] == b[i - e0 - 1]);
    }
    assert forall|i: int| e1 + 1 <= i < e2 implies is_digit(#[trigger] s[i]) by {
        assert(s[i] == c[i - e1 - 1]);
    }
    assert forall|i: int| e2 + 1 <= i < s.len() implies is_digit(#[trigger] s[i]) by {
        assert(s[i] == d[i - e2 - 1]);
    }
}

/// Reads the octet that starts at `from` and the dot behind it. Answers the
/// octet and the position behind the dot.
fn read_octet_and_dot(chars: &Vec<char>, from: usize) -> (r: Option<(u8, usize)>)
    requires
        from <= chars@.len(),
    ensures
        r matches Some((n, next)) ==> next >= 1 && octet_at(chars@, from as int, next - 1, n)
            && next <= chars@.len() && chars@[next - 1] == '.',
        r is None ==> forall|n: u8, end: int|
            #[trigger] octet_at(chars@, from as int, end, n) ==> end >= chars@.len() || chars@[end]
                != '.',
{
    match read_octet(chars, from) {
        Some((n, end)) => {
            assert(octet_at(chars@, from as int, end as int, n));
            proof {
                assert forall|m: u8, f: int| #[trigger]
                    octet_at(chars@, from as int, f, m) implies f == end by {
                    octet_is_unique(chars@, from as int, end as int, n, f, m);
                }
            }
            if end < chars.len() && chars[end] == '.' {
                Some((n, end + 1))
            } else {
                None
            }
        },
        None => {
            assert forall|n: u8, end: int| #[trigger]
                octet_at(chars@, from as int, end, n) implies end >= chars@.len() || chars@[end]
                != '.' by {
                assert(chars@.subrange(from as int, end) == decimal(n as nat));
            }
            None
        },
    }
}

/// The address a piece of text is the dotted form of. Anything else, an
/// octet over 255 or with a leading zero included, is no address.
pub fn parse_ipv4(text: &str) -> (r: Option<Ipv4Addr>)
    ensures
        r matches Some(addr) ==> text@ == dotted(addr),
        forall|addr: Ipv4Addr| text@ == #[trigger] dotted(addr) ==> r == Some(addr),
{
    let chars: Vec<char> = chars_of(text);
    let first: Option<(u8, usize)> = read_octet_and_dot(&chars, 0);
    proof {
        assert forall|x: Ipv4Addr| text@ == #[trigger] dotted(x) implies (first matches Some((a, p))
            && a == x.a && p - 1 == dots(x).0) by {
            dotted_layout(x);
            if let Some((a, p)) = first {
                octet_is_unique(text@, 0, p - 1, a, dots(x).0, x.a);
            }
        }
    }
    let (a, p): (u8, usize) = match first {
        Some(v) => v,
        None => {
            return None;
        },
    };
    let second: Option<(u8, usize)> = read_octet_and_dot(&chars, p);
    proof {
        assert forall|x: Ipv4Addr| text@ == #[trigger] dotted(x) implies (second matches Some(
            (b, q),
        ) && b == x.b && q - 1 == dots(x).1) by {
            dotted_layout(x);
            if let Some((b, q)) = second {
                octet_is_unique(text@, p as int, q - 1, b, dots(x).1, x.b);
            }
        }
    }
    let (b, q): (u8, usize) = match second {
        Some(v) => v,
        None => {
            return None;
        },
    };
    let third: Option<(u8, usize)> = read_octet_and_dot(&chars, q);
    proof {
        assert forall|x: Ipv4Addr| text@ == #[trigger] dotted(x) implies (third matches Some((c, t))
            && c == x.c && t - 1 == dots(x).2) by {
            dotted_layout(x);
            if let Some((c, t)) = third {
                octet_is_unique(text@, q as int, t - 1, c, dots(x).2, x.c);
            }
        }
    }
    let (c, t): (u8, usize) = match third {
        Some(v) => v,
        None => {
            return None;
        },
    };
    let fourth: Option<(u8, usize)> = read_octet(&chars, t);
    proof {
        assert forall|x: Ipv4Addr| text@ == #[trigger] dotted(x) implies (fourth matches Some(
            (d, end),
        ) && d == x.d && end == text@.len()) by {
            dotted_layout(x);
            assert(octet_at(text@, t as int, text@.len() as int, x.d));
            if let Some((d, end)) = fourth {
                octet_is_unique(text@, t as int, end as int, d, text@.len() as int, x.d);
            }
        }
    }
    match fourth {
        Some((d, end)) => {
            if end == chars.len() {
                let addr = Ipv4Addr { a, b, c, d };
                proof {
                    reveal_strlit(".");
                    let s = text@;
                    assert(s =~= s.subrange(0, p - 1) + "."@ + s.subrange(p as int, q - 1) + "."@
                        + s.subrange(q as int, t - 1) + "."@ + s.subrange(t as int, end as int));
                    assert(s == dotted(addr));
                }
                Some(addr)
            } else {
                None
            }
        },
        None => None,
    }
}

/// No two addresses are written alike.
pub proof fn dotted_is_injective(x: Ipv4Addr, y: Ipv4Addr)
    requires
        dotted(x) == dotted(y),
    ensures
        x == y,
{
    let s = dotted(x);
    let e = dots(x);
    let f = dots(y);
    dotted_layout(x);
    dotted_layout(y);
    octet_is_unique(s, 0, e.0, x.a, f.0, y.a);
    octet_is_unique(s, e.0 + 1, e.1, x.b, f.1, y.b);
    octet_is_unique(s, e.1 + 1, e.2, x.c, f.2, y.c);
    octet_is_unique(s, e.2 + 1, s.len() as int, x.d, s.len() as int, y.d);
}

/// An IPv4 network: an address and how many of its leading bits name the
/// network. The prefix is at most 32 bits long.
#[derive(Clone, Copy, Debug, PartialEq, Eq, Structural)]
pub struct Ipv4Net {
    addr: Ipv4Addr,
    prefix_len: u8,
}

/// An address, a slash and the prefix length.
pub open spec fn network_form(addr: Ipv4Addr, prefix_len: u8) -> Seq<char> {
    dotted(addr) + "/"@ + decimal(prefix_len as nat)
}

/// `ipnet::Ipv4Net::new` takes any prefix up to 32 bits, and the network's
/// `Display` writes the address as given, a slash and the prefix length in
/// decimal.
#[verifier::external_body]
fn network_text(addr: Ipv4Addr, prefix_len: u8) -> (r: String)
    requires
        prefix_len <= 32,
    ensures
        r@ == network_form(addr, prefix_len),
{
    ipnet::Ipv4Net::new([addr.a, addr.b, addr.c, addr.d].into(), prefix_len).unwrap().to_string()
}

impl Ipv4Net {
    #[verifier::type_invariant]
    spec fn well_formed(self) -> bool {
        self.prefix_len <= 32
    }

    /// The address the network was made from.
    pub closed spec fn spec_addr(self) -> Ipv4Addr {
        self.addr
    }

    /// How many bits of the address name the network.
    pub closed spec fn spec_prefix_len(self) -> u8 {
        self.prefix_len
    }

    /// The text the network is written as.
    pub open spec fn form(self) -> Seq<char> {
        network_form(self.spec_addr(), self.spec_prefix_len())
    }

    /// The network of `addr` and `prefix_len`, unless the prefix is longer
    /// than an address.
    pub fn new(addr: Ipv4Addr, prefix_len: u8) -> (r: Option<Self>)
        ensures
            r is Some <==> prefix_len <= 32,
            r matches Some(net) ==> net.spec_addr() == addr && net.spec_prefix_len() == prefix_len,
    {
        if prefix_len <= 32 {
            Some(Ipv4Net { addr, prefix_len })
        } else {
            None
        }
    }

    pub fn addr(&self) -> (r: Ipv4Addr)
        ensures
            r == self.spec_addr(),
    {
        self.addr
    }

    pub fn prefix_len(&self) -> (r: u8)
        ensures
            r == self.spec_prefix_len(),
            r <= 32,
    {
        proof {
            use_type_invariant(*self);
        }
        self.prefix_len
    }

    pub fn text(&self) -> (r: String)
        ensures
            r@ == self.form(),
    {
        proof {
            use_type_invariant(*self);
        }
        network_text(self.addr, self.prefix_len)
    }
}

/// No two networks are written alike.
pub proof fn network_form_is_injective(x: Ipv4Net, y: Ipv4Net)
    requires
        x.form() == y.form(),
    ensures
        x == y,
{
    reveal_strlit("/");
    reveal_strlit(".");
    dotted_has_no_slash(x.spec_addr());
    dotted_has_no_slash(y.spec_addr());
    let i: int = dotted(x.spec_addr()).len() as int;
    let j: int = dotted(y.spec_addr()).len() as int;
    let s = x.form();
    let t = y.form();
    assert(s[i] == '/');
    assert(t[j] == '/');
    if i < j {
        assert(t[i] == dotted(y.spec_addr())[i]);
    }
    if j < i {
        assert(s[j] == dotted(x.spec_addr())[j]);
    }
    assert(s.take(i) =~= dotted(x.spec_addr()));
    assert(t.take(i) =~= dotted(y.spec_addr()));
    dotted_is_injective(x.spec_addr(), y.spec_addr());
    assert(s.skip(i + 1) =~= decimal(x.spec_prefix_len() as nat));
    assert(t.skip(i + 1) =~= decimal(y.spec_prefix_len() as nat));
    decimal_is_injective(x.spec_prefix_len() as nat, y.spec_prefix_len() as nat);
}

/// The dotted form of an address starts with a digit and holds no slash.
pub proof fn dotted_has_no_slash(addr: Ipv4Addr)
    ensures
        dotted(addr).len() > 0,
        is_digit(dotted(addr)[0]),
        forall|i: int| 0 <= i < dotted(addr).len() ==> #[trigger] dotted(addr)[i] != '/',
{
    reveal_strlit(".");
    let s = dotted(addr);
    let e = dots(addr);
    dotted_layout(addr);
    decimal_is_all_digits(addr.a as nat);
    assert(s[0] == decimal(addr.a as nat)[0]);
    assert forall|i: int| 0 <= i < s.len() implies #[trigger] s[i] != '/' by {
        assert(i == e.0 || i == e.1 || i == e.2 || is_digit(s[i]));
    }
}

/// A dotted form names its address octet by octet, in order: four plain
/// decimal numbers, the first octet first, with one dot between each two.
pub proof fn a_dotted_form_names_its_octets_in_order(addr: Ipv4Addr)
    ensures
        exists|a: Seq<char>, b: Seq<char>, c: Seq<char>, d: Seq<char>|
            #![trigger reads_as(a, addr.a as nat), reads_as(b, addr.b as nat), reads_as(c, addr.c as nat), reads_as(d, addr.d as nat)]
            {
                &&& reads_as(a, addr.a as nat)
                &&& reads_as(b, addr.b as nat)
                &&& reads_as(c, addr.c as nat)
                &&& reads_as(d, addr.d as nat)
                &&& dotted(addr) == a.push('.') + b.push('.') + c.push('.') + d
            },
{
    reveal_strlit(".");
    let a = decimal(addr.a as nat);
    let b = decimal(addr.b as nat);
    let c = decimal(addr.c as nat);
    let d = decimal(addr.d as nat);
    decimal_reads_back(addr.a as nat);
    decimal_reads_back(addr.b as nat);
    decimal_reads_back(addr.c as nat);
    decimal_reads_back(addr.d as nat);
    assert(dotted(addr) =~= a.push('.') + b.push('.') + c.push('.') + d);
}

/// The loopback addresses are the ones written with 127 in front.
pub proof fn loopback_is_written_127(addr: Ipv4Addr)
    ensures
        addr.loopback() <==> "127."@.is_prefix_of(dotted(addr)),
{
    reveal_strlit("127.");
    let s = dotted(addr);
    dotted_layout(addr);
    octet_decimal(addr.a as nat);
    octet_decimal(127);
    let a = decimal(addr.a as nat);
    assert(s.subrange(0, a.len() as int) =~= a);
    if addr.a == 127 {
        assert(a =~= seq!['1', '2', '7']);
        assert(s[0] == a[0] && s[1] == a[1] && s[2] == a[2]);
        assert("127."@ =~= s.subrange(0, 4));
    }
    if "127."@.is_prefix_of(s) {
        let p = s.subrange(0, 4);
        assert(p[0] == '1' && p[1] == '2' && p[2] == '7' && p[3] == '.');
        assert(s[0] == '1' && s[1] == '2' && s[2] == '7' && s[3] == '.');
        if a.len() < 3 {
            assert(s[a.len() as int] == '.');
        }
        assert(a.len() == 3);
        assert(a[0] == s[0] && a[1] == s[1] && a[2] == s[2]);
        assert(a =~= seq!['1', '2', '7']);
        assert(decimal(127) =~= seq!['1', '2', '7']);
        decimal_is_injective(addr.a as nat, 127);
    }
}

/// A network is written as its address, a slash, and the number of bits that
/// name it.
pub proof fn a_network_names_its_address_and_its_prefix(net: Ipv4Net)
    ensures
        exists|bits: Seq<char>| #[trigger]
            reads_as(bits, net.spec_prefix_len() as nat) && net.form() == dotted(
                net.spec_addr(),
            ).push('/') + bits,
{
    reveal_strlit("/");
    let bits = decimal(net.spec_prefix_len() as nat);
    decimal_reads_back(net.spec_prefix_len() as nat);
    assert(net.form() =~= dotted(net.spec_addr()).push('/') + bits);
}

} // verus!
