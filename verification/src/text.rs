//! Text helpers: decimal numbers, searching and joining, over the characters of a string.
use vstd::prelude::*;

verus! {

/// The digit character of `d`, for `d` below ten.
pub open spec fn digit_char(d: nat) -> char {
    (('0' as u32) + d) as char
}

/// Whether `c` is an ASCII digit.
pub open spec fn is_digit(c: char) -> bool {
    '0' <= c && c <= '9'
}

/// The decimal notation of `n`, without leading zeros.
pub open spec fn decimal(n: nat) -> Seq<char>
    decreases n,
{
    if n < 10 {
        seq![digit_char(n)]
    } else {
        decimal(n / 10).push(digit_char(n % 10))
    }
}

/// Whether every character of `s` is an ASCII digit.
pub open spec fn all_digits(s: Seq<char>) -> bool {
    forall|i: int| 0 <= i < s.len() ==> is_digit(#[trigger] s[i])
}

/// The number that a sequence of ASCII digits stands for.
pub open spec fn digits_value(s: Seq<char>) -> nat
    decreases s.len(),
{
    if s.len() == 0 {
        0
    } else {
        digits_value(s.drop_last()) * 10 + (s.last() as nat - '0' as nat) as nat
    }
}

/// `s` without one leading plus sign, if it has one.
pub open spec fn without_plus(s: Seq<char>) -> Seq<char> {
    if s.len() > 0 && s[0] == '+' {
        s.skip(1)
    } else {
        s
    }
}

/// The port number that `s` writes out: an optional plus sign and then digits only, with a
/// value of at most 65535.
pub open spec fn port_number(s: Seq<char>) -> Option<u16> {
    let body = without_plus(s);
    if body.len() > 0 && all_digits(body) && digits_value(body) <= 65535 {
        Some(digits_value(body) as u16)
    } else {
        None
    }
}

/// The characters of `s`.
pub fn chars_of(s: &str) -> (r: Vec<char>)
    ensures
        r@ == s@,
{
    let mut r: Vec<char> = Vec::new();
    for c in it: s.chars()
        invariant
            it.seq() == s@,
            r@ == s@.take(it.index()),
    {
        r.push(c);
        proof {
            assert(s@.take(it.index() + 1) =~= s@.take(it.index()).push(c));
        }
    }
    assert(s@.take(s@.len() as int) =~= s@);
    r
}

/// Whether two strings hold the same characters.
pub fn same_text(a: &str, b: &str) -> (r: bool)
    ensures
        r == (a@ == b@),
{
    a.to_owned() == b.to_owned()
}

/// Dropping digits from the end does not make the number larger.
proof fn lemma_digits_value_prefix(s: Seq<char>, i: int)
    requires
        all_digits(s),
        0 <= i <= s.len(),
    ensures
        digits_value(s.take(i)) <= digits_value(s),
    decreases s.len() - i,
{
    if i == s.len() {
        assert(s.take(i) =~= s);
    } else {
        lemma_digits_value_prefix(s, i + 1);
        assert(s.take(i + 1).drop_last() =~= s.take(i));
        assert(s.take(i + 1).last() == s[i]);
        assert(is_digit(s[i]));
    }
}

/// Read a port number: an optional plus sign, then digits only, at most 65535.
pub fn parse_port(s: &str) -> (r: Option<u16>)
    ensures
        r == port_number(s@),
{
    let cs: Vec<char> = chars_of(s);
    let start: usize = if cs.len() > 0 && cs[0] == '+' { 1 } else { 0 };
    let ghost body = without_plus(s@);
    assert(body =~= s@.skip(start as int));
    if start == cs.len() {
        return None;
    }
    let mut value: u32 = 0;
    let mut i: usize = start;
    while i < cs.len()
        invariant
            cs@ == s@,
            start <= i <= cs.len(),
            start < cs.len(),
            body == without_plus(s@),
            body == s@.skip(start as int),
            all_digits(body.take(i - start)),
            value == digits_value(body.take(i - start)),
            value <= 65535,
        decreases cs.len() - i,
    {
        let c: char = cs[i];
        let ghost k: int = i - start;
        assert(body[k] == c);
        if c < '0' || c > '9' {
            assert(!is_digit(body[k]));
            return None;
        }
        let d: u32 = c as u32 - '0' as u32;
        value = value * 10 + d;
        proof {
            assert(body.take(k + 1).drop_last() =~= body.take(k));
            assert(body.take(k + 1).last() == c);
            assert forall|j: int| 0 <= j < body.take(k + 1).len() implies is_digit(
                #[trigger] body.take(k + 1)[j],
            ) by {
                if j < k {
                    assert(body.take(k + 1)[j] == body.take(k)[j]);
                }
            }
        }
        if value > 65535 {
            proof {
                if all_digits(body) {
                    lemma_digits_value_prefix(body, k + 1);
                }
            }
            return None;
        }
        i = i + 1;
    }
    assert(body.take(body.len() as int) =~= body);
    Some(value as u16)
}

/// The string that holds the one digit `d`.
fn digit_text(d: u16) -> (r: &'static str)
    requires
        d < 10,
    ensures
        r@ == seq![digit_char(d as nat)],
{
    proof {
        reveal_strlit("0");
        reveal_strlit("1");
        reveal_strlit("2");
        reveal_strlit("3");
        reveal_strlit("4");
        reveal_strlit("5");
        reveal_strlit("6");
        reveal_strlit("7");
        reveal_strlit("8");
        reveal_strlit("9");
    }
    let r: &'static str = match d {
        0 => "0",
        1 => "1",
        2 => "2",
        3 => "3",
        4 => "4",
        5 => "5",
        6 => "6",
        7 => "7",
        8 => "8",
        _ => "9",
    };
    assert(r@ =~= seq![digit_char(d as nat)]);
    r
}

/// Write `n` in decimal notation.
pub fn decimal_text(n: u16) -> (r: String)
    ensures
        r@ == decimal(n as nat),
    decreases n,
{
    if n < 10 {
        digit_text(n).to_owned()
    } else {
        let mut r: String = decimal_text(n / 10);
        r.append(digit_text(n % 10));
        assert(r@ =~= decimal(n as nat));
        r
    }
}

/// A decimal notation is made of digits and stands for the number it was made from.
pub proof fn lemma_decimal_is_digits(n: nat)
    ensures
        decimal(n).len() > 0,
        all_digits(decimal(n)),
        digits_value(decimal(n)) == n,
    decreases n,
{
    if n < 10 {
        let s = seq![digit_char(n)];
        assert(s.drop_last() =~= Seq::<char>::empty());
        assert(s.last() == digit_char(n));
        assert(digits_value(s.drop_last()) == 0);
    } else {
        lemma_decimal_is_digits(n / 10);
        let s = decimal(n);
        assert(s.drop_last() =~= decimal(n / 10));
        assert forall|i: int| 0 <= i < s.len() implies is_digit(#[trigger] s[i]) by {
            if i < s.len() - 1 {
                assert(s[i] == decimal(n / 10)[i]);
            }
        }
    }
}

/// Reading back a written port number gives the number that was written.
pub proof fn port_number_reads_back(n: u16)
    ensures
        port_number(decimal(n as nat)) == Some(n),
{
    lemma_decimal_is_digits(n as nat);
    let s = decimal(n as nat);
    assert(is_digit(s[0]));
    assert(without_plus(s) == s);
}

/// `host:port`.
pub open spec fn host_and_port(host: Seq<char>, port: u16) -> Seq<char> {
    host + ":"@ + decimal(port as nat)
}

/// Join a host and a port with a colon.
pub fn join_host_port(host: &str, port: u16) -> (r: String)
    ensures
        r@ == host_and_port(host@, port),
{
    let mut r: String = host.to_owned();
    r.append(":");
    let p: String = decimal_text(port);
    r.append(p.as_str());
    r
}

/// The two strings, one after the other.
pub fn join(a: &str, b: &str) -> (r: String)
    ensures
        r@ == a@ + b@,
{
    let mut r: String = a.to_owned();
    r.append(b);
    r
}

/// A text that may be missing, or the empty one.
pub open spec fn or_empty(t: Option<Seq<char>>) -> Seq<char> {
    match t {
        Some(t) => t,
        None => Seq::empty(),
    }
}

/// The text, or the empty one.
pub fn text_or_empty(t: Option<String>) -> (r: String)
    ensures
        r@ == or_empty(t.deep_view()),
{
    match t {
        Some(t) => t,
        None => String::new(),
    }
}

/// Whether `pat` occurs in `s`.
pub open spec fn occurs_in(pat: Seq<char>, s: Seq<char>) -> bool {
    exists|i: int| occurs_at(pat, s, i)
}

/// Whether `pat` occurs in `s` at position `i`.
pub open spec fn occurs_at(pat: Seq<char>, s: Seq<char>, i: int) -> bool {
    0 <= i && i + pat.len() <= s.len() && s.subrange(i, i + pat.len()) == pat
}

/// Whether `pat` stands in `s` at position `i`.
fn matches_at(s: &Vec<char>, pat: &Vec<char>, i: usize) -> (r: bool)
    requires
        i + pat@.len() <= s@.len(),
    ensures
        r == occurs_at(pat@, s@, i as int),
{
    let len: usize = s.len();
    let mut k: usize = 0;
    while k < pat.len()
        invariant
            len == s@.len(),
            i + pat@.len() <= len,
            0 <= k <= pat.len(),
            forall|j: int| 0 <= j < k ==> s@[i + j] == pat@[j],
        decreases pat.len() - k,
    {
        if s[i + k] != pat[k] {
            assert(s@.subrange(i as int, i + pat@.len())[k as int] != pat@[k as int]);
            return false;
        }
        k = k + 1;
    }
    assert(s@.subrange(i as int, i + pat@.len()) =~= pat@);
    true
}

/// Whether `s` contains `pat`.
pub fn contains_text(s: &str, pat: &str) -> (r: bool)
    ensures
        r == occurs_in(pat@, s@),
{
    let cs: Vec<char> = chars_of(s);
    let ps: Vec<char> = chars_of(pat);
    if ps.len() > cs.len() {
        return false;
    }
    let last: usize = cs.len() - ps.len();
    let mut i: usize = 0;
    loop
        invariant
            cs@ == s@,
            ps@ == pat@,
            last == cs@.len() - ps@.len(),
            0 <= i <= last,
            forall|j: int| 0 <= j < i ==> !occurs_at(pat@, s@, j),
        decreases last - i,
    {
        if matches_at(&cs, &ps, i) {
            return true;
        }
        if i == last {
            return false;
        }
        i = i + 1;
    }
}

/// Whether `s` begins with `pat`.
pub fn starts_with_text(s: &str, pat: &str) -> (r: bool)
    ensures
        r == pat@.is_prefix_of(s@),
{
    let cs: Vec<char> = chars_of(s);
    let ps: Vec<char> = chars_of(pat);
    if ps.len() > cs.len() {
        return false;
    }
    matches_at(&cs, &ps, 0)
}

/// The part of `s` before the first `c`, or all of `s` if `c` does not occur.
pub open spec fn before_first(s: Seq<char>, c: char) -> Seq<char>
    decreases s.len(),
{
    if s.len() == 0 || s[0] == c {
        Seq::empty()
    } else {
        seq![s[0]] + before_first(s.skip(1), c)
    }
}

/// Cutting at the first occurrence: a prefix without `c` that ends the text or is followed by `c`.
proof fn lemma_before_first_at(s: Seq<char>, c: char, n: int)
    requires
        0 <= n <= s.len(),
        forall|i: int| 0 <= i < n ==> s[i] != c,
        n == s.len() || s[n] == c,
    ensures
        before_first(s, c) == s.take(n),
    decreases s.len(),
{
    if s.len() == 0 || s[0] == c {
        assert(s.take(n) =~= Seq::<char>::empty());
    } else {
        lemma_before_first_at(s.skip(1), c, n - 1);
        assert(s.take(n) =~= seq![s[0]] + s.skip(1).take(n - 1));
    }
}

/// The part of `s` before the first `c`.
pub fn text_before(s: &str, c: char) -> (r: &str)
    ensures
        r@ == before_first(s@, c),
{
    let cs: Vec<char> = chars_of(s);
    let mut n: usize = 0;
    while n < cs.len() && cs[n] != c
        invariant
            cs@ == s@,
            0 <= n <= cs.len(),
            forall|i: int| 0 <= i < n ==> s@[i] != c,
        decreases cs.len() - n,
    {
        n = n + 1;
    }
    proof {
        lemma_before_first_at(s@, c, n as int);
    }
    s.substring_char(0, n)
}

/// The part of `s` behind the first `c`, or nothing if `c` does not occur.
pub open spec fn after_first(s: Seq<char>, c: char) -> Seq<char> {
    let n = before_first(s, c).len();
    if n < s.len() {
        s.skip(n as int + 1)
    } else {
        Seq::empty()
    }
}

/// Whether `c` can stand in the name of a host: a letter, a digit, a hyphen or a dot.
pub open spec fn is_host_char(c: char) -> bool {
    ('a' <= c && c <= 'z') || ('A' <= c && c <= 'Z') || is_digit(c) || c == '-' || c == '.'
}

/// Whether `s` can be the name of a host.
pub open spec fn is_host_name(s: Seq<char>) -> bool {
    s.len() > 0 && forall|i: int| 0 <= i < s.len() ==> is_host_char(#[trigger] s[i])
}

/// Whether `s` is the name of a host, a colon and the digits of a port.
pub open spec fn is_host_and_port(s: Seq<char>) -> bool {
    let port = after_first(s, ':');
    is_host_name(before_first(s, ':')) && port_number(port) is Some && all_digits(port)
}

/// Whether `s` is the name of a host, a colon and the digits of a port.
pub fn names_host_and_port(s: &str) -> (r: bool)
    ensures
        r == is_host_and_port(s@),
{
    let cs: Vec<char> = chars_of(s);
    let mut n: usize = 0;
    while n < cs.len() && cs[n] != ':'
        invariant
            cs@ == s@,
            0 <= n <= cs.len(),
            forall|i: int| 0 <= i < n ==> s@[i] != ':' && is_host_char(#[trigger] s@[i]),
        decreases cs.len() - n,
    {
        let c: char = cs[n];
        if !(('a' <= c && c <= 'z') || ('A' <= c && c <= 'Z') || ('0' <= c && c <= '9') || c == '-'
            || c == '.') {
            proof {
                lemma_before_first_reaches(s@, ':', n as int);
            }
            return false;
        }
        n = n + 1;
    }
    proof {
        lemma_before_first_at(s@, ':', n as int);
    }
    if n == 0 || n == cs.len() {
        return false;
    }
    let port: &str = s.substring_char(n + 1, cs.len());
    assert(port@ =~= s@.skip(n + 1));
    match parse_port(port) {
        Some(_) => {
            let ps: Vec<char> = chars_of(port);
            if ps.len() == 0 || ps[0] == '+' {
                assert(ps@.len() > 0 ==> !is_digit(port@[0]));
                return false;
            }
            assert(without_plus(port@) == port@);
            true
        },
        None => false,
    }
}

/// The part before the first `c` goes on at least as long as `c` does not occur.
proof fn lemma_before_first_reaches(s: Seq<char>, c: char, n: int)
    requires
        0 <= n < s.len(),
        forall|i: int| 0 <= i <= n ==> s[i] != c,
    ensures
        n < before_first(s, c).len(),
        before_first(s, c)[n] == s[n],
    decreases s.len(),
{
    if n > 0 {
        lemma_before_first_reaches(s.skip(1), c, n - 1);
    }
}

/// A host and a port read as a host and a port.
pub proof fn host_and_port_reads_back(host: Seq<char>, port: u16)
    requires
        is_host_name(host),
    ensures
        is_host_and_port(host_and_port(host, port)),
        before_first(host_and_port(host, port), ':') == host,
        after_first(host_and_port(host, port), ':') == decimal(port as nat),
{
    reveal_strlit(":");
    let s = host_and_port(host, port);
    port_number_reads_back(port);
    lemma_decimal_is_digits(port as nat);
    assert forall|i: int| 0 <= i < host.len() implies s[i] != ':' by {
        assert(is_host_char(host[i]));
        assert(s[i] == host[i]);
    }
    lemma_before_first_at(s, ':', host.len() as int);
    assert(s.take(host.len() as int) =~= host);
    assert(s.skip(host.len() as int + 1) =~= decimal(port as nat));
}

/// `String::from_utf8`: the string whose UTF-8 encoding `bytes` is, if they are valid UTF-8.
#[verifier::external_body]
pub(crate) fn string_from_utf8(bytes: Vec<u8>) -> (r: Option<String>)
    ensures
        match r {
            Some(s) => vstd::utf8::valid_utf8(bytes@) && s@ == vstd::utf8::decode_utf8(bytes@),
            None => !vstd::utf8::valid_utf8(bytes@),
        },
{
    String::from_utf8(bytes).ok()
}

/// A text of digits is read from left to right: each further digit makes ten times what stood
/// before it, and adds its own value.
pub proof fn digits_are_read_in_base_ten(s: Seq<char>, c: char)
    requires
        '0' <= c && c <= '9',
    ensures
        digits_value(Seq::empty()) == 0,
        digits_value(s.push(c)) == 10 * digits_value(s) + (c as int - '0' as int),
{
    assert(s.push(c).drop_last() =~= s);
}

/// A decimal notation consists of the characters `0` to `9`, has no leading zero unless it is that
/// of a single digit, and reads as the number.
pub proof fn decimal_is_the_shortest_notation(n: nat)
    ensures
        decimal(n).len() > 0,
        forall|i: int|
            0 <= i < decimal(n).len() ==> '0' <= #[trigger] decimal(n)[i] && decimal(n)[i] <= '9',
        decimal(n).len() > 1 ==> decimal(n)[0] != '0',
        digits_value(decimal(n)) == n,
    decreases n,
{
    lemma_decimal_is_digits(n);
    assert forall|i: int| 0 <= i < decimal(n).len() implies '0' <= #[trigger] decimal(n)[i]
        && decimal(n)[i] <= '9' by {
        assert(is_digit(decimal(n)[i]));
    }
    if n >= 10 {
        decimal_is_the_shortest_notation(n / 10);
        assert(decimal(n)[0] == decimal(n / 10)[0]);
        if n / 10 < 10 {
            assert(decimal(n / 10)[0] == digit_char(n / 10));
            assert(digit_char(n / 10) as nat == '0' as nat + n / 10);
        } else {
            lemma_decimal_is_digits(n / 10 / 10);
            assert(decimal(n / 10).len() > 1);
        }
    }
}

/// A text is a port number if and only if it consists of digits, behind at most one plus sign, that
/// stand for at most 65535; it is then the number that they stand for.
pub proof fn port_numbers_are_digits(s: Seq<char>, digits: Seq<char>)
    requires
        s == digits || s == seq!['+'] + digits,
        digits.len() > 0 ==> digits[0] != '+',
    ensures
        port_number(s) is Some <==> digits.len() > 0 && digits_value(digits) <= 65535 && (forall|
            i: int,
        |
            0 <= i < digits.len() ==> '0' <= #[trigger] digits[i] && digits[i] <= '9'),
        port_number(s) matches Some(p) ==> p == digits_value(digits),
{
    if s == seq!['+'] + digits {
        assert(s[0] == '+');
        assert(s.skip(1) =~= digits);
    }
    assert(without_plus(s) == digits);
    assert(all_digits(digits) <==> (forall|i: int|
        0 <= i < digits.len() ==> '0' <= #[trigger] digits[i] && digits[i] <= '9')) by {
        if all_digits(digits) {
            assert forall|i: int| 0 <= i < digits.len() implies '0' <= #[trigger] digits[i]
                && digits[i] <= '9' by {
                assert(is_digit(digits[i]));
            }
        }
    }
}

/// A host and a port are joined by one colon: the host stands in front of it, and the decimal
/// notation of the port behind it.
pub proof fn host_and_port_are_joined_by_a_colon(host: Seq<char>, port: u16)
    ensures
        host_and_port(host, port) == host + seq![':'] + decimal(port as nat),
{
    reveal_strlit(":");
    assert(":"@ =~= seq![':']);
}

/// A text falls apart at the first `c`: in front of it `c` does not occur, and what stands in front
/// of it, the `c` and what stands behind it make up the text. A text without `c` is all in front.
pub proof fn texts_fall_apart_at_the_first(s: Seq<char>, c: char)
    ensures
        !before_first(s, c).contains(c),
        s.contains(c) ==> s == before_first(s, c) + seq![c] + after_first(s, c),
        !s.contains(c) ==> before_first(s, c) == s && after_first(s, c).len() == 0,
    decreases s.len(),
{
    if s.len() == 0 {
        assert(before_first(s, c) =~= s);
    } else if s[0] == c {
        assert(s.contains(c));
        assert(before_first(s, c) =~= Seq::<char>::empty());
        assert(s =~= Seq::<char>::empty() + seq![c] + s.skip(1));
    } else {
        let rest = s.skip(1);
        texts_fall_apart_at_the_first(rest, c);
        let front = before_first(rest, c);
        assert(before_first(s, c) =~= seq![s[0]] + front);
        assert forall|i: int| 0 <= i < before_first(s, c).len() implies before_first(s, c)[i]
            != c by {
            if i > 0 {
                assert(before_first(s, c)[i] == front[i - 1]);
                assert(front.contains(front[i - 1]));
            }
        }
        if s.contains(c) {
            let i = choose|i: int| 0 <= i < s.len() && s[i] == c;
            assert(rest[i - 1] == c);
            assert(rest == front + seq![c] + after_first(rest, c));
            assert(after_first(s, c) =~= after_first(rest, c));
            assert(s =~= seq![s[0]] + rest);
            assert(s =~= before_first(s, c) + seq![c] + after_first(s, c));
        } else {
            assert forall|i: int| 0 <= i < rest.len() implies rest[i] != c by {
                assert(s[i + 1] != c);
            }
            assert(before_first(s, c) =~= s);
        }
    }
}

/// A text occurs in another if and only if the other is that text with something, or nothing, in
/// front of it and behind it.
pub proof fn occurring_is_being_a_part(pat: Seq<char>, s: Seq<char>, front: Seq<char>, back: Seq<char>)
    ensures
        occurs_in(pat, front + pat + back),
        occurs_in(pat, s) ==> exists|a: Seq<char>, b: Seq<char>| s == #[trigger] (a + pat + b),
{
    let whole = front + pat + back;
    let n = front.len() as int;
    assert(whole.subrange(n, n + pat.len()) =~= pat);
    assert(occurs_at(pat, whole, n));
    if occurs_in(pat, s) {
        let i = choose|i: int| occurs_at(pat, s, i);
        let a = s.take(i);
        let b = s.skip(i + pat.len());
        assert(s =~= a + pat + b);
    }
}

/// What is a host name and a port consists of letters, digits, hyphens and dots, at least one of
/// them, then a colon, and then digits only that are a port number.
pub proof fn host_and_port_is_a_name_and_digits(s: Seq<char>)
    requires
        is_host_and_port(s),
    ensures
        exists|host: Seq<char>, digits: Seq<char>|
            {
                &&& s == #[trigger] (host + seq![':'] + digits)
                &&& host.len() > 0
                &&& forall|i: int|
                    0 <= i < host.len() ==> {
                        let c = #[trigger] host[i];
                        ('a' <= c && c <= 'z') || ('A' <= c && c <= 'Z') || ('0' <= c && c <= '9')
                            || c == '-' || c == '.'
                    }
                &&& digits.len() > 0
                &&& forall|i: int|
                    0 <= i < digits.len() ==> '0' <= #[trigger] digits[i] && digits[i] <= '9'
                &&& digits_value(digits) <= 65535
            },
{
    let host = before_first(s, ':');
    let digits = after_first(s, ':');
    texts_fall_apart_at_the_first(s, ':');
    assert(digits.len() > 0) by {
        if digits.len() == 0 {
            assert(without_plus(digits).len() == 0);
        }
    }
    assert(is_digit(digits[0]));
    assert(without_plus(digits) == digits);
    assert forall|i: int| 0 <= i < digits.len() implies '0' <= #[trigger] digits[i] && digits[i]
        <= '9' by {
        assert(is_digit(digits[i]));
    }
    assert forall|i: int| 0 <= i < host.len() implies ({
        let c = #[trigger] host[i];
        ('a' <= c && c <= 'z') || ('A' <= c && c <= 'Z') || ('0' <= c && c <= '9') || c == '-' || c
            == '.'
    }) by {
        assert(is_host_char(host[i]));
    }
    assert(s == host + seq![':'] + digits);
}

/// A name of letters, digits, hyphens and dots, a colon and the digits of a number up to 65535 are
/// a host name and a port.
pub proof fn name_and_digits_are_host_and_port(host: Seq<char>, digits: Seq<char>)
    requires
        host.len() > 0,
        forall|i: int|
            0 <= i < host.len() ==> {
                let c = #[trigger] host[i];
                ('a' <= c && c <= 'z') || ('A' <= c && c <= 'Z') || ('0' <= c && c <= '9') || c
                    == '-' || c == '.'
            },
        digits.len() > 0,
        forall|i: int| 0 <= i < digits.len() ==> '0' <= #[trigger] digits[i] && digits[i] <= '9',
        digits_value(digits) <= 65535,
    ensures
        is_host_and_port(host + seq![':'] + digits),
{
    let s = host + seq![':'] + digits;
    assert forall|i: int| 0 <= i < host.len() implies s[i] != ':' && is_host_char(
        #[trigger] host[i],
    ) by {
        assert(s[i] == host[i]);
    }
    lemma_before_first_at(s, ':', host.len() as int);
    assert(before_first(s, ':') =~= host);
    assert(after_first(s, ':') =~= digits);
    assert(digits[0] != '+');
    assert forall|i: int| 0 <= i < digits.len() implies is_digit(#[trigger] digits[i]) by {}
    assert(all_digits(digits));
}

/// A text that is there is kept, and a missing one is empty.
pub proof fn missing_text_is_empty(t: Seq<char>)
    ensures
        or_empty(Some(t)) == t,
        or_empty(None).len() == 0,
{
}

/// A number is written in the shortest decimal notation, a host and a port are joined by one colon,
/// and a text is cut in front of the first occurrence of a character.
pub proof fn texts_are_written_and_cut(
    n: u16,
    written: String,
    host: &str,
    joined: String,
    s: &str,
    c: char,
    front: &str,
    read: Option<u16>,
)
    requires
        call_ensures(decimal_text, (n,), written),
        call_ensures(join_host_port, (host, n), joined),
        call_ensures(text_before, (s, c), front),
        call_ensures(parse_port, (s,), read),
    ensures
        digits_value(written@) == n,
        written@.len() > 1 ==> written@[0] != '0',
        joined@ == host@ + seq![':'] + written@,
        !front@.contains(c),
        front@.is_prefix_of(s@),
        front@.len() < s@.len() ==> s@[front@.len() as int] == c,
        s@ == written@ ==> read == Some(n),
{
    decimal_is_the_shortest_notation(n as nat);
    host_and_port_are_joined_by_a_colon(host@, n);
    texts_fall_apart_at_the_first(s@, c);
    port_number_reads_back(n);
    if s@.contains(c) {
        let back = after_first(s@, c);
        assert(s@ == front@ + seq![c] + back);
        assert(front@.is_prefix_of(s@));
    }
}

} // verus!
