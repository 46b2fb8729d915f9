//! Character-level helpers shared by the configuration code: decimal
//! numbers in both directions, ASCII case folding and splitting.
use vstd::prelude::*;
use vstd::string::*;

verus! {

/// Whether `c` is one of the ASCII digits `0`..`9`.
pub open spec fn is_digit(c: char) -> bool {
    '0' <= c && c <= '9'
}

/// The numeric value of an ASCII digit.
pub open spec fn digit_value(c: char) -> nat {
    ((c as u32) - ('0' as u32)) as nat
}

/// Whether every character of `s` is an ASCII digit.
pub open spec fn all_digits(s: Seq<char>) -> bool {
    forall|i: int| 0 <= i < s.len() ==> #[trigger] is_digit(s[i])
}

/// The value of a string of decimal digits, most significant first.
pub open spec fn digits_value(s: Seq<char>) -> nat
    decreases s.len(),
{
    if s.len() == 0 {
        0
    } else {
        digits_value(s.drop_last()) * 10 + digit_value(s.last())
    }
}

/// The part of a number's text that holds its digits: an optional leading
/// `+` is dropped.
pub open spec fn unsigned_body(s: Seq<char>) -> Seq<char> {
    if s.len() > 0 && s[0] == '+' {
        s.drop_first()
    } else {
        s
    }
}

/// How an unsigned integer type of the given maximum reads its decimal text:
/// an optional `+`, then at least one digit and nothing else, and a value
/// that fits.
pub open spec fn spec_parse_unsigned(s: Seq<char>, max: nat) -> Option<nat> {
    let body = unsigned_body(s);
    if body.len() > 0 && all_digits(body) && digits_value(body) <= max {
        Some(digits_value(body))
    } else {
        None
    }
}

/// The character of a digit value below ten.
pub open spec fn digit_char(d: nat) -> char {
    if d == 0 { '0' }
    else if d == 1 { '1' }
    else if d == 2 { '2' }
    else if d == 3 { '3' }
    else if d == 4 { '4' }
    else if d == 5 { '5' }
    else if d == 6 { '6' }
    else if d == 7 { '7' }
    else if d == 8 { '8' }
    else { '9' }
}

/// The shortest decimal text of `n`, with no sign and no leading zero.
pub open spec fn decimal(n: nat) -> Seq<char>
    decreases n,
{
    if n < 10 {
        seq![digit_char(n)]
    } else {
        decimal(n / 10) + seq![digit_char(n % 10)]
    }
}

/// ASCII lowercase of a single character; other characters stay as they are.
pub open spec fn lower_char(c: char) -> char {
    if 'A' <= c && c <= 'Z' {
        ((c as u32) + 32) as char
    } else {
        c
    }
}

/// ASCII lowercase of a whole string.
pub open spec fn ascii_lower(s: Seq<char>) -> Seq<char> {
    Seq::new(s.len(), |i: int| lower_char(s[i]))
}

/// `k` is the position of the first `c` in `s`.
pub open spec fn is_first(s: Seq<char>, c: char, k: int) -> bool {
    0 <= k < s.len() && s[k] == c && forall|j: int| 0 <= j < k ==> s[j] != c
}

/// `k` is the position of the last `c` in `s`.
pub open spec fn is_last(s: Seq<char>, c: char, k: int) -> bool {
    0 <= k < s.len() && s[k] == c && forall|j: int| k < j < s.len() ==> s[j] != c
}

/// The position of the first `c` in `s`, if any.
pub open spec fn find_first(s: Seq<char>, c: char) -> Option<int> {
    if exists|k: int| is_first(s, c, k) {
        Some(choose|k: int| is_first(s, c, k))
    } else {
        None
    }
}

/// The position of the last `c` in `s`, if any.
pub open spec fn find_last(s: Seq<char>, c: char) -> Option<int> {
    if exists|k: int| is_last(s, c, k) {
        Some(choose|k: int| is_last(s, c, k))
    } else {
        None
    }
}

/// The pieces of `s` between the occurrences of `c`, as `str::split` gives
/// them: always at least one piece, possibly empty ones.
pub open spec fn split_on(s: Seq<char>, c: char) -> Seq<Seq<char>>
    decreases s.len(),
{
    match find_first(s, c) {
        Some(k) => if 0 <= k < s.len() {
            seq![s.take(k)] + split_on(s.skip(k + 1), c)
        } else {
            seq![s]
        },
        None => seq![s],
    }
}

/// Whether `c` occurs in `s`.
pub open spec fn has_char(s: Seq<char>, c: char) -> bool {
    exists|k: int| 0 <= k < s.len() && s[k] == c
}

proof fn lemma_first_unique(s: Seq<char>, c: char, k: int)
    requires
        is_first(s, c, k),
    ensures
        find_first(s, c) == Some(k),
{
    let k2 = choose|k: int| is_first(s, c, k);
    assert(is_first(s, c, k2));
    if k2 < k {
        assert(s[k2] != c);
    } else if k < k2 {
        assert(s[k] != c);
    }
}

proof fn lemma_last_unique(s: Seq<char>, c: char, k: int)
    requires
        is_last(s, c, k),
    ensures
        find_last(s, c) == Some(k),
{
    let k2 = choose|k: int| is_last(s, c, k);
    assert(is_last(s, c, k2));
    if k2 < k {
        assert(s[k] != c);
    } else if k < k2 {
        assert(s[k2] != c);
    }
}

/// Finds the first `c` in `s`.
pub fn index_of_first(s: &str, c: char) -> (r: Option<usize>)
    ensures
        match r {
            Some(k) => find_first(s@, c) == Some(k as int),
            None => find_first(s@, c) is None && !has_char(s@, c),
        },
{
    let n = s.unicode_len();
    let mut i: usize = 0;
    while i < n
        invariant
            i <= n,
            n == s@.len(),
            forall|j: int| 0 <= j < i ==> s@[j] != c,
        decreases n - i,
    {
        if s.get_char(i) == c {
            proof {
                lemma_first_unique(s@, c, i as int);
            }
            return Some(i);
        }
        i = i + 1;
    }
    assert(!exists|k: int| is_first(s@, c, k));
    None
}

/// Finds the last `c` in `s`.
pub fn index_of_last(s: &str, c: char) -> (r: Option<usize>)
    ensures
        match r {
            Some(k) => find_last(s@, c) == Some(k as int),
            None => find_last(s@, c) is None && !has_char(s@, c),
        },
{
    let n = s.unicode_len();
    let mut i: usize = n;
    while i > 0
        invariant
            i <= n,
            n == s@.len(),
            forall|j: int| i <= j < n ==> s@[j] != c,
        decreases i,
    {
        if s.get_char(i - 1) == c {
            proof {
                lemma_last_unique(s@, c, i - 1);
            }
            return Some(i - 1);
        }
        i = i - 1;
    }
    assert(!exists|k: int| is_last(s@, c, k));
    None
}

/// Splits `s` at every `c`, as `str::split` does.
pub fn split_str(s: &str, c: char) -> (r: Vec<String>)
    ensures
        r@.map_values(|x: String| x@) == split_on(s@, c),
        r@.len() >= 1,
    decreases s@.len(),
{
    let n = s.unicode_len();
    match index_of_first(s, c) {
        Some(k) => {
            let head = String::from_str(s.substring_char(0, k));
            let rest = s.substring_char(k + 1, n);
            let tail = split_str(rest, c);
            let mut r: Vec<String> = Vec::new();
            r.push(head);
            let mut i: usize = 0;
            while i < tail.len()
                invariant
                    i <= tail@.len(),
                    r@.len() == i + 1,
                    r@[0]@ == s@.take(k as int),
                    forall|j: int| 0 <= j < i ==> r@[j + 1]@ == tail@[j]@,
                decreases tail@.len() - i,
            {
                r.push(tail[i].clone());
                i = i + 1;
            }
            assert(rest@ =~= s@.skip(k + 1));
            assert(r@.map_values(|x: String| x@) =~= seq![s@.take(k as int)] + tail@.map_values(
                |x: String| x@,
            ));
            r
        },
        None => {
            let mut r: Vec<String> = Vec::new();
            r.push(String::from_str(s));
            assert(r@.map_values(|x: String| x@) =~= seq![s@]);
            r
        },
    }
}

proof fn lemma_digit_char(d: nat)
    requires
        d < 10,
    ensures
        is_digit(digit_char(d)),
        digit_value(digit_char(d)) == d,
        digit_char(d) != '+',
{
}

/// The decimal text of a number is made of digits, is never empty, and its
/// value is the number.
pub proof fn lemma_decimal(n: nat)
    ensures
        decimal(n).len() > 0,
        all_digits(decimal(n)),
        digits_value(decimal(n)) == n,
        decimal(n)[0] != '+',
    decreases n,
{
    if n < 10 {
        lemma_digit_char(n);
        let s = decimal(n);
        assert(s.drop_last() =~= Seq::<char>::empty());
        assert(s.last() == digit_char(n));
        assert(digits_value(s.drop_last()) == 0);
        assert(digits_value(s) == digits_value(s.drop_last()) * 10 + digit_value(s.last()));
    } else {
        lemma_decimal(n / 10);
        lemma_digit_char(n % 10);
        let s = decimal(n);
        assert(s.drop_last() =~= decimal(n / 10));
        assert(s.last() == digit_char(n % 10));
        assert(digits_value(s) == digits_value(decimal(n / 10)) * 10 + digit_value(s.last()));
        assert((n / 10) * 10 + n % 10 == n);
        assert forall|i: int| 0 <= i < s.len() implies #[trigger] is_digit(s[i]) by {
            if i < decimal(n / 10).len() {
                assert(s[i] == decimal(n / 10)[i]);
            }
        }
    }
}

/// Reading back the decimal text of a number gives the number, for every
/// number that fits the type read into.
pub proof fn lemma_parse_decimal(n: nat, max: nat)
    requires
        n <= max,
    ensures
        spec_parse_unsigned(decimal(n), max) == Some(n),
{
    lemma_decimal(n);
}

/// Reads the decimal text of an unsigned integer no larger than `max`, the
/// way the standard library's `from_str` for unsigned integers does.
pub fn parse_unsigned(s: &str, max: u64) -> (r: Option<u64>)
    ensures
        match r {
            Some(v) => spec_parse_unsigned(s@, max as nat) == Some(v as nat),
            None => spec_parse_unsigned(s@, max as nat) is None,
        },
{
    let n = s.unicode_len();
    let mut start: usize = 0;
    if n > 0 && s.get_char(0) == '+' {
        start = 1;
    }
    let ghost body = unsigned_body(s@);
    assert(body =~= s@.subrange(start as int, n as int));
    if start >= n {
        return None;
    }
    let mut value: u64 = 0;
    let mut too_big: bool = false;
    let mut i: usize = start;
    while i < n
        invariant
            start <= i <= n,
            n == s@.len(),
            start < n,
            body == unsigned_body(s@),
            body =~= s@.subrange(start as int, n as int),
            all_digits(body.take(i - start)),
            !too_big ==> value == digits_value(body.take(i - start)),
            !too_big ==> value <= max,
            too_big ==> digits_value(body.take(i - start)) > max,
        decreases n - i,
    {
        let c = s.get_char(i);
        if !('0' <= c && c <= '9') {
            assert(body[i - start] == c);
            assert(!is_digit(body[i - start]));
            assert(!all_digits(body));
            return None;
        }
        let ghost prev = body.take(i - start);
        let ghost next = body.take(i - start + 1);
        assert(next.drop_last() =~= prev);
        assert(next.last() == c);
        assert(all_digits(next)) by {
            assert forall|k: int| 0 <= k < next.len() implies #[trigger] is_digit(next[k]) by {
                if k < prev.len() {
                    assert(next[k] == prev[k]);
                }
            }
        }
        let d: u64 = (c as u32 - '0' as u32) as u64;
        if !too_big {
            if d > max || value > (max - d) / 10 {
                too_big = true;
                assert(value * 10 + d > max) by (nonlinear_arith)
                    requires
                        d > max || value > (max - d) / 10,
                        d <= 9,
                ;
            } else {
                assert(value * 10 + d <= max) by (nonlinear_arith)
                    requires
                        d <= max,
                        value <= (max - d) / 10,
                        d <= 9,
                ;
                value = value * 10 + d;
            }
        } else {
            assert(digits_value(next) >= digits_value(prev)) by (nonlinear_arith)
                requires
                    digits_value(next) == digits_value(prev) * 10 + digit_value(c),
            ;
        }
        i = i + 1;
    }
    assert(body.take(n - start) =~= body);
    if too_big {
        None
    } else {
        Some(value)
    }
}

/// The one-character text of a digit value below ten.
fn digit_str(d: u64) -> (r: &'static str)
    requires
        d < 10,
    ensures
        r@ == seq![digit_char(d as nat)],
{
    proof {
        reveal_strlit("0");
        reveal_strlit("1");
        reveal_strlit("2");
        reveal_strlit("3");
        reveal_strlit("4");
        reveal_strlit("5");
        reveal_strlit("6");
        reveal_strlit("7");
        reveal_strlit("8");
        reveal_strlit("9");
    }
    if d == 0 { "0" }
    else if d == 1 { "1" }
    else if d == 2 { "2" }
    else if d == 3 { "3" }
    else if d == 4 { "4" }
    else if d == 5 { "5" }
    else if d == 6 { "6" }
    else if d == 7 { "7" }
    else if d == 8 { "8" }
    else { "9" }
}

/// Writes `n` in decimal, as the standard library's `Display` for unsigned
/// integers does.
pub fn fmt_unsigned(n: u64) -> (r: String)
    ensures
        r@ == decimal(n as nat),
    decreases n,
{
    if n < 10 {
        String::from_str(digit_str(n))
    } else {
        let mut r = fmt_unsigned(n / 10);
        r.append(digit_str(n % 10));
        r
    }
}

/// Whether the ASCII lowercase of `s` is exactly `lit`.
pub fn lower_eq(s: &str, lit: &str) -> (r: bool)
    ensures
        r == (ascii_lower(s@) =~= lit@),
{
    let n = s.unicode_len();
    let m = lit.unicode_len();
    if n != m {
        return false;
    }
    let mut i: usize = 0;
    while i < n
        invariant
            i <= n,
            n == s@.len(),
            m == lit@.len(),
            n == m,
            forall|k: int| 0 <= k < i ==> lower_char(s@[k]) == lit@[k],
        decreases n - i,
    {
        let c = s.get_char(i);
        let d = lit.get_char(i);
        let lc = if 'A' <= c && c <= 'Z' {
            ((c as u8) + 32) as char
        } else {
            c
        };
        assert(lc == lower_char(c));
        if lc != d {
            assert(ascii_lower(s@)[i as int] != lit@[i as int]);
            return false;
        }
        i = i + 1;
    }
    assert(ascii_lower(s@) =~= lit@);
    true
}

/// Whether two strings hold the same characters.
pub fn str_eq(a: &str, b: &str) -> (r: bool)
    ensures
        r == (a@ == b@),
{
    let n = a.unicode_len();
    if n != b.unicode_len() {
        return false;
    }
    let mut i: usize = 0;
    while i < n
        invariant
            i <= n,
            n == a@.len(),
            n == b@.len(),
            forall|k: int| 0 <= k < i ==> a@[k] == b@[k],
        decreases n - i,
    {
        if a.get_char(i) != b.get_char(i) {
            return false;
        }
        i = i + 1;
    }
    assert(a@ =~= b@);
    true
}

/// `s` ends with `suffix`.
pub open spec fn has_suffix(s: Seq<char>, suffix: Seq<char>) -> bool {
    s.len() >= suffix.len() && s.skip(s.len() - suffix.len()) == suffix
}

/// Whether `s` ends with `suffix`.
pub fn ends_with(s: &str, suffix: &str) -> (r: bool)
    ensures
        r == has_suffix(s@, suffix@),
{
    let n = s.unicode_len();
    let m = suffix.unicode_len();
    if n < m {
        return false;
    }
    let tail = s.substring_char(n - m, n);
    assert(tail@ =~= s@.skip(n - m));
    str_eq(tail, suffix)
}

/// The pieces of `list` with `sep` between each two of them.
pub open spec fn join(list: Seq<Seq<char>>, sep: Seq<char>) -> Seq<char>
    decreases list.len(),
{
    if list.len() == 0 {
        Seq::empty()
    } else if list.len() == 1 {
        list[0]
    } else {
        join(list.drop_last(), sep) + sep + list.last()
    }
}

/// Joins the strings of `list` with `sep` between each two of them.
pub fn join_strings(list: &Vec<String>, sep: &str) -> (r: String)
    ensures
        r@ == join(list@.map_values(|x: String| x@), sep@),
{
    let ghost parts = list@.map_values(|x: String| x@);
    let mut r = String::new();
    let mut i: usize = 0;
    while i < list.len()
        invariant
            i <= list@.len(),
            parts == list@.map_values(|x: String| x@),
            r@ == join(parts.take(i as int), sep@),
        decreases list@.len() - i,
    {
        assert(parts.take(i + 1).drop_last() =~= parts.take(i as int));
        assert(parts.take(i + 1).last() == list@[i as int]@);
        if i == 0 {
            assert(parts.take(0) =~= Seq::<Seq<char>>::empty());
            r.append(list[i].as_str());
            assert(r@ =~= join(parts.take(1), sep@));
        } else {
            r.append(sep);
            r.append(list[i].as_str());
        }
        i = i + 1;
    }
    assert(parts.take(list@.len() as int) =~= parts);
    r
}

} // verus!
