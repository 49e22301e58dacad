use vstd::prelude::*;

verus! {

/// The character that writes the decimal digit `d`.
pub open spec fn digit_char(d: nat) -> char
    recommends
        d < 10,
{
    seq!['0', '1', '2', '3', '4', '5', '6', '7', '8', '9'][d as int]
}

/// Decimal notation of `n`, without sign or leading zeros.
pub open spec fn decimal_text(n: nat) -> Seq<char>
    decreases n,
{
    if n < 10 {
        seq![digit_char(n)]
    } else {
        decimal_text(n / 10).push(digit_char(n % 10))
    }
}

/// The values of `w` in decimal, separated by `", "`.
pub open spec fn items_text(w: Seq<u32>) -> Seq<char>
    decreases w.len(),
{
    if w.len() == 0 {
        Seq::empty()
    } else if w.len() == 1 {
        decimal_text(w[0] as nat)
    } else {
        items_text(w.drop_last()) + seq![',', ' '] + decimal_text(w.last() as nat)
    }
}

/// A list of values written as `[a, b, c]`.
pub open spec fn list_text(w: Seq<u32>) -> Seq<char> {
    seq!['['] + items_text(w) + seq![']']
}

/// Whether `c` is an ASCII decimal digit.
pub open spec fn is_digit(c: char) -> bool {
    '0' <= c && c <= '9'
}

/// The value of an ASCII digit.
pub open spec fn digit_value(c: char) -> nat {
    (c as u32 - '0' as u32) as nat
}

/// The number written by the digits `d`, most significant first.
pub open spec fn digits_value(d: Seq<char>) -> nat
    decreases d.len(),
{
    if d.len() == 0 {
        0
    } else {
        digits_value(d.drop_last()) * 10 + digit_value(d.last())
    }
}

/// The digits of an unsigned number, once an optional leading `+` is removed.
pub open spec fn unsigned_body(s: Seq<char>) -> Seq<char> {
    if s.len() > 0 && s[0] == '+' {
        s.drop_first()
    } else {
        s
    }
}

/// The value of `s` read as an unsigned 32-bit decimal number (an optional `+`, then
/// at least one digit), or `None` where it is no such number or does not fit.
pub open spec fn unsigned_of(s: Seq<char>) -> Option<u32> {
    let body = unsigned_body(s);
    if body.len() > 0 && (forall|i: int| 0 <= i < body.len() ==> is_digit(body[i]))
        && digits_value(body) <= u32::MAX {
        Some(digits_value(body) as u32)
    } else {
        None
    }
}

/// The unit that ends a network rate.
pub open spec fn rate_suffix() -> Seq<char> {
    seq![' ', 'M', 'B', '/', 's']
}

/// The value of a network rate written `"<number> MB/s"`, or `None` where `s` is
/// not of that form.
pub open spec fn rate_of(s: Seq<char>) -> Option<u32> {
    if s.len() >= 5 && s.subrange(s.len() - 5, s.len() as int) == rate_suffix() {
        unsigned_of(s.subrange(0, s.len() - 5))
    } else {
        None
    }
}

/// Whether `needle` occurs as a contiguous part of `hay`.
pub open spec fn contains_seq(hay: Seq<char>, needle: Seq<char>) -> bool {
    exists|i: int|
        0 <= i && i + needle.len() <= hay.len() && #[trigger] hay.subrange(i, i + needle.len())
            == needle
}

fn append_digit(s: &mut String, d: u128)
    requires
        d < 10,
    ensures
        final(s)@ == old(s)@.push(digit_char(d as nat)),
{
    let lit: &str = if d == 0 {
        "0"
    } else if d == 1 {
        "1"
    } else if d == 2 {
        "2"
    } else if d == 3 {
        "3"
    } else if d == 4 {
        "4"
    } else if d == 5 {
        "5"
    } else if d == 6 {
        "6"
    } else if d == 7 {
        "7"
    } else if d == 8 {
        "8"
    } else {
        "9"
    };
    proof {
        reveal_strlit("0");
        reveal_strlit("1");
        reveal_strlit("2");
        reveal_strlit("3");
        reveal_strlit("4");
        reveal_strlit("5");
        reveal_strlit("6");
        reveal_strlit("7");
        reveal_strlit("8");
        reveal_strlit("9");
    }
    assert(lit@ =~= seq![digit_char(d as nat)]);
    s.append(lit);
}

/// Appends the decimal notation of `n` to `s`.
pub fn append_decimal(s: &mut String, n: u128)
    ensures
        final(s)@ == old(s)@ + decimal_text(n as nat),
    decreases n,
{
    if n < 10 {
        append_digit(s, n);
        assert(final(s)@ =~= old(s)@ + decimal_text(n as nat));
    } else {
        append_decimal(s, n / 10);
        append_digit(s, n % 10);
        assert(final(s)@ =~= old(s)@ + decimal_text(n as nat));
    }
}

/// Appends `w` written as a list, `[a, b, c]`, to `s`.
pub fn append_list(s: &mut String, w: &Vec<u32>)
    ensures
        final(s)@ == old(s)@ + list_text(w@),
{
    proof {
        reveal_strlit("[");
        reveal_strlit("]");
        reveal_strlit(", ");
    }
    s.append("[");
    let ghost start = s@;
    let mut i: usize = 0;
    while i < w.len()
        invariant
            i <= w@.len(),
            start == old(s)@ + seq!['['],
            s@ == start + items_text(w@.subrange(0, i as int)),
        decreases w@.len() - i,
    {
        let ghost prev = w@.subrange(0, i as int);
        if i > 0 {
            proof {
                reveal_strlit(", ");
            }
            s.append(", ");
            assert(", "@ =~= seq![',', ' ']);
        }
        append_decimal(s, w[i] as u128);
        let ghost next = w@.subrange(0, i + 1);
        assert(next.drop_last() =~= prev);
        assert(next.last() == w@[i as int]);
        i = i + 1;
        assert(s@ =~= start + items_text(next));
    }
    assert(w@.subrange(0, w@.len() as int) =~= w@);
    s.append("]");
    assert(s@ =~= old(s)@ + list_text(w@));
}

/// The characters of `s`, in order.
pub fn chars_of(s: &str) -> (r: Vec<char>)
    ensures
        r@ == s@,
{
    let n = s.unicode_len();
    let mut out: Vec<char> = Vec::new();
    let mut i: usize = 0;
    while i < n
        invariant
            n == s@.len(),
            i <= n,
            out@ == s@.subrange(0, i as int),
        decreases n - i,
    {
        out.push(s.get_char(i));
        i = i + 1;
        assert(out@ =~= s@.subrange(0, i as int));
    }
    assert(out@ =~= s@);
    out
}

/// Whether `needle` occurs as a contiguous part of `hay`.
pub fn seq_contains(hay: &Vec<char>, needle: &Vec<char>) -> (r: bool)
    ensures
        r == contains_seq(hay@, needle@),
{
    if needle.len() == 0 {
        assert(hay@.subrange(0, 0int + needle@.len()) =~= needle@);
        return true;
    }
    if needle.len() > hay.len() {
        assert(!contains_seq(hay@, needle@));
        return false;
    }
    let hl = hay.len();
    let last = hl - needle.len();
    let mut i: usize = 0;
    while i <= last
        invariant
            last == hay@.len() - needle@.len(),
            needle@.len() > 0,
            needle@.len() <= hay@.len(),
            hl == hay@.len(),
            i <= last + 1,
            forall|k: int| 0 <= k < i ==> #[trigger] hay@.subrange(k, k + needle@.len()) != needle@,
        decreases last + 1 - i,
    {
        let mut j: usize = 0;
        let mut same = true;
        while j < needle.len() && same
            invariant
                i <= last,
                last == hay@.len() - needle@.len(),
                needle@.len() <= hay@.len(),
                hl == hay@.len(),
                j <= needle@.len(),
                same ==> forall|m: int| 0 <= m < j ==> hay@[i + m] == needle@[m],
                !same ==> hay@[i + j - 1] != needle@[j - 1] && j > 0,
            decreases needle@.len() - j + (if same { 1int } else { 0int }),
        {
            if hay[i + j] != needle[j] {
                same = false;
            }
            j = j + 1;
        }
        if same {
            assert(hay@.subrange(i as int, i + needle@.len()) =~= needle@);
            return true;
        }
        assert(hay@.subrange(i as int, i + needle@.len())[j - 1] != needle@[j - 1]);
        i = i + 1;
    }
    assert forall|k: int|
        0 <= k && k + needle@.len() <= hay@.len() implies #[trigger] hay@.subrange(
        k,
        k + needle@.len(),
    ) != needle@ by {
        assert(k < i);
    }
    false
}

/// Reads a network rate written `"<number> MB/s"`; `None` where `s` has another form
/// or the number does not fit in 32 bits.
pub fn parse_network_rate(s: &str) -> (r: Option<u32>)
    ensures
        r == rate_of(s@),
{
    let cs = chars_of(s);
    let n = cs.len();
    if n < 5 || cs[n - 5] != ' ' || cs[n - 4] != 'M' || cs[n - 3] != 'B' || cs[n - 2] != '/'
        || cs[n - 1] != 's' {
        proof {
            if s@.len() >= 5 {
                if s@.subrange(s@.len() - 5, s@.len() as int) == rate_suffix() {
                    assert(s@.subrange(s@.len() - 5, s@.len() as int)[0] == ' ');
                    assert(s@.subrange(s@.len() - 5, s@.len() as int)[1] == 'M');
                    assert(s@.subrange(s@.len() - 5, s@.len() as int)[2] == 'B');
                    assert(s@.subrange(s@.len() - 5, s@.len() as int)[3] == '/');
                    assert(s@.subrange(s@.len() - 5, s@.len() as int)[4] == 's');
                }
            }
        }
        return None;
    }
    assert(s@.subrange(s@.len() - 5, s@.len() as int) =~= rate_suffix());
    let ghost num = s@.subrange(0, n - 5);
    let end = n - 5;
    let mut start: usize = 0;
    if end > 0 && cs[0] == '+' {
        start = 1;
    }
    let ghost body = unsigned_body(num);
    assert(body =~= cs@.subrange(start as int, end as int));
    assert(rate_of(s@) == unsigned_of(num));
    if start == end {
        return None;
    }
    let cap: u64 = 0x1_0000_0000;
    let mut acc: u64 = 0;
    let mut i: usize = start;
    while i < end
        invariant
            start <= i <= end,
            end <= cs@.len(),
            body == cs@.subrange(start as int, end as int),
            body == unsigned_body(num),
            rate_of(s@) == unsigned_of(num),
            cap == 0x1_0000_0000u64,
            forall|k: int| start <= k < i ==> is_digit(cs@[k]),
            acc as nat == if digits_value(cs@.subrange(start as int, i as int)) < cap {
                digits_value(cs@.subrange(start as int, i as int))
            } else {
                cap as nat
            },
        decreases end - i,
    {
        let c = cs[i];
        if c < '0' || c > '9' {
            assert(!is_digit(body[i - start]));
            return None;
        }
        let d = (c as u32 - '0' as u32) as u64;
        let ghost prev = cs@.subrange(start as int, i as int);
        let ghost next = cs@.subrange(start as int, i + 1);
        assert(next.drop_last() =~= prev);
        assert(digits_value(next) == digits_value(prev) * 10 + d);
        if acc >= cap {
            assert(digits_value(next) >= cap) by (nonlinear_arith)
                requires
                    digits_value(next) == digits_value(prev) * 10 + d,
                    digits_value(prev) >= cap,
            ;
        } else {
            let v = acc * 10 + d;
            if v >= cap {
                acc = cap;
            } else {
                acc = v;
            }
        }
        i = i + 1;
    }
    assert(cs@.subrange(start as int, end as int) == body);
    if acc >= cap {
        None
    } else {
        Some(acc as u32)
    }
}

} // verus!
