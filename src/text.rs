use vstd::prelude::*;
use vstd::string::*;

verus! {

/// The character of a decimal digit.
pub open spec fn digit_char(d: nat) -> char {
    if d == 0 { '0' }
    else if d == 1 { '1' }
    else if d == 2 { '2' }
    else if d == 3 { '3' }
    else if d == 4 { '4' }
    else if d == 5 { '5' }
    else if d == 6 { '6' }
    else if d == 7 { '7' }
    else if d == 8 { '8' }
    else { '9' }
}

/// The decimal digits of `n`, most significant first, without leading zeros.
pub open spec fn decimal_of(n: nat) -> Seq<char>
    decreases n,
{
    if n < 10 {
        seq![digit_char(n)]
    } else {
        decimal_of(n / 10) + seq![digit_char(n % 10)]
    }
}

/// `n` in decimal, left-padded with zeros to at least `width` characters.
pub open spec fn zero_padded(n: nat, width: nat) -> Seq<char> {
    let d = decimal_of(n);
    if d.len() >= width {
        d
    } else {
        Seq::new((width - d.len()) as nat, |i: int| '0') + d
    }
}

/// Ten to the power `k`.
pub open spec fn pow10(k: nat) -> nat
    decreases k,
{
    if k == 0 { 1 } else { 10 * pow10((k - 1) as nat) }
}

/// The fixed-point number `n / 10^places` written with exactly `places` decimals.
pub open spec fn fixed_point(n: nat, places: nat) -> Seq<char> {
    decimal_of(n / pow10(places)) + seq!['.'] + zero_padded(n % pow10(places), places)
}

/// `n` spaces.
pub open spec fn spaces(n: nat) -> Seq<char> {
    Seq::new(n, |i: int| ' ')
}

/// The first `n` characters of `s`, or all of `s` when it is shorter.
pub open spec fn prefix_of(s: Seq<char>, n: nat) -> Seq<char> {
    if s.len() <= n { s } else { s.subrange(0, n as int) }
}

fn digit_str(d: u64) -> (r: &'static str)
    requires
        d < 10,
    ensures
        r@ == seq![digit_char(d as nat)],
{
    proof {
        reveal_strlit("0");
        reveal_strlit("1");
        reveal_strlit("2");
        reveal_strlit("3");
        reveal_strlit("4");
        reveal_strlit("5");
        reveal_strlit("6");
        reveal_strlit("7");
        reveal_strlit("8");
        reveal_strlit("9");
    }
    let r = if d == 0 { "0" }
    else if d == 1 { "1" }
    else if d == 2 { "2" }
    else if d == 3 { "3" }
    else if d == 4 { "4" }
    else if d == 5 { "5" }
    else if d == 6 { "6" }
    else if d == 7 { "7" }
    else if d == 8 { "8" }
    else { "9" };
    assert(r@ =~= seq![digit_char(d as nat)]);
    r
}

/// Writes `n` in decimal.
pub fn decimal(n: u64) -> (r: String)
    ensures
        r@ == decimal_of(n as nat),
    decreases n,
{
    if n < 10 {
        String::from_str(digit_str(n))
    } else {
        let mut s = decimal(n / 10);
        s.append(digit_str(n % 10));
        s
    }
}

/// Writes `n` in decimal, padded on the left with zeros to `width` characters.
pub fn zero_pad(n: u64, width: usize) -> (r: String)
    ensures
        r@ == zero_padded(n as nat, width as nat),
{
    let d = decimal(n);
    let len = d.as_str().unicode_len();
    if len >= width {
        d
    } else {
        let mut s = String::new();
        let mut k: usize = 0;
        while k < width - len
            invariant
                k <= width - len,
                s@ =~= Seq::new(k as nat, |i: int| '0'),
            decreases width - len - k,
        {
            proof {
                reveal_strlit("0");
            }
            s.append("0");
            k = k + 1;
        }
        s.append(d.as_str());
        s
    }
}

/// Writes `n` spaces.
pub fn blanks(n: usize) -> (r: String)
    ensures
        r@ == spaces(n as nat),
{
    let mut s = String::new();
    let mut k: usize = 0;
    while k < n
        invariant
            k <= n,
            s@ =~= spaces(k as nat),
        decreases n - k,
    {
        proof {
            reveal_strlit(" ");
        }
        s.append(" ");
        k = k + 1;
    }
    s
}

proof fn lemma_pow10_fits(k: nat)
    requires
        k <= 19,
    ensures
        1 <= pow10(k) <= 10_000_000_000_000_000_000,
        pow10(k + 1) == 10 * pow10(k),
    decreases 19 - k,
{
    if k < 19 {
        lemma_pow10_fits(k + 1);
    } else {
        reveal_with_fuel(pow10, 20);
    }
}

/// Writes `n / 10^places` with exactly `places` decimals; `10^places` must fit
/// in a `u64`.
pub fn fixed_point_text(n: u64, places: usize) -> (r: String)
    requires
        places <= 19,
    ensures
        r@ == fixed_point(n as nat, places as nat),
{
    let mut p: u64 = 1;
    let mut k: usize = 0;
    while k < places
        invariant
            k <= places <= 19,
            p == pow10(k as nat),
        decreases places - k,
    {
        proof {
            lemma_pow10_fits(k as nat);
            lemma_pow10_fits((k + 1) as nat);
        }
        p = p * 10;
        k = k + 1;
    }
    proof {
        lemma_pow10_fits(places as nat);
    }
    let mut s = decimal(n / p);
    proof {
        reveal_strlit(".");
    }
    s.append(".");
    let f = zero_pad(n % p, places);
    s.append(f.as_str());
    assert(s@ =~= fixed_point(n as nat, places as nat));
    s
}

/// `s` centred in `width` columns: the padding split in two, the extra space
/// on the right.
pub open spec fn centered(s: Seq<char>, width: nat) -> Seq<char> {
    if s.len() >= width {
        s
    } else {
        let pad = (width - s.len()) as nat;
        spaces(pad / 2) + s + spaces((pad - pad / 2) as nat)
    }
}

/// `s` left-aligned in `width` columns.
pub open spec fn left_aligned(s: Seq<char>, width: nat) -> Seq<char> {
    if s.len() >= width { s } else { s + spaces((width - s.len()) as nat) }
}

/// Centres `s` in `width` columns.
pub fn center(s: &str, width: usize) -> (r: String)
    ensures
        r@ == centered(s@, width as nat),
{
    let len = s.unicode_len();
    if len >= width {
        String::from_str(s)
    } else {
        let pad = width - len;
        let mut r = blanks(pad / 2);
        r.append(s);
        let right = blanks(pad - pad / 2);
        r.append(right.as_str());
        r
    }
}

/// Left-aligns `s` in `width` columns.
pub fn left(s: &str, width: usize) -> (r: String)
    ensures
        r@ == left_aligned(s@, width as nat),
{
    let len = s.unicode_len();
    let mut r = String::from_str(s);
    if len < width {
        let right = blanks(width - len);
        r.append(right.as_str());
    }
    r
}

/// The first `n` characters of `s`.
pub fn prefix(s: &str, n: usize) -> (r: String)
    ensures
        r@ == prefix_of(s@, n as nat),
{
    let len = s.unicode_len();
    if len <= n {
        String::from_str(s)
    } else {
        String::from_str(s.substring_char(0, n))
    }
}

} // verus!
