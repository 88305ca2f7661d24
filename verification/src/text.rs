use vstd::prelude::*;

verus! {

/// The decimal digit character of `d`, for `d` below ten.
pub open spec fn digit_char(d: nat) -> char {
    if d == 0 { '0' }
    else if d == 1 { '1' }
    else if d == 2 { '2' }
    else if d == 3 { '3' }
    else if d == 4 { '4' }
    else if d == 5 { '5' }
    else if d == 6 { '6' }
    else if d == 7 { '7' }
    else if d == 8 { '8' }
    else { '9' }
}

/// The decimal notation of `n`: no sign, no leading zeros, `0` for zero.
pub open spec fn decimal(n: nat) -> Seq<char>
    decreases n,
{
    if n < 10 {
        seq![digit_char(n)]
    } else {
        decimal(n / 10).push(digit_char(n % 10))
    }
}

/// `s` preceded by as many `0` characters as it takes to reach `width`.
pub open spec fn zero_padded(s: Seq<char>, width: nat) -> Seq<char> {
    if s.len() < width {
        Seq::new((width - s.len()) as nat, |i: int| '0') + s
    } else {
        s
    }
}

/// `s` centred in a field of `width` characters with spaces, the odd space
/// going to the right, as `format!("{:^width$}")` does.
pub open spec fn centered(s: Seq<char>, width: nat) -> Seq<char> {
    if s.len() < width {
        let pad = (width - s.len()) as nat;
        Seq::new(pad / 2, |i: int| ' ') + s + Seq::new((pad - pad / 2) as nat, |i: int| ' ')
    } else {
        s
    }
}

/// The decimal digits of `n`, most significant first, as numbers.
pub open spec fn digit_values(n: nat) -> Seq<usize>
    decreases n,
{
    if n < 10 {
        seq![n as usize]
    } else {
        digit_values(n / 10).push((n % 10) as usize)
    }
}

/// The decimal digits of `n` with a leading zero below ten: the digits that
/// `format!("{:02}")` writes.
pub open spec fn two_digit_values(n: nat) -> Seq<usize> {
    if n < 10 {
        seq![0usize, n as usize]
    } else {
        digit_values(n)
    }
}

/// Every decimal digit is below ten, and there is at least one.
pub proof fn lemma_digit_values(n: nat)
    ensures
        digit_values(n).len() >= 1,
        n >= 10 ==> digit_values(n).len() >= 2,
        forall|i: int| 0 <= i < digit_values(n).len() ==> #[trigger] digit_values(n)[i] < 10,
    decreases n,
{
    if n >= 10 {
        lemma_digit_values(n / 10);
    }
}

/// The one-character text of digit `d`.
fn digit_text(d: u64) -> (s: &'static str)
    requires
        d < 10,
    ensures
        s@ == seq![digit_char(d as nat)],
{
    proof {
        reveal_strlit("0");
        reveal_strlit("1");
        reveal_strlit("2");
        reveal_strlit("3");
        reveal_strlit("4");
        reveal_strlit("5");
        reveal_strlit("6");
        reveal_strlit("7");
        reveal_strlit("8");
        reveal_strlit("9");
    }
    match d {
        0 => "0",
        1 => "1",
        2 => "2",
        3 => "3",
        4 => "4",
        5 => "5",
        6 => "6",
        7 => "7",
        8 => "8",
        _ => "9",
    }
}

/// Appends the decimal notation of `n` to `s`.
fn append_decimal(s: &mut String, n: u64)
    ensures
        final(s)@ == old(s)@ + decimal(n as nat),
    decreases n,
{
    if n >= 10 {
        append_decimal(s, n / 10);
    }
    s.append(digit_text(n % 10));
    proof {
        assert(old(s)@ + decimal(n as nat) =~= s@);
    }
}

/// The decimal notation of `n`.
pub fn decimal_string(n: u64) -> (s: String)
    ensures
        s@ == decimal(n as nat),
{
    let mut s = String::new();
    append_decimal(&mut s, n);
    assert(s@ =~= decimal(n as nat));
    s
}

/// Appends the decimal digits of `n` to `digits`.
fn push_digit_values(digits: &mut Vec<usize>, n: u64)
    ensures
        final(digits)@ == old(digits)@ + digit_values(n as nat),
    decreases n,
{
    if n >= 10 {
        push_digit_values(digits, n / 10);
    }
    digits.push((n % 10) as usize);
    proof {
        assert(old(digits)@ + digit_values(n as nat) =~= digits@);
    }
}

/// The decimal digits of `n`, with a leading zero below ten.
pub fn two_digit_vec(n: u64) -> (digits: Vec<usize>)
    ensures
        digits@ == two_digit_values(n as nat),
{
    let mut digits: Vec<usize> = Vec::new();
    if n < 10 {
        digits.push(0);
    }
    push_digit_values(&mut digits, n);
    assert(digits@ =~= two_digit_values(n as nat));
    digits
}

/// The decimal notation of a number, padded with leading zeros to two
/// characters, as `format!("{:02}")` writes it.
pub fn two_digits(n: u64) -> (s: String)
    ensures
        s@ == zero_padded(decimal(n as nat), 2),
{
    let d = decimal_string(n);
    if d.unicode_len() < 2 {
        let mut s = String::new();
        s.append("0");
        s.append(d.as_str());
        proof {
            reveal_strlit("0");
            assert(s@ =~= zero_padded(decimal(n as nat), 2));
        }
        s
    } else {
        d
    }
}

/// Whether two strings hold the same characters in the same order.
pub fn str_equal(a: &str, b: &str) -> (r: bool)
    ensures
        r == (a@ == b@),
{
    let n = a.unicode_len();
    if n != b.unicode_len() {
        return false;
    }
    let mut i: usize = 0;
    while i < n
        invariant
            n == a@.len(),
            n == b@.len(),
            i <= n,
            forall|j: int| 0 <= j < i ==> a@[j] == b@[j],
        decreases n - i,
    {
        if a.get_char(i) != b.get_char(i) {
            return false;
        }
        i = i + 1;
    }
    assert(a@ =~= b@);
    true
}

} // verus!
