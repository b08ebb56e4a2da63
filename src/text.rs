use vstd::prelude::*;

verus! {

/// The ASCII digit character for `d < 10`.
pub open spec fn digit_char(d: nat) -> char {
    if d == 0 { '0' } else if d == 1 { '1' } else if d == 2 { '2' } else if d == 3 { '3' }
    else if d == 4 { '4' } else if d == 5 { '5' } else if d == 6 { '6' } else if d == 7 { '7' }
    else if d == 8 { '8' } else { '9' }
}

/// Decimal representation of `n`, without sign or leading zeros.
pub open spec fn decimal(n: nat) -> Seq<char>
    decreases n,
{
    if n < 10 {
        seq![digit_char(n)]
    } else {
        decimal(n / 10).push(digit_char(n % 10))
    }
}

fn digit_str(d: u64) -> (r: &'static str)
    requires
        d < 10,
    ensures
        r@ == seq![digit_char(d as nat)],
{
    proof {
        reveal_strlit("0");
        reveal_strlit("1");
        reveal_strlit("2");
        reveal_strlit("3");
        reveal_strlit("4");
        reveal_strlit("5");
        reveal_strlit("6");
        reveal_strlit("7");
        reveal_strlit("8");
        reveal_strlit("9");
    }
    let r = if d == 0 { "0" } else if d == 1 { "1" } else if d == 2 { "2" } else if d == 3 { "3" }
    else if d == 4 { "4" } else if d == 5 { "5" } else if d == 6 { "6" } else if d == 7 { "7" }
    else if d == 8 { "8" } else { "9" };
    assert(r@ =~= seq![digit_char(d as nat)]);
    r
}

/// Writes `n` in decimal.
pub fn decimal_string(n: u64) -> (r: String)
    ensures
        r@ == decimal(n as nat),
    decreases n,
{
    if n < 10 {
        String::from_str(digit_str(n))
    } else {
        let mut s = decimal_string(n / 10);
        s.append(digit_str(n % 10));
        assert(s@ =~= decimal(n as nat));
        s
    }
}

/// `c` is `l`, or its upper-case ASCII form.
pub open spec fn same_ignoring_case(c: char, l: char) -> bool {
    c == l || (65 <= c as u32 <= 90 && c as u32 + 32 == l as u32)
}

/// `s` begins with the lower-case text `p`, in any ASCII case.
pub open spec fn starts_ignoring_case(s: Seq<char>, p: Seq<char>) -> bool {
    s.len() >= p.len() && forall|i: int|
        0 <= i < p.len() ==> same_ignoring_case(#[trigger] s[i], p[i])
}

/// Whether `s` begins with the lower-case text `p`, in any ASCII case.
pub fn has_prefix_ignoring_case(s: &str, p: &str) -> (r: bool)
    ensures
        r == starts_ignoring_case(s@, p@),
{
    let n = p.unicode_len();
    if s.unicode_len() < n {
        return false;
    }
    let mut i: usize = 0;
    while i < n
        invariant
            n == p@.len(),
            n <= s@.len(),
            i <= n,
            forall|j: int| 0 <= j < i ==> same_ignoring_case(#[trigger] s@[j], p@[j]),
        decreases n - i,
    {
        let c = s.get_char(i);
        let l = p.get_char(i);
        let cu = c as u32;
        if !(c == l || (65 <= cu && cu <= 90 && cu + 32 == l as u32)) {
            return false;
        }
        i = i + 1;
    }
    true
}

} // verus!
