use vstd::prelude::*;

verus! {

/// Relies on `String::push` from std: it appends exactly one character at the
/// end of the string and changes nothing else.
pub assume_specification[ String::push ](s: &mut String, c: char)
    ensures
        final(s)@ == old(s)@ + seq![c],
;

/// The final `/`-delimited segment of `s`: the text after the last `/`, or all
/// of `s` when no `/` occurs in it. An `s` that ends in `/` has an empty final
/// segment.
pub open spec fn basename(s: Seq<char>) -> Seq<char>
    decreases s.len(),
{
    if s.len() == 0 {
        s
    } else if s.last() == '/' {
        Seq::<char>::empty()
    } else {
        basename(s.drop_last()) + seq![s.last()]
    }
}

/// Computes the final `/`-delimited segment of `s`.
pub fn last_segment(s: &str) -> (r: String)
    ensures
        r@ == basename(s@),
{
    let n = s.unicode_len();
    let mut cur = String::new();
    let mut i: usize = 0;
    proof {
        assert(s@.take(0) =~= Seq::<char>::empty());
    }
    while i < n
        invariant
            i <= n,
            n == s@.len(),
            cur@ == basename(s@.take(i as int)),
        decreases n - i,
    {
        let c = s.get_char(i);
        if c == '/' {
            cur = String::new();
        } else {
            cur.push(c);
        }
        proof {
            assert(s@.take(i + 1).drop_last() =~= s@.take(i as int));
            assert(s@.take(i + 1).last() == s@[i as int]);
        }
        i = i + 1;
    }
    proof {
        assert(s@.take(n as int) =~= s@);
    }
    cur
}

/// The decimal digit `d` as a character, for `d < 10`.
pub open spec fn digit_char(d: nat) -> char {
    if d == 0 {
        '0'
    } else if d == 1 {
        '1'
    } else if d == 2 {
        '2'
    } else if d == 3 {
        '3'
    } else if d == 4 {
        '4'
    } else if d == 5 {
        '5'
    } else if d == 6 {
        '6'
    } else if d == 7 {
        '7'
    } else if d == 8 {
        '8'
    } else {
        '9'
    }
}

/// The decimal digits of `n`, most significant first, without leading zeros
/// (a single `0` for zero itself).
pub open spec fn decimal(n: nat) -> Seq<char>
    decreases n,
{
    if n < 10 {
        seq![digit_char(n)]
    } else {
        decimal(n / 10) + seq![digit_char(n % 10)]
    }
}

fn digit_of(d: u16) -> (c: char)
    requires
        d < 10,
    ensures
        c == digit_char(d as nat),
{
    if d == 0 {
        '0'
    } else if d == 1 {
        '1'
    } else if d == 2 {
        '2'
    } else if d == 3 {
        '3'
    } else if d == 4 {
        '4'
    } else if d == 5 {
        '5'
    } else if d == 6 {
        '6'
    } else if d == 7 {
        '7'
    } else if d == 8 {
        '8'
    } else {
        '9'
    }
}

/// Renders `n` in decimal.
pub fn u16_decimal(n: u16) -> (r: String)
    ensures
        r@ == decimal(n as nat),
    decreases n,
{
    if n < 10 {
        let mut s = String::new();
        s.push(digit_of(n));
        s
    } else {
        let mut s = u16_decimal(n / 10);
        s.push(digit_of(n % 10));
        s
    }
}

} // verus!
