//! Reading numbers and fields out of ASCII text, given as bytes.

use vstd::prelude::*;

verus! {

pub const DOT: u8 = 46u8;

pub const PLUS: u8 = 43u8;

/// The value of a digit in the given radix, if the byte is one: `0-9`, and for
/// radix 16 also `a-f` and `A-F`.
pub open spec fn spec_digit(b: u8, radix: nat) -> Option<nat> {
    if 48 <= b <= 57 {
        Some((b - 48) as nat)
    } else if radix == 16 && 97 <= b <= 102 {
        Some((b - 87) as nat)
    } else if radix == 16 && 65 <= b <= 70 {
        Some((b - 55) as nat)
    } else {
        None
    }
}

/// Whether every byte is a digit of the radix.
pub open spec fn all_digits(s: Seq<u8>, radix: nat) -> bool {
    forall|i: int| 0 <= i < s.len() ==> (#[trigger] spec_digit(s[i], radix)) is Some
}

/// The number that a run of digits writes, most significant digit first.
pub open spec fn digits_value(s: Seq<u8>, radix: nat) -> nat
    decreases s.len(),
{
    if s.len() == 0 {
        0
    } else {
        digits_value(s.drop_last(), radix) * radix + spec_digit(s.last(), radix).unwrap()
    }
}

/// The text without one leading plus sign.
pub open spec fn strip_plus(s: Seq<u8>) -> Seq<u8> {
    if s.len() > 0 && s[0] == PLUS {
        s.drop_first()
    } else {
        s
    }
}

/// The unsigned number that a text writes: an optional plus sign, then one or
/// more digits of the radix, with a value of at most `max`. `None` for any other
/// text.
pub open spec fn spec_parse_number(s: Seq<u8>, radix: nat, max: nat) -> Option<nat> {
    let d = strip_plus(s);
    if d.len() > 0 && all_digits(d, radix) && digits_value(d, radix) <= max {
        Some(digits_value(d, radix))
    } else {
        None
    }
}

/// Length of the text before its first dot; the whole length where it has none.
pub open spec fn spec_find_dot(s: Seq<u8>) -> nat
    decreases s.len(),
{
    if s.len() == 0 || s[0] == DOT {
        0
    } else {
        1 + spec_find_dot(s.drop_first())
    }
}

/// The fields of a text that dots separate. A text without a dot is one field;
/// fields may be empty.
pub open spec fn spec_split_dots(s: Seq<u8>) -> Seq<Seq<u8>>
    decreases s.len(),
{
    let d = spec_find_dot(s) as int;
    if d >= s.len() {
        seq![s]
    } else {
        seq![s.take(d)] + spec_split_dots(s.skip(d + 1))
    }
}

pub proof fn lemma_find_dot_bound(s: Seq<u8>)
    ensures
        spec_find_dot(s) <= s.len(),
    decreases s.len(),
{
    if s.len() == 0 || s[0] == DOT {
    } else {
        lemma_find_dot_bound(s.drop_first());
    }
}

/// The first dot is where a dot-free prefix ends.
pub proof fn lemma_find_dot_at(s: Seq<u8>, k: int)
    requires
        0 <= k <= s.len(),
        forall|i: int| 0 <= i < k ==> s[i] != DOT,
        k == s.len() || s[k] == DOT,
    ensures
        spec_find_dot(s) == k,
    decreases s.len(),
{
    if k == 0 {
    } else {
        let t = s.drop_first();
        assert forall|i: int| 0 <= i < k - 1 implies t[i] != DOT by {
            assert(t[i] == s[i + 1]);
        }
        lemma_find_dot_at(t, k - 1);
    }
}

/// A run of digits is worth at least as much as any of its prefixes.
pub proof fn lemma_digits_value_prefix(s: Seq<u8>, radix: nat, k: int)
    requires
        0 <= k <= s.len(),
        all_digits(s, radix),
        radix >= 1,
    ensures
        digits_value(s.take(k), radix) <= digits_value(s, radix),
    decreases s.len() - k,
{
    if k == s.len() {
        assert(s.take(k) =~= s);
    } else {
        lemma_digits_value_prefix(s, radix, k + 1);
        let t = s.take(k + 1);
        assert(t.drop_last() =~= s.take(k));
        assert(spec_digit(t.last(), radix) is Some);
        let v = digits_value(s.take(k), radix);
        assert(v * radix >= v) by (nonlinear_arith)
            requires
                radix >= 1,
                v >= 0,
        ;
    }
}

/// The value of a digit, or `None` if the byte is no digit of the radix.
pub fn digit(b: u8, radix: u32) -> (d: Option<u32>)
    requires
        radix == 10 || radix == 16,
    ensures
        match spec_digit(b, radix as nat) {
            Some(v) => d == Some(v as u32) && v < radix,
            None => d is None,
        },
{
    if b >= 48 && b <= 57 {
        Some((b - 48) as u32)
    } else if radix == 16 && b >= 97 && b <= 102 {
        Some((b - 87) as u32)
    } else if radix == 16 && b >= 65 && b <= 70 {
        Some((b - 55) as u32)
    } else {
        None
    }
}

/// Index of the first dot at or after `from`; the length where there is none.
pub fn find_dot(bytes: &[u8], from: usize) -> (at: usize)
    requires
        from <= bytes.len(),
    ensures
        from <= at <= bytes.len(),
        at - from == spec_find_dot(bytes@.skip(from as int)),
{
    let mut i: usize = from;
    while i < bytes.len() && bytes[i] != DOT
        invariant
            from <= i <= bytes.len(),
            forall|j: int| from <= j < i ==> bytes[j] != DOT,
        decreases bytes.len() - i,
    {
        i += 1;
    }
    proof {
        lemma_find_dot_at(bytes@.skip(from as int), i - from);
    }
    i
}

/// Reads the unsigned number written in `bytes[from..to]`.
pub fn parse_number(bytes: &[u8], from: usize, to: usize, radix: u32, max: u32) -> (n: Option<u32>)
    requires
        from <= to <= bytes.len(),
        radix == 10 || radix == 16,
    ensures
        match spec_parse_number(bytes@.subrange(from as int, to as int), radix as nat, max as nat) {
            Some(v) => n == Some(v as u32),
            None => n is None,
        },
{
    let ghost text = bytes@.subrange(from as int, to as int);
    let start: usize = if from < to && bytes[from] == PLUS {
        from + 1
    } else {
        from
    };
    let ghost run = bytes@.subrange(start as int, to as int);
    proof {
        assert(run =~= strip_plus(text));
    }
    if start == to {
        return None;
    }
    let mut acc: u64 = 0;
    let mut i: usize = start;
    while i < to
        invariant
            start <= i <= to <= bytes.len(),
            radix == 10 || radix == 16,
            from <= start,
            run == bytes@.subrange(start as int, to as int),
            run == strip_plus(bytes@.subrange(from as int, to as int)),
            all_digits(run.take(i - start), radix as nat),
            acc == digits_value(run.take(i - start), radix as nat),
            acc <= max,
        decreases to - i,
    {
        let ghost k = i - start;
        match digit(bytes[i], radix) {
            None => {
                proof {
                    assert(run[k] == bytes[i as int]);
                    assert(!all_digits(run, radix as nat));
                }
                return None;
            },
            Some(d) => {
                proof {
                    let t = run.take(k + 1);
                    assert(t.drop_last() =~= run.take(k));
                    assert(t.last() == bytes[i as int]);
                    assert forall|j: int| 0 <= j < t.len() implies (#[trigger] spec_digit(
                        t[j],
                        radix as nat,
                    )) is Some by {
                        if j < k {
                            assert(run.take(k)[j] == t[j]);
                        }
                    }
                    assert(acc * radix <= 0xFFFF_FFFF * 16) by (nonlinear_arith)
                        requires
                            acc <= 0xFFFF_FFFF,
                            radix <= 16,
                    ;
                }
                let next: u64 = acc * (radix as u64) + (d as u64);
                if next > max as u64 {
                    proof {
                        if all_digits(run, radix as nat) {
                            lemma_digits_value_prefix(run, radix as nat, k + 1);
                        }
                    }
                    return None;
                }
                acc = next;
            },
        }
        i += 1;
    }
    proof {
        assert(run.take(to - start) =~= run);
    }
    Some(acc as u32)
}

} // verus!
