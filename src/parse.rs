//! Decimal path parameters, read as `str::parse` reads `u16` and `i32`: an
//! optional sign (`+`, or `-` for signed numbers), then one or more ASCII
//! digits, with a value that fits the type.
use vstd::prelude::*;

verus! {

pub open spec fn is_digit(b: u8) -> bool {
    48 <= b <= 57
}

pub open spec fn all_digits(s: Seq<u8>) -> bool {
    forall|i: int| 0 <= i < s.len() ==> is_digit(#[trigger] s[i])
}

/// The value of a string of digits, most significant first.
pub open spec fn digits_value(s: Seq<u8>) -> nat
    decreases s.len(),
{
    if s.len() == 0 {
        0
    } else {
        digits_value(s.drop_last()) * 10 + (s.last() as int - 48) as nat
    }
}

/// The value of `s` where it is one or more digits with a value at most `limit`.
pub open spec fn bounded_digits(s: Seq<u8>, limit: nat) -> Option<nat> {
    if s.len() > 0 && all_digits(s) && digits_value(s) <= limit {
        Some(digits_value(s))
    } else {
        None
    }
}

/// `u16` as `str::parse` reads it.
pub open spec fn parsed_u16(s: Seq<u8>) -> Option<u16> {
    let d = if s.len() > 0 && s[0] == 43 {
        s.drop_first()
    } else {
        s
    };
    match bounded_digits(d, u16::MAX as nat) {
        Some(v) => Some(v as u16),
        None => None,
    }
}

/// `i32` as `str::parse` reads it.
pub open spec fn parsed_i32(s: Seq<u8>) -> Option<i32> {
    if s.len() > 0 && s[0] == 45 {
        match bounded_digits(s.drop_first(), 0x8000_0000) {
            Some(v) => Some((0 - v) as i32),
            None => None,
        }
    } else {
        let d = if s.len() > 0 && s[0] == 43 {
            s.drop_first()
        } else {
            s
        };
        match bounded_digits(d, i32::MAX as nat) {
            Some(v) => Some(v as i32),
            None => None,
        }
    }
}

proof fn lemma_digits_value_grows(s: Seq<u8>, j: int)
    requires
        all_digits(s),
        0 <= j <= s.len(),
    ensures
        digits_value(s.subrange(0, j)) <= digits_value(s),
    decreases s.len(),
{
    if j < s.len() {
        let t = s.drop_last();
        assert(t.subrange(0, j) =~= s.subrange(0, j));
        lemma_digits_value_grows(t, j);
    } else {
        assert(s.subrange(0, j) =~= s);
    }
}

/// The digits in `b[from..to]`, where they are one or more with a value at
/// most `limit`.
fn read_digits(b: &[u8], from: usize, to: usize, limit: u64) -> (r: Option<u64>)
    requires
        from <= to <= b@.len(),
        limit <= 0x1_0000_0000,
    ensures
        r == (match bounded_digits(b@.subrange(from as int, to as int), limit as nat) {
            Some(v) => Some(v as u64),
            None => None::<u64>,
        }),
{
    let ghost s = b@.subrange(from as int, to as int);
    if from == to {
        return None;
    }
    let mut acc: u64 = 0;
    let mut i: usize = from;
    while i < to
        invariant
            from <= i <= to <= b@.len(),
            s == b@.subrange(from as int, to as int),
            all_digits(b@.subrange(from as int, i as int)),
            acc as nat == digits_value(b@.subrange(from as int, i as int)),
            acc <= limit,
            limit <= 0x1_0000_0000,
        decreases to - i,
    {
        let c = b[i];
        let ghost prefix = b@.subrange(from as int, i as int);
        let ghost next = b@.subrange(from as int, i + 1);
        assert(next.drop_last() =~= prefix);
        assert(s[i - from] == c);
        if c < 48 || c > 57 {
            return None;
        }
        assert(all_digits(next));
        let v = acc * 10 + (c - 48) as u64;
        if v > limit {
            proof {
                if all_digits(s) {
                    assert(s.subrange(0, i + 1 - from) =~= next);
                    lemma_digits_value_grows(s, i + 1 - from);
                }
            }
            return None;
        }
        acc = v;
        i = i + 1;
    }
    assert(b@.subrange(from as int, i as int) =~= s);
    Some(acc)
}

/// `b[from..to]` read as a `u16`.
pub fn parse_u16(b: &[u8], from: usize, to: usize) -> (r: Option<u16>)
    requires
        from <= to <= b@.len(),
    ensures
        r == parsed_u16(b@.subrange(from as int, to as int)),
{
    let ghost s = b@.subrange(from as int, to as int);
    let mut start = from;
    if from < to && b[from] == 43 {
        start = from + 1;
        assert(s.drop_first() =~= b@.subrange(start as int, to as int));
    } else {
        assert(s =~= b@.subrange(start as int, to as int));
    }
    match read_digits(b, start, to, 0xffff) {
        Some(v) => Some(v as u16),
        None => None,
    }
}

/// `b[from..to]` read as an `i32`.
pub fn parse_i32(b: &[u8], from: usize, to: usize) -> (r: Option<i32>)
    requires
        from <= to <= b@.len(),
    ensures
        r == parsed_i32(b@.subrange(from as int, to as int)),
{
    let ghost s = b@.subrange(from as int, to as int);
    if from < to && b[from] == 45 {
        assert(s.drop_first() =~= b@.subrange(from + 1, to as int));
        match read_digits(b, from + 1, to, 0x8000_0000) {
            Some(v) => Some((0i64 - v as i64) as i32),
            None => None,
        }
    } else {
        let mut start = from;
        if from < to && b[from] == 43 {
            start = from + 1;
            assert(s.drop_first() =~= b@.subrange(start as int, to as int));
        } else {
            assert(s =~= b@.subrange(start as int, to as int));
        }
        match read_digits(b, start, to, 0x7fff_ffff) {
            Some(v) => Some(v as i32),
            None => None,
        }
    }
}

} // verus!
