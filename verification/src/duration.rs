//! Parsing of the probe tool's duration output.
//!
//! The probe prints the source duration in seconds as a decimal number,
//! for instance `3600.004000`, possibly surrounded by whitespace.  The
//! parser turns that text into whole milliseconds, truncating below the
//! millisecond.  Accepted, after trimming, is a non-empty run of digits
//! with at most one decimal point and at least one digit; the integer
//! part is capped at sixteen digits so the millisecond value always fits
//! in a `u64`.  Anything else is reported as invalid probe data.

use vstd::prelude::*;

use crate::gateway::{invalid_data, GatewayError};

verus! {

/// Whitespace as the probe may print it around the number.
pub open spec fn is_space(b: u8) -> bool {
    b == 32 || b == 9 || b == 10 || b == 13
}

/// An ASCII decimal digit.
pub open spec fn is_digit(b: u8) -> bool {
    48 <= b && b <= 57
}

/// The byte sequence with leading whitespace removed.
pub open spec fn trim_start(s: Seq<u8>) -> Seq<u8>
    decreases s.len(),
{
    if s.len() > 0 && is_space(s.first()) {
        trim_start(s.drop_first())
    } else {
        s
    }
}

/// The byte sequence with trailing whitespace removed.
pub open spec fn trim_end(s: Seq<u8>) -> Seq<u8>
    decreases s.len(),
{
    if s.len() > 0 && is_space(s.last()) {
        trim_end(s.drop_last())
    } else {
        s
    }
}

/// The byte sequence with whitespace removed from both ends.
pub open spec fn trimmed(s: Seq<u8>) -> Seq<u8> {
    trim_end(trim_start(s))
}

/// Index of the first decimal point, or the length if there is none.
pub open spec fn first_dot(s: Seq<u8>) -> int
    decreases s.len(),
{
    if s.len() == 0 {
        0
    } else if s.first() == 46 {
        0
    } else {
        1 + first_dot(s.drop_first())
    }
}

/// The digits before the decimal point (the whole text if there is none).
pub open spec fn int_part(s: Seq<u8>) -> Seq<u8> {
    s.subrange(0, first_dot(s))
}

/// The digits after the decimal point, empty if there is none.
pub open spec fn frac_part(s: Seq<u8>) -> Seq<u8> {
    if first_dot(s) < s.len() {
        s.subrange(first_dot(s) + 1, s.len() as int)
    } else {
        Seq::<u8>::empty()
    }
}

/// Every byte is a decimal digit.
pub open spec fn digits_only(s: Seq<u8>) -> bool {
    forall|i: int| 0 <= i < s.len() ==> is_digit(#[trigger] s[i])
}

/// A trimmed duration text the parser accepts: non-empty, digits around
/// at most one decimal point, at least one digit in all, at most sixteen
/// digits before the point.
pub open spec fn well_formed(core: Seq<u8>) -> bool {
    &&& core.len() > 0
    &&& digits_only(int_part(core))
    &&& digits_only(frac_part(core))
    &&& int_part(core).len() + frac_part(core).len() > 0
    &&& int_part(core).len() <= 16
}

/// Value of a digit run read as a decimal number.
pub open spec fn dec_val(s: Seq<u8>) -> int
    decreases s.len(),
{
    if s.len() == 0 {
        0
    } else {
        10 * dec_val(s.drop_last()) + (s.last() - 48)
    }
}

/// Milliseconds contributed by the fraction digits: the first three of
/// them, read as a count of thousandths; digits beyond the third are cut
/// off.
pub open spec fn frac_ms(f: Seq<u8>) -> int {
    if f.len() >= 3 {
        dec_val(f.subrange(0, 3))
    } else if f.len() == 2 {
        10 * dec_val(f)
    } else if f.len() == 1 {
        100 * dec_val(f)
    } else {
        0
    }
}

/// Millisecond value of a well-formed trimmed duration text.
pub open spec fn duration_value_ms(core: Seq<u8>) -> int {
    1000 * dec_val(int_part(core)) + frac_ms(frac_part(core))
}

/// Whether the probe output as a whole is an acceptable duration.
pub open spec fn valid_duration(bytes: Seq<u8>) -> bool {
    well_formed(trimmed(bytes))
}

/// The millisecond value of an acceptable probe output.
pub open spec fn spec_duration_ms(bytes: Seq<u8>) -> int {
    duration_value_ms(trimmed(bytes))
}

/// Ten to the `n`th.
pub open spec fn pow10(n: nat) -> int
    decreases n,
{
    if n == 0 {
        1
    } else {
        10 * pow10((n - 1) as nat)
    }
}

proof fn lemma_pow10_pos(n: nat)
    ensures
        pow10(n) >= 1,
    decreases n,
{
    if n > 0 {
        lemma_pow10_pos((n - 1) as nat);
    }
}

proof fn lemma_pow10_mono(a: nat, b: nat)
    requires
        a <= b,
    ensures
        pow10(a) <= pow10(b),
    decreases b,
{
    if a < b {
        lemma_pow10_mono(a, (b - 1) as nat);
        lemma_pow10_pos((b - 1) as nat);
    }
}

proof fn lemma_pow10_vals()
    ensures
        pow10(15) == 1000000000000000,
        pow10(16) == 10000000000000000,
{
    reveal_with_fuel(pow10, 17);
}

/// Where a scan that stopped at the first decimal point stopped is where
/// `first_dot` points.
proof fn lemma_first_dot_at(s: Seq<u8>, j: int)
    requires
        0 <= j <= s.len(),
        forall|k: int| 0 <= k < j ==> s[k] != 46,
        j < s.len() ==> s[j] == 46,
    ensures
        first_dot(s) == j,
    decreases j,
{
    if j == 0 {
    } else {
        assert(s[0] != 46);
        lemma_first_dot_at(s.drop_first(), j - 1);
    }
}

proof fn lemma_dec_val_bound(s: Seq<u8>)
    requires
        digits_only(s),
    ensures
        0 <= dec_val(s) < pow10(s.len()),
    decreases s.len(),
{
    if s.len() == 0 {
    } else {
        assert forall|k: int| 0 <= k < s.drop_last().len() implies is_digit(
            #[trigger] s.drop_last()[k],
        ) by {
            assert(s.drop_last()[k] == s[k]);
        }
        lemma_dec_val_bound(s.drop_last());
        assert(is_digit(s[s.len() - 1]));
        assert(pow10(s.len()) == 10 * pow10((s.len() - 1) as nat));
    }
}

fn byte_is_space(b: u8) -> (r: bool)
    ensures
        r == is_space(b),
{
    b == 32 || b == 9 || b == 10 || b == 13
}

fn byte_is_digit(b: u8) -> (r: bool)
    ensures
        r == is_digit(b),
{
    48 <= b && b <= 57
}

/// Parses the probe tool's duration output into whole milliseconds.
///
/// Returns the millisecond value exactly when the output, after trimming
/// whitespace, is an acceptable decimal duration; everything else comes
/// back as invalid probe data.
#[verifier::loop_isolation(false)]
#[verifier::rlimit(100)]
pub fn parse_duration_ms(out: &[u8]) -> (r: Result<u64, GatewayError>)
    ensures
        valid_duration(out@) ==> (r matches Ok(n) && n == spec_duration_ms(out@)),
        !valid_duration(out@) ==> (r matches Err(e) && e@ is InvalidData),
{
    let n = out.len();
    proof {
        assert(out@.subrange(0, n as int) =~= out@);
    }
    // Trim leading whitespace.
    let mut lo: usize = 0;
    while lo < n && byte_is_space(out[lo])
        invariant
            0 <= lo <= n,
            trim_start(out@) == trim_start(out@.subrange(lo as int, n as int)),
        decreases n - lo,
    {
        proof {
            let t = out@.subrange(lo as int, n as int);
            assert(t.first() == out@[lo as int]);
            assert(t.drop_first() =~= out@.subrange(lo as int + 1, n as int));
        }
        lo = lo + 1;
    }
    proof {
        if lo < n {
            let t = out@.subrange(lo as int, n as int);
            assert(t.first() == out@[lo as int]);
            assert(trim_start(t) == t);
        } else {
            assert(out@.subrange(lo as int, n as int) =~= Seq::<u8>::empty());
        }
    }
    if lo == n {
        // Nothing but whitespace: the trimmed text is empty.
        proof {
            assert(trimmed(out@) =~= Seq::<u8>::empty());
        }
        return Result::Err(invalid_data("duration text is empty".to_owned()));
    }
    // Trim trailing whitespace.
    let mut hi: usize = n;
    while hi > lo && byte_is_space(out[hi - 1])
        invariant
            lo < hi <= n,
            trim_end(out@.subrange(lo as int, n as int)) == trim_end(
                out@.subrange(lo as int, hi as int),
            ),
        decreases hi,
    {
        proof {
            let t = out@.subrange(lo as int, hi as int);
            assert(t.last() == out@[hi - 1]);
            assert(t.drop_last() =~= out@.subrange(lo as int, hi as int - 1));
        }
        hi = hi - 1;
    }
    proof {
        let t = out@.subrange(lo as int, hi as int);
        assert(t.last() == out@[hi - 1]);
        assert(trim_end(t) == t);
    }
    let ghost core = out@.subrange(lo as int, hi as int);
    proof {
        assert(trimmed(out@) == core);
        assert(!is_space(out@[lo as int]));
        assert(core.len() > 0) by {
            assert(core[0] == out@[lo as int]);
        }
    }
    // Find the decimal point, if any.
    let mut dot: usize = lo;
    while dot < hi && out[dot] != 46
        invariant
            lo <= dot <= hi <= n,
            n == out@.len(),
            forall|k: int| lo <= k < dot ==> out@[k] != 46,
        decreases hi - dot,
    {
        dot = dot + 1;
    }
    proof {
        assert forall|k: int| 0 <= k < dot - lo implies core[k] != 46 by {
            assert(core[k] == out@[lo + k]);
        }
        if (dot - lo) < core.len() {
            assert(core[dot - lo] == out@[dot as int]);
        }
        lemma_first_dot_at(core, dot - lo);
    }
    let int_len = dot - lo;
    let frac_len = if dot < hi {
        hi - dot - 1
    } else {
        0
    };
    proof {
        assert(int_part(core) =~= core.subrange(0, int_len as int));
        assert(int_part(core).len() == int_len);
        if dot < hi {
            assert(frac_part(core) =~= core.subrange(int_len + 1, core.len() as int));
        }
        assert(frac_part(core).len() == frac_len);
    }
    if int_len > 16 {
        return Result::Err(invalid_data("duration has too many integer digits".to_owned()));
    }
    if int_len == 0 && frac_len == 0 {
        return Result::Err(invalid_data("duration has no digits".to_owned()));
    }
    // Check that both digit runs really are digits.
    let mut i: usize = lo;
    while i < dot
        invariant
            lo <= i <= dot <= hi <= n,
            n == out@.len(),
            forall|k: int| lo <= k < i ==> is_digit(#[trigger] out@[k]),
        decreases dot - i,
    {
        if !byte_is_digit(out[i]) {
            proof {
                assert(int_part(core)[i - lo] == out@[i as int]);
            }
            return Result::Err(invalid_data("duration is not a decimal number".to_owned()));
        }
        i = i + 1;
    }
    proof {
        assert forall|k: int| 0 <= k < int_part(core).len() implies is_digit(
            #[trigger] int_part(core)[k],
        ) by {
            assert(int_part(core)[k] == out@[lo + k]);
        }
    }
    let mut f: usize = 0;
    while f < frac_len
        invariant
            0 <= f <= frac_len,
            forall|k: int| 0 <= k < f ==> is_digit(#[trigger] out@[dot + 1 + k]),
        decreases frac_len - f,
    {
        if !byte_is_digit(out[dot + 1 + f]) {
            proof {
                assert(frac_part(core)[f as int] == out@[dot + 1 + f]);
            }
            return Result::Err(invalid_data("duration is not a decimal number".to_owned()));
        }
        f = f + 1;
    }
    proof {
        assert forall|k: int| 0 <= k < frac_part(core).len() implies is_digit(
            #[trigger] frac_part(core)[k],
        ) by {
            assert(frac_part(core)[k] == out@[dot + 1 + k]);
        }
        assert(well_formed(core));
    }
    // Read the integer part.
    let mut acc: u64 = 0;
    let mut i2: usize = lo;
    while i2 < dot
        invariant
            lo <= i2 <= dot <= hi <= n,
            n == out@.len(),
            dot - lo <= 16,
            core == out@.subrange(lo as int, hi as int),
            first_dot(core) == dot - lo,
            forall|k: int| lo <= k < dot ==> is_digit(#[trigger] out@[k]),
            acc == dec_val(core.subrange(0, i2 - lo)),
            acc < pow10((i2 - lo) as nat),
        decreases dot - i2,
    {
        let ghost x = i2 - lo;
        proof {
            lemma_pow10_mono(x as nat, 15);
            lemma_pow10_vals();
            assert(is_digit(out@[i2 as int]));
        }
        let d = out[i2] - 48;
        proof {
            assert(core.subrange(0, x + 1).drop_last() =~= core.subrange(0, x));
            assert(core.subrange(0, x + 1).last() == out@[i2 as int]);
            assert(pow10((x + 1) as nat) == 10 * pow10(x as nat));
        }
        acc = acc * 10 + d as u64;
        i2 = i2 + 1;
    }
    proof {
        assert(core.subrange(0, int_len as int) =~= int_part(core));
        lemma_pow10_mono((int_len) as nat, 16);
        lemma_pow10_vals();
    }
    // Read up to three fraction digits as thousandths.
    let mut ms: u64 = 0;
    if frac_len >= 1 {
        proof {
            assert(frac_part(core)[0] == out@[dot + 1]);
            assert(is_digit(frac_part(core)[0]));
        }
        ms = ms + ((out[dot + 1] - 48) as u64) * 100;
    }
    if frac_len >= 2 {
        proof {
            assert(frac_part(core)[1] == out@[dot + 2]);
            assert(is_digit(frac_part(core)[1]));
        }
        ms = ms + ((out[dot + 2] - 48) as u64) * 10;
    }
    if frac_len >= 3 {
        proof {
            assert(frac_part(core)[2] == out@[dot + 3]);
            assert(is_digit(frac_part(core)[2]));
        }
        ms = ms + (out[dot + 3] - 48) as u64;
    }
    proof {
        let fp = frac_part(core);
        if frac_len >= 1 {
            assert(fp.subrange(0, 1).drop_last() =~= fp.subrange(0, 0));
            assert(fp.subrange(0, 1).last() == fp[0]);
            assert(fp[0] == out@[dot + 1]);
            assert(dec_val(fp.subrange(0, 0)) == 0);
            assert(dec_val(fp.subrange(0, 1)) == fp[0] - 48);
        }
        if frac_len >= 2 {
            assert(fp.subrange(0, 2).drop_last() =~= fp.subrange(0, 1));
            assert(fp.subrange(0, 2).last() == fp[1]);
            assert(fp[1] == out@[dot + 2]);
            assert(dec_val(fp.subrange(0, 2)) == 10 * (fp[0] - 48) + (fp[1] - 48));
        }
        if frac_len >= 3 {
            assert(fp.subrange(0, 3).drop_last() =~= fp.subrange(0, 2));
            assert(fp.subrange(0, 3).last() == fp[2]);
            assert(fp[2] == out@[dot + 3]);
            assert(dec_val(fp.subrange(0, 3)) == 100 * (fp[0] - 48) + 10 * (fp[1] - 48) + (fp[2]
                - 48));
        }
        if frac_len == 1 {
            assert(fp.subrange(0, 1) =~= fp);
        }
        if frac_len == 2 {
            assert(fp.subrange(0, 2) =~= fp);
        }
        assert(ms == frac_ms(fp));
    }
    Result::Ok(acc * 1000 + ms)
}

} // verus!
