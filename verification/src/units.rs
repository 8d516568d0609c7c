//! Rendering of raw byte counts as display quantities: the count is converted
//! to the largest binary unit (steps of 1024) for which the value is at least
//! one, and printed with one decimal digit, as in `2.0 GB`.
//!
//! All arithmetic is integer arithmetic on tenths of a unit, with ties in the
//! final decimal digit rounded upward.

use vstd::prelude::*;
use vstd::arithmetic::div_mod::lemma_hoist_over_denominator;
use vstd::arithmetic::div_mod::lemma_fundamental_div_mod;

verus! {

/// The decimal digit character for `d`, which must be below ten.
pub open spec fn spec_digit_char(d: nat) -> char {
    if d == 0 {
        '0'
    } else if d == 1 {
        '1'
    } else if d == 2 {
        '2'
    } else if d == 3 {
        '3'
    } else if d == 4 {
        '4'
    } else if d == 5 {
        '5'
    } else if d == 6 {
        '6'
    } else if d == 7 {
        '7'
    } else if d == 8 {
        '8'
    } else {
        '9'
    }
}

/// The usual decimal rendering of `n`, most significant digit first, with no
/// leading zeros except for `n == 0` itself.
pub open spec fn spec_decimal(n: nat) -> Seq<char>
    decreases n,
{
    if n < 10 {
        seq![spec_digit_char(n)]
    } else {
        spec_decimal(n / 10) + seq![spec_digit_char(n % 10)]
    }
}

/// How many bytes one whole step of unit `k` holds: `1024^k`, for the seven
/// units from bytes (`k == 0`) up to binary exabytes (`k == 6`).
pub open spec fn spec_unit_divisor(k: int) -> nat {
    if k <= 0 {
        1
    } else if k == 1 {
        1024
    } else if k == 2 {
        1048576
    } else if k == 3 {
        1073741824
    } else if k == 4 {
        1099511627776
    } else if k == 5 {
        1125899906842624
    } else {
        1152921504606846976
    }
}

/// The unit chosen for `bytes`: the largest `k` with `bytes >= 1024^k`, and
/// unit 0 (plain bytes) for counts under 1024.
pub open spec fn spec_unit_index(bytes: nat) -> int {
    if bytes < 1024 {
        0
    } else if bytes < 1048576 {
        1
    } else if bytes < 1073741824 {
        2
    } else if bytes < 1099511627776 {
        3
    } else if bytes < 1125899906842624 {
        4
    } else if bytes < 1152921504606846976 {
        5
    } else {
        6
    }
}

/// The suffix printed after the numeric value of unit `k`, leading space
/// included.
pub open spec fn spec_unit_label(k: int) -> Seq<char> {
    if k <= 0 {
        seq![' ', 'B']
    } else if k == 1 {
        seq![' ', 'K', 'B']
    } else if k == 2 {
        seq![' ', 'M', 'B']
    } else if k == 3 {
        seq![' ', 'G', 'B']
    } else if k == 4 {
        seq![' ', 'T', 'B']
    } else if k == 5 {
        seq![' ', 'P', 'B']
    } else {
        seq![' ', 'E', 'B']
    }
}

/// `bytes` expressed in tenths of unit `k`, rounded to the nearest tenth with
/// ties rounded upward.
pub open spec fn spec_tenths(bytes: nat, k: int) -> nat {
    (bytes * 10 + spec_unit_divisor(k) / 2) / spec_unit_divisor(k)
}

/// The full rendering of `bytes`: the value in its chosen unit to one decimal
/// digit, then the unit's suffix, as in `2.0 GB`.
pub open spec fn spec_format_bytes(bytes: nat) -> Seq<char> {
    let k = spec_unit_index(bytes);
    let t = spec_tenths(bytes, k);
    spec_decimal(t / 10) + seq!['.'] + seq![spec_digit_char(t % 10)] + spec_unit_label(k)
}

/// The unit chosen for `bytes` is the largest one for which the whole-unit
/// value is at least one: `bytes` reaches one whole step of its unit (except
/// at unit 0, where no smaller unit exists), and falls short of the next
/// larger unit (except at the largest unit, where none exists).
pub proof fn lemma_unit_selection(bytes: nat)
    ensures
        0 <= spec_unit_index(bytes) <= 6,
        spec_unit_index(bytes) > 0 ==> bytes >= spec_unit_divisor(spec_unit_index(bytes)),
        spec_unit_index(bytes) < 6 ==> bytes < spec_unit_divisor(spec_unit_index(bytes) + 1),
{
}

fn digit_str(d: u64) -> (r: &'static str)
    requires
        d < 10,
    ensures
        r@ == seq![spec_digit_char(d as nat)],
{
    proof {
        reveal_strlit("0");
        reveal_strlit("1");
        reveal_strlit("2");
        reveal_strlit("3");
        reveal_strlit("4");
        reveal_strlit("5");
        reveal_strlit("6");
        reveal_strlit("7");
        reveal_strlit("8");
        reveal_strlit("9");
        assert("0"@ =~= seq!['0']);
        assert("1"@ =~= seq!['1']);
        assert("2"@ =~= seq!['2']);
        assert("3"@ =~= seq!['3']);
        assert("4"@ =~= seq!['4']);
        assert("5"@ =~= seq!['5']);
        assert("6"@ =~= seq!['6']);
        assert("7"@ =~= seq!['7']);
        assert("8"@ =~= seq!['8']);
        assert("9"@ =~= seq!['9']);
    }
    if d == 0 {
        "0"
    } else if d == 1 {
        "1"
    } else if d == 2 {
        "2"
    } else if d == 3 {
        "3"
    } else if d == 4 {
        "4"
    } else if d == 5 {
        "5"
    } else if d == 6 {
        "6"
    } else if d == 7 {
        "7"
    } else if d == 8 {
        "8"
    } else {
        "9"
    }
}

/// Renders `n` in decimal, matching [`spec_decimal`].
pub fn decimal_string(n: u64) -> (r: String)
    ensures
        r@ == spec_decimal(n as nat),
    decreases n,
{
    if n < 10 {
        String::from_str(digit_str(n))
    } else {
        let mut s = decimal_string(n / 10);
        s.append(digit_str(n % 10));
        s
    }
}

/// Renders `bytes` in its adjusted binary unit to one decimal digit, matching
/// [`spec_format_bytes`].
pub fn format_bytes(bytes: u64) -> (r: String)
    ensures
        r@ == spec_format_bytes(bytes as nat),
{
    let tenths: u64 = if bytes < 1024 {
        bytes * 10
    } else if bytes < 1048576 {
        (bytes * 10 + 512) / 1024
    } else if bytes < 1073741824 {
        (bytes * 10 + 524288) / 1048576
    } else if bytes < 1099511627776 {
        (bytes * 10 + 536870912) / 1073741824
    } else if bytes < 1125899906842624 {
        (bytes * 10 + 549755813888) / 1099511627776
    } else if bytes < 1152921504606846976 {
        (bytes * 10 + 562949953421312) / 1125899906842624
    } else {
        let q: u64 = bytes / 1152921504606846976;
        let rm: u64 = bytes % 1152921504606846976;
        let low: u64 = (rm * 10 + 576460752303423488) / 1152921504606846976;
        proof {
            let d: int = 1152921504606846976;
            lemma_fundamental_div_mod(bytes as int, d);
            lemma_hoist_over_denominator(
                rm as int * 10 + 576460752303423488,
                q as int * 10,
                d as nat,
            );
        }
        q * 10 + low
    };
    assert(tenths == spec_tenths(bytes as nat, spec_unit_index(bytes as nat)));
    let label: &'static str = if bytes < 1024 {
        " B"
    } else if bytes < 1048576 {
        " KB"
    } else if bytes < 1073741824 {
        " MB"
    } else if bytes < 1099511627776 {
        " GB"
    } else if bytes < 1125899906842624 {
        " TB"
    } else if bytes < 1152921504606846976 {
        " PB"
    } else {
        " EB"
    };
    proof {
        reveal_strlit(" B");
        reveal_strlit(" KB");
        reveal_strlit(" MB");
        reveal_strlit(" GB");
        reveal_strlit(" TB");
        reveal_strlit(" PB");
        reveal_strlit(" EB");
        assert(" B"@ =~= seq![' ', 'B']);
        assert(" KB"@ =~= seq![' ', 'K', 'B']);
        assert(" MB"@ =~= seq![' ', 'M', 'B']);
        assert(" GB"@ =~= seq![' ', 'G', 'B']);
        assert(" TB"@ =~= seq![' ', 'T', 'B']);
        assert(" PB"@ =~= seq![' ', 'P', 'B']);
        assert(" EB"@ =~= seq![' ', 'E', 'B']);
    }
    let mut s = decimal_string(tenths / 10);
    s.append(".");
    s.append(digit_str(tenths % 10));
    s.append(label);
    proof {
        reveal_strlit(".");
        assert("."@ =~= seq!['.']);
        assert(s@ =~= spec_format_bytes(bytes as nat));
    }
    s
}

} // verus!
