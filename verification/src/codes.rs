//! The startup listing of the device's capabilities: one line per
//! supported button code and one line per supported axis descriptor,
//! with verified decimal rendering of the numbers.

use crate::calibrate::AbsInfo;
use crate::calibrate::DeviceCaps;
use vstd::prelude::*;
use vstd::string::StringExecFns;

verus! {

/// The character of one decimal digit.
pub open spec fn digit_char(d: int) -> char {
    if d == 0 {
        '0'
    } else if d == 1 {
        '1'
    } else if d == 2 {
        '2'
    } else if d == 3 {
        '3'
    } else if d == 4 {
        '4'
    } else if d == 5 {
        '5'
    } else if d == 6 {
        '6'
    } else if d == 7 {
        '7'
    } else if d == 8 {
        '8'
    } else {
        '9'
    }
}

/// Decimal digits of a nonnegative number, most significant first.
pub open spec fn dec_digits(n: nat) -> Seq<char>
    decreases n,
{
    if n < 10 {
        seq![digit_char(n as int)]
    } else {
        dec_digits(n / 10) + seq![digit_char((n % 10) as int)]
    }
}

/// Decimal rendering of an integer: the digits, after a minus sign when
/// the number is negative.
pub open spec fn dec_of(v: int) -> Seq<char> {
    if v < 0 {
        seq!['-'] + dec_digits((-v) as nat)
    } else {
        dec_digits(v as nat)
    }
}

/// The one-character string of a decimal digit.
fn digit_str(d: u64) -> (r: &'static str)
    requires
        d < 10,
    ensures
        r@ == seq![digit_char(d as int)],
{
    proof {
        reveal_strlit("0");
        reveal_strlit("1");
        reveal_strlit("2");
        reveal_strlit("3");
        reveal_strlit("4");
        reveal_strlit("5");
        reveal_strlit("6");
        reveal_strlit("7");
        reveal_strlit("8");
        reveal_strlit("9");
        assert("0"@ =~= seq!['0']);
        assert("1"@ =~= seq!['1']);
        assert("2"@ =~= seq!['2']);
        assert("3"@ =~= seq!['3']);
        assert("4"@ =~= seq!['4']);
        assert("5"@ =~= seq!['5']);
        assert("6"@ =~= seq!['6']);
        assert("7"@ =~= seq!['7']);
        assert("8"@ =~= seq!['8']);
        assert("9"@ =~= seq!['9']);
    }
    if d == 0 {
        "0"
    } else if d == 1 {
        "1"
    } else if d == 2 {
        "2"
    } else if d == 3 {
        "3"
    } else if d == 4 {
        "4"
    } else if d == 5 {
        "5"
    } else if d == 6 {
        "6"
    } else if d == 7 {
        "7"
    } else if d == 8 {
        "8"
    } else {
        "9"
    }
}

/// Renders a nonnegative number in decimal.
pub fn fmt_u64(n: u64) -> (r: String)
    ensures
        r@ == dec_digits(n as nat),
    decreases n,
{
    if n < 10 {
        digit_str(n).to_owned()
    } else {
        let mut s = fmt_u64(n / 10);
        s.append(digit_str(n % 10));
        s
    }
}

/// Renders a signed number in decimal.
pub fn fmt_i32(v: i32) -> (r: String)
    ensures
        r@ == dec_of(v as int),
{
    if v < 0 {
        proof {
            reveal_strlit("-");
            assert("-"@ =~= seq!['-']);
        }
        let mut s = String::from_str("-");
        let magnitude: u64 = (-(v as i64)) as u64;
        let digits = fmt_u64(magnitude);
        s.append(digits.as_str());
        s
    } else {
        fmt_u64(v as u64)
    }
}

/// One listing line for a supported button code.
pub open spec fn key_line(code: u16) -> Seq<char> {
    "KEY "@ + dec_of(code as int) + "\n"@
}

/// The listing lines of all supported button codes, in order.
pub open spec fn key_lines(codes: Seq<u16>) -> Seq<char>
    decreases codes.len(),
{
    if codes.len() == 0 {
        Seq::<char>::empty()
    } else {
        key_line(codes[0]) + key_lines(codes.drop_first())
    }
}

/// One listing line for a supported axis code and its descriptor.
pub open spec fn abs_line(code: u16, a: AbsInfo) -> Seq<char> {
    "ABS "@ + dec_of(code as int) + ": min "@ + dec_of(a.minimum as int) + ", max "@ + dec_of(
        a.maximum as int,
    ) + ", current "@ + dec_of(a.value as int) + ", fuzz "@ + dec_of(a.fuzz as int) + ", flat "@
        + dec_of(a.flat as int) + ", resolution "@ + dec_of(a.resolution as int) + "\n"@
}

/// The listing lines of all supported axis codes, each with the
/// descriptor at its code's index, in order.
pub open spec fn abs_lines(codes: Seq<u16>, abs: Seq<AbsInfo>) -> Seq<char>
    decreases codes.len(),
{
    if codes.len() == 0 {
        Seq::<char>::empty()
    } else {
        abs_line(codes[0], abs[codes[0] as int]) + abs_lines(codes.drop_first(), abs)
    }
}

/// The whole capability listing: the button lines (or one notice when the
/// device reports no key events), then the axis lines (or one notice).
pub open spec fn codes_text(caps: DeviceCaps) -> Seq<char> {
    (match caps.supported_keys {
        Some(keys) => key_lines(keys@),
        None => "device has no KEY events\n"@,
    }) + (match caps.supported_axes {
        Some(axes) => abs_lines(axes@, caps.abs_state@),
        None => "device has no ABS events\n"@,
    })
}

proof fn lemma_key_lines_push(codes: Seq<u16>, code: u16)
    ensures
        key_lines(codes.push(code)) == key_lines(codes) + key_line(code),
    decreases codes.len(),
{
    if codes.len() == 0 {
        assert(codes.push(code)[0] == code);
        assert(codes.push(code).drop_first() =~= Seq::<u16>::empty());
        assert(key_lines(Seq::<u16>::empty()) == Seq::<char>::empty());
        assert(key_lines(codes.push(code)) == key_line(code) + key_lines(
            codes.push(code).drop_first(),
        ));
        assert(key_lines(codes.push(code)) =~= key_lines(codes) + key_line(code));
    } else {
        lemma_key_lines_push(codes.drop_first(), code);
        assert(codes.push(code)[0] == codes[0]);
        assert(codes.push(code).drop_first() =~= codes.drop_first().push(code));
        assert(key_lines(codes.push(code)) == key_line(codes[0]) + key_lines(
            codes.push(code).drop_first(),
        ));
        assert(key_lines(codes) == key_line(codes[0]) + key_lines(codes.drop_first()));
        assert(key_lines(codes.push(code)) =~= key_lines(codes) + key_line(code));
    }
}

proof fn lemma_abs_lines_push(codes: Seq<u16>, abs: Seq<AbsInfo>, code: u16)
    ensures
        abs_lines(codes.push(code), abs) == abs_lines(codes, abs) + abs_line(
            code,
            abs[code as int],
        ),
    decreases codes.len(),
{
    if codes.len() == 0 {
        assert(codes.push(code)[0] == code);
        assert(codes.push(code).drop_first() =~= Seq::<u16>::empty());
        assert(abs_lines(Seq::<u16>::empty(), abs) == Seq::<char>::empty());
        assert(abs_lines(codes.push(code), abs) == abs_line(code, abs[code as int]) + abs_lines(
            codes.push(code).drop_first(),
            abs,
        ));
        assert(abs_lines(codes.push(code), abs) =~= abs_lines(codes, abs) + abs_line(
            code,
            abs[code as int],
        ));
    } else {
        lemma_abs_lines_push(codes.drop_first(), abs, code);
        assert(codes.push(code)[0] == codes[0]);
        assert(codes.push(code).drop_first() =~= codes.drop_first().push(code));
        assert(abs_lines(codes.push(code), abs) == abs_line(codes[0], abs[codes[0] as int])
            + abs_lines(codes.push(code).drop_first(), abs));
        assert(abs_lines(codes, abs) == abs_line(codes[0], abs[codes[0] as int]) + abs_lines(
            codes.drop_first(),
            abs,
        ));
        assert(abs_lines(codes.push(code), abs) =~= abs_lines(codes, abs) + abs_line(
            code,
            abs[code as int],
        ));
    }
}

/// Renders one button line.
fn fmt_key_line(code: u16) -> (r: String)
    ensures
        r@ == key_line(code),
{
    let mut s = String::from_str("KEY ");
    let digits = fmt_u64(code as u64);
    s.append(digits.as_str());
    s.append("\n");
    s
}

/// Renders one axis line.
fn fmt_abs_line(code: u16, a: &AbsInfo) -> (r: String)
    ensures
        r@ == abs_line(code, *a),
{
    let mut s = String::from_str("ABS ");
    let digits = fmt_u64(code as u64);
    s.append(digits.as_str());
    s.append(": min ");
    let digits = fmt_i32(a.minimum);
    s.append(digits.as_str());
    s.append(", max ");
    let digits = fmt_i32(a.maximum);
    s.append(digits.as_str());
    s.append(", current ");
    let digits = fmt_i32(a.value);
    s.append(digits.as_str());
    s.append(", fuzz ");
    let digits = fmt_i32(a.fuzz);
    s.append(digits.as_str());
    s.append(", flat ");
    let digits = fmt_i32(a.flat);
    s.append(digits.as_str());
    s.append(", resolution ");
    let digits = fmt_i32(a.resolution);
    s.append(digits.as_str());
    s.append("\n");
    s
}

/// Renders the whole capability listing for one snapshot.
pub fn format_codes(caps: &DeviceCaps) -> (r: String)
    requires
        caps.wf(),
    ensures
        r@ == codes_text(*caps),
{
    let mut out = String::new();
    match &caps.supported_keys {
        Some(keys) => {
            let mut i: usize = 0;
            proof {
                assert(keys@.take(0) =~= Seq::<u16>::empty());
                assert(out@ =~= key_lines(keys@.take(0)));
            }
            while i < keys.len()
                invariant
                    i <= keys@.len(),
                    out@ == key_lines(keys@.take(i as int)),
                decreases keys@.len() - i,
            {
                let line = fmt_key_line(keys[i]);
                out.append(line.as_str());
                proof {
                    assert(keys@.take(i + 1) =~= keys@.take(i as int).push(keys@[i as int]));
                    lemma_key_lines_push(keys@.take(i as int), keys@[i as int]);
                }
                i = i + 1;
            }
            proof {
                assert(keys@.take(keys@.len() as int) =~= keys@);
            }
        },
        None => {
            out.append("device has no KEY events\n");
        },
    }
    let ghost head: Seq<char> = out@;
    match &caps.supported_axes {
        Some(axes) => {
            let mut i: usize = 0;
            proof {
                assert(axes@.take(0) =~= Seq::<u16>::empty());
                assert(out@ =~= head + abs_lines(axes@.take(0), caps.abs_state@));
            }
            while i < axes.len()
                invariant
                    i <= axes@.len(),
                    caps.wf(),
                    caps.supported_axes matches Some(a) && a@ == axes@,
                    out@ == head + abs_lines(axes@.take(i as int), caps.abs_state@),
                decreases axes@.len() - i,
            {
                let code = axes[i];
                let line = fmt_abs_line(code, &caps.abs_state[code as usize]);
                out.append(line.as_str());
                proof {
                    assert(axes@.take(i + 1) =~= axes@.take(i as int).push(axes@[i as int]));
                    lemma_abs_lines_push(axes@.take(i as int), caps.abs_state@, axes@[i as int]);
                    assert(out@ =~= head + abs_lines(axes@.take(i + 1), caps.abs_state@));
                }
                i = i + 1;
            }
            proof {
                assert(axes@.take(axes@.len() as int) =~= axes@);
            }
        },
        None => {
            out.append("device has no ABS events\n");
        },
    }
    proof {
        assert(out@ =~= codes_text(*caps));
    }
    out
}

} // verus!
