//! The frame control file of a serial port.
//!
//! The file holds the line settings as text: the baud rate in decimal, a
//! hyphen, the number of data bits, a letter for the parity and the number
//! of stop bits, as in `115200-8N1`. Reading it gives the current
//! settings, writing it sets them.

use vstd::prelude::*;
use super::DataBits;
use super::Parity;
use super::StopBits;

verus! {

/// The highest baud rate, which the divisor 1 gives.
pub const MAX_BAUD: u32 = 115200;

/// The clock that the divisor divides, as a fixed point number with 16
/// fractional bits.
pub const CLOCK_FIXED: u64 = 7549747200;

/// The line settings of a port.
#[derive(Clone, Copy, Debug, PartialEq, Eq, Structural)]
pub struct FrameCtl {
    /// What the clock is divided by. Never 0 on a port.
    pub divisor: u16,
    pub data_bits: DataBits,
    pub parity: Parity,
    pub stop_bits: StopBits,
}

/// The value of a decimal digit.
pub open spec fn digit_value(c: u8) -> Option<nat> {
    if 0x30 <= c <= 0x39 {
        Some((c - 0x30) as nat)
    } else {
        None
    }
}

/// Whether all of `s` are decimal digits.
pub open spec fn all_digits(s: Seq<u8>) -> bool {
    forall|i: int| 0 <= i < s.len() ==> digit_value(#[trigger] s[i]).is_some()
}

/// The number that the decimal digits `s` stand for.
pub open spec fn digits_value(s: Seq<u8>) -> nat
    decreases s.len(),
{
    if s.len() == 0 {
        0
    } else {
        digits_value(s.drop_last()) * 10 + (s.last() - 0x30) as nat
    }
}

/// The number that `s` is read as: `s` is a plus sign or nothing, and then
/// one decimal digit or more.
pub open spec fn number_of(s: Seq<u8>) -> Option<nat> {
    let digits = if s.len() > 0 && s[0] == 0x2b {
        s.skip(1)
    } else {
        s
    };
    if digits.len() > 0 && all_digits(digits) {
        Some(digits_value(digits))
    } else {
        None
    }
}

/// The divisor for a baud rate: the clock divided by the rate, rounded to
/// the nearest whole number, halves rounded up. The division is done in
/// fixed point with 16 fractional bits, and what is beyond those is cut
/// off before the rounding.
pub open spec fn divisor_of(baud: nat) -> nat
    recommends
        baud > 0,
{
    let q = CLOCK_FIXED as nat / baud;
    if q % 65536 > 32767 {
        q / 65536 + 1
    } else {
        q / 65536
    }
}

/// The baud rate that a divisor gives: the highest rate divided by the
/// divisor, rounded to the nearest whole number, halves rounded to the
/// even neighbour.
pub open spec fn baud_of(divisor: nat) -> nat
    recommends
        divisor > 0,
{
    let q = MAX_BAUD as nat / divisor;
    let r = MAX_BAUD as nat % divisor;
    if 2 * r > divisor || (2 * r == divisor && q % 2 == 1) {
        q + 1
    } else {
        q
    }
}

/// The number of data bits that a character stands for.
pub open spec fn data_bits_of(c: u8) -> Option<DataBits> {
    if c == 0x35 {
        Some(DataBits::Five)
    } else if c == 0x36 {
        Some(DataBits::Six)
    } else if c == 0x37 {
        Some(DataBits::Seven)
    } else if c == 0x38 {
        Some(DataBits::Eight)
    } else {
        None
    }
}

/// The parity that a letter stands for, in either case.
pub open spec fn parity_of(c: u8) -> Option<Parity> {
    if c == 0x4e || c == 0x6e {
        Some(Parity::Off)
    } else if c == 0x4f || c == 0x6f {
        Some(Parity::Odd)
    } else if c == 0x4d || c == 0x6d {
        Some(Parity::Mark)
    } else if c == 0x45 || c == 0x65 {
        Some(Parity::Even)
    } else if c == 0x53 || c == 0x73 {
        Some(Parity::Space)
    } else {
        None
    }
}

/// The number of stop bits that a character stands for.
pub open spec fn stop_bits_of(c: u8) -> Option<StopBits> {
    if c == 0x31 {
        Some(StopBits::One)
    } else if c == 0x32 {
        Some(StopBits::Two)
    } else {
        None
    }
}

/// The settings that a text asks for, if it is well formed: a number
/// between 1 and 115200 whose divisor fits in 16 bits, a hyphen, and one
/// character each for data bits, parity and stop bits, with nothing after
/// them.
pub open spec fn parse(s: Seq<u8>) -> Option<FrameCtl> {
    if s.len() < 5 {
        None
    } else {
        let head = s.take(s.len() - 4);
        let frame = s.skip(s.len() - 4);
        match (
            number_of(head),
            data_bits_of(frame[1]),
            parity_of(frame[2]),
            stop_bits_of(frame[3]),
        ) {
            (Some(baud), Some(data_bits), Some(parity), Some(stop_bits)) => {
                if frame[0] == 0x2d && 1 <= baud <= MAX_BAUD && divisor_of(baud) <= u16::MAX {
                    Some(FrameCtl { divisor: divisor_of(baud) as u16, data_bits, parity, stop_bits })
                } else {
                    None
                }
            },
            _ => None,
        }
    }
}

/// The decimal digits of `n`, without leading zeros; one zero for 0.
pub open spec fn decimal(n: nat) -> Seq<u8>
    decreases n,
{
    if n < 10 {
        seq![(0x30 + n) as u8]
    } else {
        decimal(n / 10).push((0x30 + n % 10) as u8)
    }
}

/// The character for a number of data bits.
pub open spec fn data_bits_char(b: DataBits) -> u8 {
    match b {
        DataBits::Five => 0x35,
        DataBits::Six => 0x36,
        DataBits::Seven => 0x37,
        DataBits::Eight => 0x38,
    }
}

/// The capital letter for a parity.
pub open spec fn parity_char(p: Parity) -> u8 {
    match p {
        Parity::Off => 0x4e,
        Parity::Odd => 0x4f,
        Parity::Mark => 0x4d,
        Parity::Even => 0x45,
        Parity::Space => 0x53,
    }
}

/// The character for a number of stop bits.
pub open spec fn stop_bits_char(s: StopBits) -> u8 {
    match s {
        StopBits::One => 0x31,
        StopBits::Two => 0x32,
    }
}

/// The text for the settings `f`.
pub open spec fn render(f: FrameCtl) -> Seq<u8> {
    decimal(baud_of(f.divisor as nat)).push(0x2d).push(data_bits_char(f.data_bits)).push(
        parity_char(f.parity),
    ).push(stop_bits_char(f.stop_bits))
}

/// Reads the number that `s` stands for, as long as it is at most
/// 115200. A larger number is reported as 115201.
pub fn parse_number(s: &[u8]) -> (r: Option<u32>)
    ensures
        r.is_some() == number_of(s@).is_some(),
        r matches Some(n) ==> n == if number_of(s@).unwrap() <= MAX_BAUD {
            number_of(s@).unwrap()
        } else {
            (MAX_BAUD + 1) as nat
        },
{
    let start: usize = if s.len() > 0 && s[0] == 0x2b {
        1
    } else {
        0
    };
    let ghost digits = if s@.len() > 0 && s@[0] == 0x2b {
        s@.skip(1)
    } else {
        s@
    };
    if start == s.len() {
        return None;
    }
    let mut acc: u32 = 0;
    let mut over: bool = false;
    let mut i: usize = start;
    while i < s.len()
        invariant
            start <= i <= s.len(),
            digits.len() == s@.len() - start,
            forall|k: int| 0 <= k < digits.len() ==> digits[k] == s@[start + k],
            number_of(s@) == if digits.len() > 0 && all_digits(digits) {
                Some(digits_value(digits))
            } else {
                None
            },
            forall|k: int| 0 <= k < i - start ==> digit_value(#[trigger] digits[k]).is_some(),
            !over ==> acc == digits_value(digits.take(i - start)) && acc <= MAX_BAUD,
            over ==> digits_value(digits.take(i - start)) > MAX_BAUD,
        decreases s.len() - i,
    {
        let c: u8 = s[i];
        if c < 0x30 || c > 0x39 {
            proof {
                assert(digits[i - start] == c);
                assert(digit_value(digits[i - start]).is_none());
                assert(!all_digits(digits));
            }
            return None;
        }
        proof {
            assert(digits[i - start] == c);
            assert(digits.take(i - start + 1).drop_last() =~= digits.take(i - start));
            assert(digits.take(i - start + 1).last() == c);
            assert(digits_value(digits.take(i - start + 1)) == digits_value(
                digits.take(i - start),
            ) * 10 + (c - 0x30) as nat);
        }
        if !over {
            let next: u32 = acc * 10 + (c - 0x30) as u32;
            if next > MAX_BAUD {
                over = true;
            } else {
                acc = next;
            }
        }
        i += 1;
    }
    proof {
        assert(digits.take(i - start) =~= digits);
        assert(all_digits(digits));
    }
    if over {
        Some(MAX_BAUD + 1)
    } else {
        Some(acc)
    }
}

/// The divisor for a baud rate.
pub fn divisor_for(baud: u32) -> (r: u32)
    requires
        1 <= baud <= MAX_BAUD,
    ensures
        r == divisor_of(baud as nat),
        1 <= r <= MAX_BAUD,
{
    let q: u64 = CLOCK_FIXED / (baud as u64);
    proof {
        assert(65536 <= q <= CLOCK_FIXED) by (nonlinear_arith)
            requires
                1 <= baud <= MAX_BAUD,
                q == CLOCK_FIXED / (baud as u64),
                CLOCK_FIXED == 7549747200,
                MAX_BAUD == 115200,
        ;
    }
    let whole: u64 = q / 65536;
    if q % 65536 > 32767 {
        (whole + 1) as u32
    } else {
        whole as u32
    }
}

/// The baud rate that a divisor gives.
pub fn baud_for(divisor: u16) -> (r: u32)
    requires
        divisor > 0,
    ensures
        r == baud_of(divisor as nat),
        r <= MAX_BAUD,
{
    let d: u32 = divisor as u32;
    let q: u32 = MAX_BAUD / d;
    let rem: u32 = MAX_BAUD % d;
    proof {
        assert(q <= MAX_BAUD && (d >= 2 ==> q < MAX_BAUD)) by (nonlinear_arith)
            requires
                d >= 1,
                q == MAX_BAUD / d,
                MAX_BAUD == 115200,
        ;
    }
    if 2 * rem > d || (2 * rem == d && q % 2 == 1) {
        q + 1
    } else {
        q
    }
}

/// Reads settings from text. Returns `None` for a text that is not well
/// formed.
pub fn parse_frame_ctl(s: &[u8]) -> (r: Option<FrameCtl>)
    ensures
        r == parse(s@),
        r matches Some(f) ==> f.divisor > 0,
{
    if s.len() < 5 {
        return None;
    }
    let cut: usize = s.len() - 4;
    let head = vstd::slice::slice_subrange(s, 0, cut);
    proof {
        assert(head@ =~= s@.take(cut as int));
        assert(s@.skip(cut as int)[0] == s@[cut as int]);
        assert(s@.skip(cut as int)[1] == s@[cut + 1]);
        assert(s@.skip(cut as int)[2] == s@[cut + 2]);
        assert(s@.skip(cut as int)[3] == s@[cut + 3]);
    }
    let baud: u32 = match parse_number(head) {
        Some(b) => b,
        None => {
            return None;
        },
    };
    let data_bits = match s[cut + 1] {
        0x35 => DataBits::Five,
        0x36 => DataBits::Six,
        0x37 => DataBits::Seven,
        0x38 => DataBits::Eight,
        _ => {
            return None;
        },
    };
    let parity = match s[cut + 2] {
        0x4e | 0x6e => Parity::Off,
        0x4f | 0x6f => Parity::Odd,
        0x4d | 0x6d => Parity::Mark,
        0x45 | 0x65 => Parity::Even,
        0x53 | 0x73 => Parity::Space,
        _ => {
            return None;
        },
    };
    let stop_bits = match s[cut + 3] {
        0x31 => StopBits::One,
        0x32 => StopBits::Two,
        _ => {
            return None;
        },
    };
    if s[cut] != 0x2d || baud < 1 || baud > MAX_BAUD {
        return None;
    }
    let divisor: u32 = divisor_for(baud);
    if divisor > 0xffff {
        return None;
    }
    Some(FrameCtl { divisor: divisor as u16, data_bits, parity, stop_bits })
}

/// Ten to the power of `k`.
pub open spec fn pow10(k: nat) -> nat
    decreases k,
{
    if k == 0 {
        1
    } else {
        10 * pow10((k - 1) as nat)
    }
}

/// A number below ten to the power of `k` has at most `k` digits.
pub proof fn lemma_decimal_len(n: nat, k: nat)
    requires
        k >= 1,
        n < pow10(k),
    ensures
        1 <= decimal(n).len() <= k,
    decreases k,
{
    if n >= 10 {
        assert(pow10(1) == 10) by {
            reveal_with_fuel(pow10, 2);
        }
        assert(k >= 2);
        lemma_decimal_len(n / 10, (k - 1) as nat);
    }
}

/// Appends the decimal digits of `n` to `out`.
pub fn push_number(n: u32, out: &mut Vec<u8>)
    ensures
        final(out)@ == old(out)@ + decimal(n as nat),
    decreases n,
{
    if n >= 10 {
        push_number(n / 10, out);
    }
    out.push((n % 10) as u8 + 0x30);
    proof {
        if n >= 10 {
            assert(old(out)@ + decimal((n / 10) as nat).push(((n % 10) as u8 + 0x30) as u8) =~= (
            old(out)@ + decimal((n / 10) as nat)).push(((n % 10) as u8 + 0x30) as u8));
        } else {
            assert(old(out)@ + seq![((n % 10) as u8 + 0x30) as u8] =~= old(out)@.push(
                ((n % 10) as u8 + 0x30) as u8,
            ));
        }
    }
}

/// The decimal digits of `n`.
pub fn format_number(n: u32) -> (r: Vec<u8>)
    ensures
        r@ == decimal(n as nat),
{
    let mut out: Vec<u8> = Vec::new();
    push_number(n, &mut out);
    assert(Seq::<u8>::empty() + decimal(n as nat) =~= decimal(n as nat));
    out
}

/// The text for the settings `f`.
pub fn render_frame_ctl(f: &FrameCtl) -> (r: Vec<u8>)
    requires
        f.divisor > 0,
    ensures
        r@ == render(*f),
        5 <= r@.len() <= 10,
{
    let baud: u32 = baud_for(f.divisor);
    let mut out = format_number(baud);
    proof {
        assert(pow10(6) == 1000000) by {
            reveal_with_fuel(pow10, 7);
        }
        lemma_decimal_len(baud as nat, 6);
    }
    out.push(0x2d);
    out.push(
        match f.data_bits {
            DataBits::Five => 0x35,
            DataBits::Six => 0x36,
            DataBits::Seven => 0x37,
            DataBits::Eight => 0x38,
        },
    );
    out.push(
        match f.parity {
            Parity::Off => 0x4e,
            Parity::Odd => 0x4f,
            Parity::Mark => 0x4d,
            Parity::Even => 0x45,
            Parity::Space => 0x53,
        },
    );
    out.push(
        match f.stop_bits {
            StopBits::One => 0x31,
            StopBits::Two => 0x32,
        },
    );
    out
}

/// The decimal digits of a number are read back as that number.
pub proof fn lemma_decimal_read_back(n: nat)
    ensures
        decimal(n).len() >= 1,
        all_digits(decimal(n)),
        digits_value(decimal(n)) == n,
        number_of(decimal(n)) == Some(n),
    decreases n,
{
    if n < 10 {
        let s = seq![(0x30 + n) as u8];
        assert(s.drop_last() =~= Seq::<u8>::empty());
        assert(digits_value(s.drop_last()) == 0);
        assert(s.last() == (0x30 + n) as u8);
    } else {
        lemma_decimal_read_back(n / 10);
        let head = decimal(n / 10);
        let d = (0x30 + n % 10) as u8;
        let s = head.push(d);
        assert(s.drop_last() =~= head);
        assert(s.last() == d);
        assert forall|i: int| 0 <= i < s.len() implies digit_value(#[trigger] s[i]).is_some() by {
            if i < head.len() {
                assert(s[i] == head[i]);
            }
        }
        assert(s[0] == head[0]);
    }
}

/// A baud rate that divides the highest rate, other than 1, is the rate
/// of its own divisor.
pub proof fn lemma_divisor_gives_baud_back(baud: nat)
    requires
        2 <= baud <= MAX_BAUD,
        MAX_BAUD as nat % baud == 0,
    ensures
        1 <= divisor_of(baud) <= u16::MAX,
        divisor_of(baud) * baud == MAX_BAUD,
        baud_of(divisor_of(baud)) == baud,
{
    let m = MAX_BAUD as nat / baud;
    assert(m * baud == MAX_BAUD && 1 <= m <= 57600) by (nonlinear_arith)
        requires
            2 <= baud <= 115200,
            115200nat % baud == 0,
            m == 115200nat / baud,
            MAX_BAUD == 115200,
    ;
    let q = CLOCK_FIXED as nat / baud;
    assert(q == m * 65536) by (nonlinear_arith)
        requires
            m * baud == 115200,
            baud >= 1,
            q == 7549747200nat / baud,
    ;
    assert(q % 65536 == 0 && q / 65536 == m) by (nonlinear_arith)
        requires
            q == m * 65536,
    ;
    assert(MAX_BAUD as nat / m == baud && MAX_BAUD as nat % m == 0) by (nonlinear_arith)
        requires
            m * baud == MAX_BAUD,
            m >= 1,
    ;
}

/// Settings that were rendered are parsed back as they were, as long as
/// their baud rate is the rate of a divisor of its own: the text of
/// settings, written to the file, leaves the settings as they are.
pub proof fn lemma_render_parses_back(f: FrameCtl)
    requires
        f.divisor > 0,
        1 <= baud_of(f.divisor as nat) <= MAX_BAUD,
        divisor_of(baud_of(f.divisor as nat)) == f.divisor,
    ensures
        parse(render(f)) == Some(f),
{
    let baud = baud_of(f.divisor as nat);
    let head = decimal(baud);
    lemma_decimal_read_back(baud);
    let s = render(f);
    assert(s.len() == head.len() + 4);
    assert(s.take(s.len() - 4) =~= head);
    let frame = s.skip(s.len() - 4);
    assert(frame[0] == 0x2d);
    assert(frame[1] == data_bits_char(f.data_bits));
    assert(frame[2] == parity_char(f.parity));
    assert(frame[3] == stop_bits_char(f.stop_bits));
}

/// Writing a line setting with a baud rate that divides the highest rate
/// and then reading the file gives the text that was written: the rate
/// without sign or leading zeros, the hyphen, and the three characters as
/// they were, for a parity letter that is a capital.
pub proof fn lemma_write_then_read(baud: nat, data_bits: DataBits, parity: Parity, stop_bits: StopBits)
    requires
        2 <= baud <= MAX_BAUD,
        MAX_BAUD as nat % baud == 0,
    ensures
        ({
            let text = decimal(baud).push(0x2d).push(data_bits_char(data_bits)).push(
                parity_char(parity),
            ).push(stop_bits_char(stop_bits));
            &&& parse(text) matches Some(f)
            &&& f.divisor > 0
            &&& render(f) == text
        }),
{
    lemma_divisor_gives_baud_back(baud);
    lemma_decimal_read_back(baud);
    let head = decimal(baud);
    let text = head.push(0x2d).push(data_bits_char(data_bits)).push(parity_char(parity)).push(
        stop_bits_char(stop_bits),
    );
    assert(text.len() == head.len() + 4);
    assert(text.take(text.len() - 4) =~= head);
    let frame = text.skip(text.len() - 4);
    assert(frame[0] == 0x2d);
    assert(frame[1] == data_bits_char(data_bits));
    assert(frame[2] == parity_char(parity));
    assert(frame[3] == stop_bits_char(stop_bits));
}

} // verus!
