//! Runner identity: a globally-unique runner name assembled from the board
//! token, location, identifier, sixteen random hexadecimal digits, and the
//! local calendar date. Uniqueness is probabilistic — 64 bits of entropy —
//! so a stale registration left by a crash never blocks a retry.

use vstd::prelude::*;
use vstd::string::*;

use crate::target::board_token;
use crate::target::board_token_str;
use crate::target::FpgaTarget;

verus! {

/// The character for one digit value: decimal for 0..=9, upper-case
/// hexadecimal for 10..=15.
pub open spec fn digit_char(d: int) -> char {
    if d == 0 {
        '0'
    } else if d == 1 {
        '1'
    } else if d == 2 {
        '2'
    } else if d == 3 {
        '3'
    } else if d == 4 {
        '4'
    } else if d == 5 {
        '5'
    } else if d == 6 {
        '6'
    } else if d == 7 {
        '7'
    } else if d == 8 {
        '8'
    } else if d == 9 {
        '9'
    } else if d == 10 {
        'A'
    } else if d == 11 {
        'B'
    } else if d == 12 {
        'C'
    } else if d == 13 {
        'D'
    } else if d == 14 {
        'E'
    } else {
        'F'
    }
}

/// The decimal text of a natural number, without padding.
pub open spec fn dec_text(n: nat) -> Seq<char>
    decreases n,
{
    if n < 10 {
        seq![digit_char(n as int)]
    } else {
        dec_text(n / 10).push(digit_char((n % 10) as int))
    }
}

/// Two decimal digits, zero-padded, for 0..=99.
pub open spec fn two_digit_text(n: int) -> Seq<char> {
    seq![digit_char(n / 10), digit_char(n % 10)]
}

/// The year, zero-padded to four digits for 0..=9999 — the only years a
/// real clock reaches. Outside that span, which chrono can represent but
/// no clock produces, this renders plain decimal with a bare minus sign.
pub open spec fn year_text(y: int) -> Seq<char> {
    if 0 <= y <= 9999 {
        seq![
            digit_char(y / 1000),
            digit_char((y / 100) % 10),
            digit_char((y / 10) % 10),
            digit_char(y % 10),
        ]
    } else if y > 9999 {
        dec_text(y as nat)
    } else {
        seq!['-'] + dec_text((-y) as nat)
    }
}

/// The calendar date as `YYYY-MM-DD`.
pub open spec fn date_text(y: int, m: int, d: int) -> Seq<char> {
    year_text(y) + seq!['-'] + two_digit_text(m) + seq!['-'] + two_digit_text(d)
}

/// One upper-case hexadecimal digit per nonce byte: each byte is reduced
/// modulo 16, so every digit is uniform when the bytes are.
pub open spec fn nonce_text(bs: Seq<u8>) -> Seq<char>
    decreases bs.len(),
{
    if bs.len() == 0 {
        Seq::empty()
    } else {
        nonce_text(bs.drop_last()) + seq![digit_char((bs.last() % 16) as int)]
    }
}

/// The full runner name:
/// `{board}-{location}-{identifier}-{16 hex digits}-{YYYY-MM-DD}`.
pub open spec fn name_text(
    target: FpgaTarget,
    location: Seq<char>,
    identifier: Seq<char>,
    nonce: Seq<u8>,
    y: int,
    m: int,
    d: int,
) -> Seq<char> {
    board_token(target) + seq!['-'] + location + seq!['-'] + identifier + seq!['-'] + nonce_text(
        nonce,
    ) + seq!['-'] + date_text(y, m, d)
}

/// The nonce renders one digit per byte.
pub proof fn lemma_nonce_text_len(bs: Seq<u8>)
    ensures
        nonce_text(bs).len() == bs.len(),
    decreases bs.len(),
{
    if bs.len() != 0 {
        lemma_nonce_text_len(bs.drop_last());
    }
}

/// Law: two names generated from the same target, location, identifier and
/// date differ whenever their nonces render differently — collision
/// avoidance rests on the sixteen random hexadecimal digits alone.
pub proof fn lemma_name_depends_on_nonce(
    target: FpgaTarget,
    location: Seq<char>,
    identifier: Seq<char>,
    b1: Seq<u8>,
    b2: Seq<u8>,
    y: int,
    m: int,
    d: int,
)
    requires
        b1.len() == b2.len(),
        nonce_text(b1) != nonce_text(b2),
    ensures
        name_text(target, location, identifier, b1, y, m, d) != name_text(
            target,
            location,
            identifier,
            b2,
            y,
            m,
            d,
        ),
{
    lemma_nonce_text_len(b1);
    lemma_nonce_text_len(b2);
    let n1 = nonce_text(b1);
    let n2 = nonce_text(b2);
    assert(!(n1 =~= n2));
    let k = choose|k: int| 0 <= k < n1.len() && n1[k] != n2[k];
    let p = board_token(target).len() + 1 + location.len() + 1 + identifier.len() + 1 + k;
    assert(name_text(target, location, identifier, b1, y, m, d)[p] == n1[k]);
    assert(name_text(target, location, identifier, b2, y, m, d)[p] == n2[k]);
}

/// One digit as a string slice.
fn digit_str(d: u8) -> (r: &'static str)
    requires
        d < 16,
    ensures
        r@ == seq![digit_char(d as int)],
{
    let r: &'static str = match d {
        0 => "0",
        1 => "1",
        2 => "2",
        3 => "3",
        4 => "4",
        5 => "5",
        6 => "6",
        7 => "7",
        8 => "8",
        9 => "9",
        10 => "A",
        11 => "B",
        12 => "C",
        13 => "D",
        14 => "E",
        _ => "F",
    };
    proof {
        reveal_strlit("0");
        reveal_strlit("1");
        reveal_strlit("2");
        reveal_strlit("3");
        reveal_strlit("4");
        reveal_strlit("5");
        reveal_strlit("6");
        reveal_strlit("7");
        reveal_strlit("8");
        reveal_strlit("9");
        reveal_strlit("A");
        reveal_strlit("B");
        reveal_strlit("C");
        reveal_strlit("D");
        reveal_strlit("E");
        reveal_strlit("F");
        assert(r@ =~= seq![digit_char(d as int)]);
    }
    r
}

/// The decimal text of `n`, without padding.
fn dec_string(n: u64) -> (r: String)
    ensures
        r@ == dec_text(n as nat),
    decreases n,
{
    if n < 10 {
        String::from_str(digit_str(n as u8))
    } else {
        let mut s = dec_string(n / 10);
        s.append(digit_str((n % 10) as u8));
        proof {
            assert(s@ =~= dec_text(n as nat));
        }
        s
    }
}

/// The year as four zero-padded digits in the common range, decimal text
/// outside it.
fn year_string(y: i32) -> (r: String)
    requires
        -262143 <= y <= 262142,
    ensures
        r@ == year_text(y as int),
{
    if 0 <= y && y <= 9999 {
        let u = y as u32;
        let mut s = String::new();
        s.append(digit_str((u / 1000) as u8));
        s.append(digit_str(((u / 100) % 10) as u8));
        s.append(digit_str(((u / 10) % 10) as u8));
        s.append(digit_str((u % 10) as u8));
        proof {
            assert(s@ =~= year_text(y as int));
        }
        s
    } else if y > 9999 {
        dec_string(y as u64)
    } else {
        let mut s = String::from_str("-");
        let tail = dec_string((-(y as i64)) as u64);
        s.append(tail.as_str());
        proof {
            reveal_strlit("-");
            assert(s@ =~= year_text(y as int));
        }
        s
    }
}

/// The sixteen-digit (or, in general, one-digit-per-byte) hexadecimal text
/// of the nonce bytes.
fn nonce_string(nonce: &Vec<u8>) -> (r: String)
    ensures
        r@ == nonce_text(nonce@),
{
    let mut s = String::new();
    let mut i: usize = 0;
    while i < nonce.len()
        invariant
            i <= nonce@.len(),
            s@ == nonce_text(nonce@.subrange(0, i as int)),
        decreases nonce@.len() - i,
    {
        let b = nonce[i] % 16;
        s.append(digit_str(b));
        proof {
            let pre = nonce@.subrange(0, (i + 1) as int);
            assert(pre.drop_last() =~= nonce@.subrange(0, i as int));
            assert(pre.last() == nonce@[i as int]);
            assert(s@ =~= nonce_text(pre));
        }
        i = i + 1;
    }
    proof {
        assert(nonce@.subrange(0, nonce@.len() as int) =~= nonce@);
    }
    s
}

/// A runner name. The sixteen random hexadecimal digits de-duplicate names
/// in case a runner crashes and its registration is not cleaned up.
pub struct RunnerName(String);

impl View for RunnerName {
    type V = Seq<char>;

    closed spec fn view(&self) -> Seq<char> {
        self.0@
    }
}

/// Relies on `rand::random`: one byte from the thread-local generator.
/// Nothing is promised of the value.
#[verifier::external_body]
fn random_byte() -> u8 {
    rand::random::<u8>()
}

/// Relies on chrono's `Local::now` and the `Datelike` accessors of
/// `NaiveDate`: the local calendar date now, as (year, month, day). The
/// bounds are `NaiveDate`'s own invariants: month 1..=12, day 1..=31, year
/// within chrono's representable span.
#[verifier::external_body]
fn local_date_today() -> (r: (i32, u32, u32))
    ensures
        -262143 <= r.0 <= 262142,
        1 <= r.1 <= 12,
        1 <= r.2 <= 31,
{
    let d = chrono::Local::now().date_naive();
    (chrono::Datelike::year(&d), chrono::Datelike::month(&d), chrono::Datelike::day(&d))
}

impl RunnerName {
    /// Assembles the name from explicit parts: the nonce bytes and the date
    /// are arguments, so the format is pinned down exactly.
    pub fn assemble(
        target: FpgaTarget,
        identifier: &str,
        location: &str,
        nonce: &Vec<u8>,
        year: i32,
        month: u32,
        day: u32,
    ) -> (r: RunnerName)
        requires
            -262143 <= year <= 262142,
            1 <= month <= 12,
            1 <= day <= 31,
        ensures
            r@ == name_text(
                target,
                location@,
                identifier@,
                nonce@,
                year as int,
                month as int,
                day as int,
            ),
    {
        let mut s = String::new();
        s.append(board_token_str(target));
        s.append("-");
        s.append(location);
        s.append("-");
        s.append(identifier);
        s.append("-");
        let hex = nonce_string(nonce);
        s.append(hex.as_str());
        s.append("-");
        let yt = year_string(year);
        s.append(yt.as_str());
        s.append("-");
        s.append(digit_str((month / 10) as u8));
        s.append(digit_str((month % 10) as u8));
        s.append("-");
        s.append(digit_str((day / 10) as u8));
        s.append(digit_str((day % 10) as u8));
        proof {
            reveal_strlit("-");
            assert(s@ =~= name_text(
                target,
                location@,
                identifier@,
                nonce@,
                year as int,
                month as int,
                day as int,
            ));
        }
        RunnerName(s)
    }

    /// Derives a fresh runner name: the board token of the target family,
    /// the location and identifier verbatim, sixteen fresh random
    /// hexadecimal digits, and today's local date.
    pub fn new(fpga_type: FpgaTarget, identifier: &str, location: &str) -> (r: RunnerName)
        ensures
            exists|nonce: Seq<u8>, y: int, m: int, d: int|
                {
                    &&& nonce.len() == 16
                    &&& -262143 <= y <= 262142
                    &&& 1 <= m <= 12
                    &&& 1 <= d <= 31
                    &&& r@ == #[trigger] name_text(
                        fpga_type,
                        location@,
                        identifier@,
                        nonce,
                        y,
                        m,
                        d,
                    )
                },
    {
        let mut nonce: Vec<u8> = Vec::new();
        let mut i: usize = 0;
        while i < 16
            invariant
                i <= 16,
                nonce@.len() == i,
            decreases 16 - i,
        {
            nonce.push(random_byte());
            i = i + 1;
        }
        let (year, month, day) = local_date_today();
        let r = Self::assemble(fpga_type, identifier, location, &nonce, year, month, day);
        proof {
            assert(nonce@.len() == 16 && r@ == name_text(
                fpga_type,
                location@,
                identifier@,
                nonce@,
                year as int,
                month as int,
                day as int,
            ));
        }
        r
    }

    /// The name as a string slice.
    pub fn as_str(&self) -> (s: &str)
        ensures
            s@ == self@,
    {
        self.0.as_str()
    }

    /// Hands the name out as the plain string the API call takes.
    pub fn into_string(self) -> (s: String)
        ensures
            s@ == self@,
    {
        self.0
    }
}

} // verus!
