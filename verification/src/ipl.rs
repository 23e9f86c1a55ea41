//! Initial program load: the Logisim "v2.0 raw" memory image format.
//!
//! An image is a header line `v2.0 raw` followed by one entry per line,
//! each entry a hexadecimal word value with an optional decimal repeat
//! count, written `count*value`. The entries fill a word buffer from the
//! start.

use vstd::prelude::*;
use vstd::seq_lib::*;

verus! {

/// Why a memory image was rejected.
#[derive(Clone, Copy, Debug, PartialEq, Eq, Structural)]
pub enum IplError {
    /// The image has no lines at all.
    UnexpectedEof,
    /// The first line is not `v2.0 raw`.
    InvalidHeader,
    /// A repeat count is not a decimal number that fits the platform.
    BadCount,
    /// A value is not a hexadecimal 32-bit number.
    BadValue,
    /// The entries hold more words than the buffer.
    TooLong,
}

/// ASCII whitespace, as trimmed from each line.
pub open spec fn is_space(b: u8) -> bool {
    b == 32 || b == 9 || b == 10 || b == 11 || b == 12 || b == 13
}

/// A sequence without its leading whitespace.
pub open spec fn drop_leading(s: Seq<u8>) -> Seq<u8>
    decreases s.len(),
{
    if s.len() > 0 && is_space(s[0]) {
        drop_leading(s.drop_first())
    } else {
        s
    }
}

/// A sequence without its trailing whitespace.
pub open spec fn drop_trailing(s: Seq<u8>) -> Seq<u8>
    decreases s.len(),
{
    if s.len() > 0 && is_space(s[s.len() - 1]) {
        drop_trailing(s.drop_last())
    } else {
        s
    }
}

/// A sequence without leading and trailing whitespace.
pub open spec fn trimmed(s: Seq<u8>) -> Seq<u8> {
    drop_trailing(drop_leading(s))
}

/// The value of one hexadecimal digit, upper or lower case.
pub open spec fn hex_digit_value(b: u8) -> Option<u32> {
    if 48 <= b && b <= 57 {
        Some((b - 48) as u32)
    } else if 97 <= b && b <= 102 {
        Some((b - 87) as u32)
    } else if 65 <= b && b <= 70 {
        Some((b - 55) as u32)
    } else {
        None
    }
}

/// The value of one decimal digit.
pub open spec fn dec_digit_value(b: u8) -> Option<usize> {
    if 48 <= b && b <= 57 {
        Some((b - 48) as usize)
    } else {
        None
    }
}

/// Fold the hexadecimal digits of `s` from position `i` onward onto `acc`;
/// `None` on a non-digit or on 32-bit overflow.
pub open spec fn parse_hex_from(s: Seq<u8>, i: int, acc: u32) -> Option<u32>
    decreases s.len() - i,
{
    if i >= s.len() {
        Some(acc)
    } else {
        match hex_digit_value(s[i]) {
            None => None,
            Some(d) => {
                if acc > 0x0fff_ffff {
                    None
                } else {
                    parse_hex_from(s, i + 1, (acc * 16 + d) as u32)
                }
            },
        }
    }
}

/// A hexadecimal 32-bit number: at least one digit, no overflow.
pub open spec fn parse_hex(s: Seq<u8>) -> Option<u32> {
    if s.len() == 0 {
        None
    } else {
        parse_hex_from(s, 0, 0)
    }
}

/// Fold the decimal digits of `s` from position `i` onward onto `acc`;
/// `None` on a non-digit or on overflow of the platform word.
pub open spec fn parse_dec_from(s: Seq<u8>, i: int, acc: usize) -> Option<usize>
    decreases s.len() - i,
{
    if i >= s.len() {
        Some(acc)
    } else {
        match dec_digit_value(s[i]) {
            None => None,
            Some(d) => {
                if acc > usize::MAX / 10 || (acc == usize::MAX / 10 && d > usize::MAX % 10) {
                    None
                } else {
                    parse_dec_from(s, i + 1, (acc * 10 + d) as usize)
                }
            },
        }
    }
}

/// A decimal number: at least one digit, no overflow.
pub open spec fn parse_dec(s: Seq<u8>) -> Option<usize> {
    if s.len() == 0 {
        None
    } else {
        parse_dec_from(s, 0, 0)
    }
}

/// One image line reduced to a repeat count and a word value, or the
/// error it raises. The line is trimmed, split at the first `*` if any,
/// with the count before the star and the value after it.
pub open spec fn line_entry(line: Seq<u8>) -> Result<(usize, u32), IplError> {
    let t = trimmed(line);
    match t.index_of_first(42u8) {
        None => match parse_hex(t) {
            Some(v) => Ok((1usize, v)),
            None => Err(IplError::BadValue),
        },
        Some(k) => match parse_dec(t.subrange(0, k)) {
            None => Err(IplError::BadCount),
            Some(c) => match parse_hex(t.subrange(k + 1, t.len() as int)) {
                Some(v) => Ok((c, v)),
                None => Err(IplError::BadValue),
            },
        },
    }
}

/// The buffer with `count` copies of `value` written at `idx` onward.
pub open spec fn fill_run(buf: Seq<u32>, idx: int, count: usize, value: u32) -> Seq<u32> {
    Seq::new(buf.len(), |j: int| if idx <= j < idx + count { value } else { buf[j] })
}

/// Apply the entry lines of an image to a buffer, filling from `idx`.
pub open spec fn ipl_lines(lines: Seq<Seq<u8>>, buf: Seq<u32>, idx: int) -> Result<
    Seq<u32>,
    IplError,
>
    decreases lines.len(),
{
    if lines.len() == 0 {
        Ok(buf)
    } else {
        match line_entry(lines[0]) {
            Err(e) => Err(e),
            Ok((c, v)) => {
                if idx + c > buf.len() {
                    Err(IplError::TooLong)
                } else {
                    ipl_lines(lines.drop_first(), fill_run(buf, idx, c, v), idx + c)
                }
            },
        }
    }
}

/// The bytes of the header line `v2.0 raw`.
pub open spec fn header_bytes() -> Seq<u8> {
    seq![118u8, 50u8, 46u8, 48u8, 32u8, 114u8, 97u8, 119u8]
}

/// The whole image applied to a buffer: header first, then the entries.
pub open spec fn ipl_result(lines: Seq<Seq<u8>>, buf: Seq<u32>) -> Result<Seq<u32>, IplError> {
    if lines.len() == 0 {
        Err(IplError::UnexpectedEof)
    } else if trimmed(lines[0]) != header_bytes() {
        Err(IplError::InvalidHeader)
    } else {
        ipl_lines(lines.drop_first(), buf, 0)
    }
}

/// `drop_leading` removes exactly the run of leading whitespace.
proof fn lemma_drop_leading(s: Seq<u8>, k: int)
    requires
        0 <= k <= s.len(),
        forall|j: int| 0 <= j < k ==> is_space(s[j]),
        k == s.len() || !is_space(s[k]),
    ensures
        drop_leading(s) == s.subrange(k, s.len() as int),
    decreases k,
{
    if k == 0 {
        assert(s.subrange(0, s.len() as int) =~= s);
    } else {
        let t = s.drop_first();
        assert(forall|j: int| 0 <= j < k - 1 ==> is_space(t[j]));
        lemma_drop_leading(t, k - 1);
        assert(t.subrange(k - 1, t.len() as int) =~= s.subrange(k, s.len() as int));
    }
}

/// `drop_trailing` removes exactly the run of trailing whitespace.
proof fn lemma_drop_trailing(s: Seq<u8>, k: int)
    requires
        0 <= k <= s.len(),
        forall|j: int| k <= j < s.len() ==> is_space(s[j]),
        k == 0 || !is_space(s[k - 1]),
    ensures
        drop_trailing(s) == s.subrange(0, k),
    decreases s.len() - k,
{
    if k == s.len() {
        assert(s.subrange(0, k) =~= s);
    } else {
        let t = s.drop_last();
        assert(forall|j: int| k <= j < t.len() ==> is_space(t[j]));
        lemma_drop_trailing(t, k);
        assert(t.subrange(0, k) =~= s.subrange(0, k));
    }
}

/// Whether a byte counts as whitespace for trimming.
fn is_space_byte(b: u8) -> (r: bool)
    ensures
        r == is_space(b),
{
    b == 32 || b == 9 || b == 10 || b == 11 || b == 12 || b == 13
}

/// The window of `line` that survives trimming.
fn trim_bounds(line: &Vec<u8>) -> (r: (usize, usize))
    ensures
        r.0 <= r.1 <= line@.len(),
        line@.subrange(r.0 as int, r.1 as int) == trimmed(line@),
{
    let n: usize = line.len();
    let mut start: usize = 0;
    while start < n && is_space_byte(line[start])
        invariant
            start <= n,
            n == line@.len(),
            forall|j: int| 0 <= j < start ==> is_space(line@[j]),
        decreases n - start,
    {
        start = start + 1;
    }
    let mut end: usize = n;
    while end > start && is_space_byte(line[end - 1])
        invariant
            start <= end <= n,
            n == line@.len(),
            forall|j: int| end <= j < n ==> is_space(line@[j]),
        decreases end,
    {
        end = end - 1;
    }
    proof {
        lemma_drop_leading(line@, start as int);
        let mid = line@.subrange(start as int, n as int);
        assert(forall|j: int|
            end - start <= j < mid.len() ==> is_space(#[trigger] mid[j]));
        lemma_drop_trailing(mid, end - start);
        assert(mid.subrange(0, end - start) =~= line@.subrange(start as int, end as int));
    }
    (start, end)
}

/// The first `*` in the window `[start, end)` of `line`, if any.
fn find_star(line: &Vec<u8>, start: usize, end: usize) -> (r: Option<usize>)
    requires
        start <= end <= line@.len(),
    ensures
        ({
            let w = line@.subrange(start as int, end as int);
            match r {
                Some(k) => start <= k < end && w.index_of_first(42u8) == Some(k - start),
                None => w.index_of_first(42u8) is None,
            }
        }),
{
    let ghost w = line@.subrange(start as int, end as int);
    let mut i: usize = start;
    while i < end
        invariant
            start <= i <= end <= line@.len(),
            w == line@.subrange(start as int, end as int),
            forall|j: int| 0 <= j < i - start ==> w[j] != 42u8,
        decreases end - i,
    {
        if line[i] == 42 {
            proof {
                w.index_of_first_ensures(42u8);
                assert(w[i - start] == 42u8);
            }
            return Some(i);
        }
        i = i + 1;
    }
    proof {
        w.index_of_first_ensures(42u8);
        if w.index_of_first(42u8) is Some {
            let k = w.index_of_first(42u8)->Some_0;
            assert(w[k] != 42u8);
        }
    }
    None
}

/// The value of one hexadecimal digit, if the byte is one.
fn hex_digit(b: u8) -> (r: Option<u32>)
    ensures
        r == hex_digit_value(b),
{
    if 48 <= b && b <= 57 {
        Some((b - 48) as u32)
    } else if 97 <= b && b <= 102 {
        Some((b - 87) as u32)
    } else if 65 <= b && b <= 70 {
        Some((b - 55) as u32)
    } else {
        None
    }
}

/// Parse the window `[start, end)` of `line` as a hexadecimal number.
fn parse_hex_bytes(line: &Vec<u8>, start: usize, end: usize) -> (r: Option<u32>)
    requires
        start <= end <= line@.len(),
    ensures
        r == parse_hex(line@.subrange(start as int, end as int)),
{
    let ghost w = line@.subrange(start as int, end as int);
    if start == end {
        return None;
    }
    let mut acc: u32 = 0;
    let mut i: usize = start;
    while i < end
        invariant
            start <= i <= end <= line@.len(),
            w == line@.subrange(start as int, end as int),
            parse_hex_from(w, i - start, acc) == parse_hex_from(w, 0, 0),
        decreases end - i,
    {
        match hex_digit(line[i]) {
            None => {
                return None;
            },
            Some(d) => {
                if acc > 0x0fff_ffff {
                    return None;
                }
                acc = acc * 16 + d;
                i = i + 1;
            },
        }
    }
    Some(acc)
}

/// The value of one decimal digit, if the byte is one.
fn dec_digit(b: u8) -> (r: Option<usize>)
    ensures
        r == dec_digit_value(b),
{
    if 48 <= b && b <= 57 {
        Some((b - 48) as usize)
    } else {
        None
    }
}

/// Parse the window `[start, end)` of `line` as a decimal number.
fn parse_dec_bytes(line: &Vec<u8>, start: usize, end: usize) -> (r: Option<usize>)
    requires
        start <= end <= line@.len(),
    ensures
        r == parse_dec(line@.subrange(start as int, end as int)),
{
    let ghost w = line@.subrange(start as int, end as int);
    if start == end {
        return None;
    }
    let mut acc: usize = 0;
    let mut i: usize = start;
    while i < end
        invariant
            start <= i <= end <= line@.len(),
            w == line@.subrange(start as int, end as int),
            parse_dec_from(w, i - start, acc) == parse_dec_from(w, 0, 0),
        decreases end - i,
    {
        match dec_digit(line[i]) {
            None => {
                return None;
            },
            Some(d) => {
                if acc > usize::MAX / 10 || (acc == usize::MAX / 10 && d > usize::MAX % 10) {
                    return None;
                }
                acc = acc * 10 + d;
                i = i + 1;
            },
        }
    }
    Some(acc)
}

/// Load a memory image into `buf`, one line per element of `lines`, as
/// [`ipl_result`] describes. On an error the buffer keeps its length but
/// may already hold entries from the lines before the faulty one.
pub fn initial_program_load(buf: &mut Vec<u32>, lines: &Vec<Vec<u8>>) -> (r: Result<(), IplError>)
    ensures
        final(buf)@.len() == old(buf)@.len(),
        ({
            let sr = ipl_result(lines@.map_values(|l: Vec<u8>| l@), old(buf)@);
            match sr {
                Ok(nb) => r is Ok && final(buf)@ == nb,
                Err(e) => r == Err::<(), IplError>(e),
            }
        }),
{
    let ghost lv = lines@.map_values(|l: Vec<u8>| l@);
    if lines.len() == 0 {
        return Err(IplError::UnexpectedEof);
    }
    let header = &lines[0];
    let (hs, he) = trim_bounds(header);
    let ghost ht = trimmed(lv[0]);
    let header_ok = he - hs == 8 && header[hs] == 118 && header[hs + 1] == 50 && header[hs + 2]
        == 46 && header[hs + 3] == 48 && header[hs + 4] == 32 && header[hs + 5] == 114 && header[hs
        + 6] == 97 && header[hs + 7] == 119;
    proof {
        assert(ht == header@.subrange(hs as int, he as int));
        assert(ht.len() == he - hs);
        if he - hs == 8 {
            assert(ht[0] == header@[hs as int]);
            assert(ht[1] == header@[hs as int + 1]);
            assert(ht[2] == header@[hs as int + 2]);
            assert(ht[3] == header@[hs as int + 3]);
            assert(ht[4] == header@[hs as int + 4]);
            assert(ht[5] == header@[hs as int + 5]);
            assert(ht[6] == header@[hs as int + 6]);
            assert(ht[7] == header@[hs as int + 7]);
        }
        if header_ok {
            assert(ht =~= header_bytes());
        } else {
            assert(ht != header_bytes());
        }
    }
    if !header_ok {
        return Err(IplError::InvalidHeader);
    }
    proof {
        assert(lv.drop_first() =~= lv.skip(1));
    }
    let mut idx: usize = 0;
    let mut li: usize = 1;
    while li < lines.len()
        invariant
            1 <= li <= lines.len(),
            idx <= buf@.len(),
            buf@.len() == old(buf)@.len(),
            lv == lines@.map_values(|l: Vec<u8>| l@),
            lv.len() == lines@.len(),
            ipl_lines(lv.skip(li as int), buf@, idx as int) == ipl_result(lv, old(buf)@),
        decreases lines@.len() - li,
    {
        let line = &lines[li];
        let ghost rest = lv.skip(li as int);
        proof {
            assert(rest[0] == lv[li as int]);
            assert(lv[li as int] == line@);
            assert(rest.drop_first() =~= lv.skip(li as int + 1));
        }
        let (s, e) = trim_bounds(line);
        let ghost t = trimmed(line@);
        let (count, value) = match find_star(line, s, e) {
            None => {
                match parse_hex_bytes(line, s, e) {
                    Some(v) => (1usize, v),
                    None => {
                        return Err(IplError::BadValue);
                    },
                }
            },
            Some(k) => {
                let c = match parse_dec_bytes(line, s, k) {
                    Some(c) => c,
                    None => {
                        proof {
                            assert(t.subrange(0, k - s) =~= line@.subrange(s as int, k as int));
                        }
                        return Err(IplError::BadCount);
                    },
                };
                proof {
                    assert(t.subrange(0, k - s) =~= line@.subrange(s as int, k as int));
                    assert(t.subrange(k - s + 1, t.len() as int) =~= line@.subrange(
                        k as int + 1,
                        e as int,
                    ));
                }
                match parse_hex_bytes(line, k + 1, e) {
                    Some(v) => (c, v),
                    None => {
                        return Err(IplError::BadValue);
                    },
                }
            },
        };
        proof {
            assert(line_entry(line@) == Ok::<(usize, u32), IplError>((count, value)));
        }
        if count > buf.len() - idx {
            return Err(IplError::TooLong);
        }
        let ghost prev = buf@;
        let mut j: usize = 0;
        while j < count
            invariant
                j <= count,
                idx + count <= buf@.len(),
                idx + count <= usize::MAX,
                buf@.len() == prev.len(),
                forall|p: int|
                    0 <= p < buf@.len() ==> buf@[p] == (if idx <= p < idx + j {
                        value
                    } else {
                        prev[p]
                    }),
            decreases count - j,
        {
            buf.set(idx + j, value);
            j = j + 1;
        }
        proof {
            assert(buf@ =~= fill_run(prev, idx as int, count, value));
        }
        idx = idx + count;
        li = li + 1;
    }
    proof {
        assert(lv.skip(li as int) =~= Seq::<Seq<u8>>::empty());
    }
    Ok(())
}

} // verus!
