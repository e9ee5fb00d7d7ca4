//! Terminal control logic: raw-mode attribute derivation and the byte
//! forms of the escape sequences the renderer emits.
//!
//! The crate never touches a terminal descriptor itself.  The shell
//! around it reads the current attributes, hands them over as plain
//! values, applies the derived raw attributes, and restores the original
//! snapshot on every exit path.

use vstd::prelude::*;

use crate::errors::CoreError;

verus! {

// Line-discipline flag bits and control-character meanings, as the POSIX
// terminal interface defines them on this platform.
/// Input flag: signal interrupt on break.
pub const BRKINT: u32 = 0o000002;
/// Input flag: translate carriage return to newline.
pub const ICRNL: u32 = 0o000400;
/// Input flag: enable input parity checking.
pub const INPCK: u32 = 0o000020;
/// Input flag: strip the eighth bit of each byte.
pub const ISTRIP: u32 = 0o000040;
/// Input flag: software flow control on output.
pub const IXON: u32 = 0o002000;
/// Output flag: output post-processing.
pub const OPOST: u32 = 0o000001;
/// Control flag: eight-bit characters.
pub const CS8: u32 = 0o000060;
/// Local flag: echo input characters.
pub const ECHO: u32 = 0o000010;
/// Local flag: canonical, line-buffered input.
pub const ICANON: u32 = 0o000002;
/// Local flag: extended input processing.
pub const IEXTEN: u32 = 0o100000;
/// Local flag: generate signals for interrupt and suspend characters.
pub const ISIG: u32 = 0o000001;

/// The line-discipline configuration the core reads and derives: the
/// four flag words together with the minimum-bytes and timeout controls
/// for reads.  The snapshot captured at startup is never mutated; raw
/// attributes are always derived from it into a fresh value.
#[derive(Clone, Copy, PartialEq, Eq, Structural, Debug)]
pub struct TerminalAttributes {
    pub iflag: u32,
    pub oflag: u32,
    pub cflag: u32,
    pub lflag: u32,
    pub vmin: u8,
    pub vtime: u8,
}

impl TerminalAttributes {
    /// Derives the raw-mode attributes: echo, canonical input, signal
    /// generation, extended input processing, flow control and
    /// carriage-return translation off, output post-processing off,
    /// eight-bit characters on, and reads that return after at most one
    /// tenth of a second even with no byte available.
    pub fn to_raw(&self) -> (r: TerminalAttributes)
        ensures
            r.iflag == self.iflag & !(BRKINT | ICRNL | INPCK | ISTRIP | IXON),
            r.oflag == self.oflag & !OPOST,
            r.cflag == self.cflag | CS8,
            r.lflag == self.lflag & !(ECHO | ICANON | IEXTEN | ISIG),
            r.vmin == 0,
            r.vtime == 1,
            r.iflag & (BRKINT | ICRNL | INPCK | ISTRIP | IXON) == 0,
            r.oflag & OPOST == 0,
            r.cflag & CS8 == CS8,
            r.lflag & (ECHO | ICANON | IEXTEN | ISIG) == 0,
    {
        let iflag = self.iflag & !(BRKINT | ICRNL | INPCK | ISTRIP | IXON);
        let oflag = self.oflag & !OPOST;
        let cflag = self.cflag | CS8;
        let lflag = self.lflag & !(ECHO | ICANON | IEXTEN | ISIG);
        proof {
            lemma_mask_cleared(self.iflag, BRKINT | ICRNL | INPCK | ISTRIP | IXON);
            lemma_mask_cleared(self.oflag, OPOST);
            lemma_mask_set(self.cflag, CS8);
            lemma_mask_cleared(self.lflag, ECHO | ICANON | IEXTEN | ISIG);
        }
        TerminalAttributes { iflag, oflag, cflag, lflag, vmin: 0, vtime: 1 }
    }
}

/// Clearing the bits of `m` in `x` leaves none of them set.
proof fn lemma_mask_cleared(x: u32, m: u32)
    ensures
        x & !m & m == 0,
{
    assert(x & !m & m == 0) by (bit_vector);
}

/// Setting the bits of `m` in `x` leaves all of them set.
proof fn lemma_mask_set(x: u32, m: u32)
    ensures
        (x | m) & m == m,
{
    assert((x | m) & m == m) by (bit_vector);
}

// Escape sequences the renderer emits, as byte sequences.
/// `ESC [ ? 2 5 l`: hide the cursor.
pub open spec fn spec_hide_cursor() -> Seq<u8> {
    seq![0x1bu8, 0x5bu8, 0x3fu8, 0x32u8, 0x35u8, 0x6cu8]
}

/// `ESC [ ? 2 5 h`: show the cursor.
pub open spec fn spec_show_cursor() -> Seq<u8> {
    seq![0x1bu8, 0x5bu8, 0x3fu8, 0x32u8, 0x35u8, 0x68u8]
}

/// `ESC [ H`: move the cursor to the upper left corner.
pub open spec fn spec_cursor_position_start() -> Seq<u8> {
    seq![0x1bu8, 0x5bu8, 0x48u8]
}

/// `ESC [ K`: erase from the cursor to the end of the line.
pub open spec fn spec_erase_line() -> Seq<u8> {
    seq![0x1bu8, 0x5bu8, 0x4bu8]
}

/// Carriage return and line feed.
pub open spec fn spec_crlf() -> Seq<u8> {
    seq![0x0du8, 0x0au8]
}

/// The shortest decimal numeral for `n`, as ASCII digit bytes.
pub open spec fn spec_decimal(n: nat) -> Seq<u8>
    decreases n,
{
    if n < 10 {
        seq![(0x30 + n) as u8]
    } else {
        spec_decimal(n / 10).push((0x30 + n % 10) as u8)
    }
}

/// `ESC [ row ; col H`: move the cursor to the one-indexed position.
pub open spec fn spec_cursor_position(row: nat, col: nat) -> Seq<u8> {
    seq![0x1bu8, 0x5bu8] + spec_decimal(row) + seq![0x3bu8] + spec_decimal(col) + seq![0x48u8]
}

/// Bytes that hide the cursor.
pub fn hide_cursor() -> (v: Vec<u8>)
    ensures
        v@ == spec_hide_cursor(),
{
    let mut v: Vec<u8> = Vec::new();
    v.push(0x1b);
    v.push(0x5b);
    v.push(0x3f);
    v.push(0x32);
    v.push(0x35);
    v.push(0x6c);
    assert(v@ =~= spec_hide_cursor());
    v
}

/// Bytes that show the cursor.
pub fn show_cursor() -> (v: Vec<u8>)
    ensures
        v@ == spec_show_cursor(),
{
    let mut v: Vec<u8> = Vec::new();
    v.push(0x1b);
    v.push(0x5b);
    v.push(0x3f);
    v.push(0x32);
    v.push(0x35);
    v.push(0x68);
    assert(v@ =~= spec_show_cursor());
    v
}

/// Bytes that move the cursor to the upper left corner.
pub fn cursor_position_start() -> (v: Vec<u8>)
    ensures
        v@ == spec_cursor_position_start(),
{
    let mut v: Vec<u8> = Vec::new();
    v.push(0x1b);
    v.push(0x5b);
    v.push(0x48);
    assert(v@ =~= spec_cursor_position_start());
    v
}

/// Bytes that erase from the cursor to the end of the line.
pub fn erase_line() -> (v: Vec<u8>)
    ensures
        v@ == spec_erase_line(),
{
    let mut v: Vec<u8> = Vec::new();
    v.push(0x1b);
    v.push(0x5b);
    v.push(0x4b);
    assert(v@ =~= spec_erase_line());
    v
}

/// Appends the decimal numeral for `n`.
pub fn push_decimal(buffer: &mut Vec<u8>, n: u16)
    ensures
        final(buffer)@ == old(buffer)@ + spec_decimal(n as nat),
    decreases n,
{
    if n < 10 {
        buffer.push(0x30 + n as u8);
        assert(old(buffer)@ + spec_decimal(n as nat) =~= old(buffer)@.push((0x30 + n) as u8));
    } else {
        push_decimal(buffer, n / 10);
        buffer.push(0x30 + (n % 10) as u8);
        assert(old(buffer)@ + spec_decimal(n as nat) =~= (old(buffer)@ + spec_decimal(
            n as nat / 10,
        )).push((0x30 + n as nat % 10) as u8));
    }
}

/// Appends `ESC [ row ; col H`, the absolute cursor-position sequence
/// for the one-indexed `row` and `col`.
pub fn set_cursor_position_buffer(row: u16, col: u16, buffer: &mut Vec<u8>)
    ensures
        final(buffer)@ == old(buffer)@ + spec_cursor_position(row as nat, col as nat),
{
    buffer.push(0x1b);
    buffer.push(0x5b);
    push_decimal(buffer, row);
    buffer.push(0x3b);
    push_decimal(buffer, col);
    buffer.push(0x48);
    assert(buffer@ =~= old(buffer)@ + spec_cursor_position(row as nat, col as nat));
}

/// Whether `b` is an ASCII decimal digit.
pub open spec fn is_digit(b: u8) -> bool {
    0x30 <= b <= 0x39
}

/// The numeric value of `b` as a digit, zero when it is none.
pub open spec fn digit_of(b: u8) -> nat {
    if is_digit(b) {
        (b - 0x30) as nat
    } else {
        0
    }
}

/// Length of the run of digits in `s` starting at `i`.
pub open spec fn digit_run(s: Seq<u8>, i: int) -> int
    decreases s.len() - i
        when 0 <= i <= s.len()
{
    if i < s.len() && is_digit(s[i]) {
        1 + digit_run(s, i + 1)
    } else {
        0
    }
}

/// The number a sequence of digit bytes denotes in decimal.
pub open spec fn decimal_value(s: Seq<u8>) -> nat
    decreases s.len(),
{
    if s.len() == 0 {
        0
    } else {
        decimal_value(s.drop_last()) * 10 + digit_of(s.last())
    }
}

/// Whether `s` has the exact shape of a cursor-report reply:
/// `ESC [ row ; col R` with nonempty digit fields.
pub open spec fn valid_cursor_report(s: Seq<u8>) -> bool {
    let row_len = digit_run(s, 2);
    let col_start = 3 + row_len;
    let col_len = digit_run(s, col_start);
    &&& s.len() >= 6
    &&& s[0] == 0x1b
    &&& s[1] == 0x5b
    &&& s[s.len() - 1] == 0x52
    &&& row_len >= 1
    &&& 2 + row_len < s.len() && s[2 + row_len] == 0x3b
    &&& col_len >= 1
    &&& col_start + col_len == s.len() - 1
}

/// The row field of a cursor report.
pub open spec fn report_row(s: Seq<u8>) -> nat {
    decimal_value(s.subrange(2, 2 + digit_run(s, 2)))
}

/// The column field of a cursor report.
pub open spec fn report_col(s: Seq<u8>) -> nat {
    let col_start = 3 + digit_run(s, 2);
    decimal_value(s.subrange(col_start, col_start + digit_run(s, col_start)))
}

/// A digit run is exactly the distance to the first non-digit.
proof fn lemma_digit_run_is(s: Seq<u8>, start: int, end: int)
    requires
        0 <= start <= end <= s.len(),
        forall|j: int| start <= j < end ==> is_digit(s[j]),
        end == s.len() || !is_digit(s[end]),
    ensures
        digit_run(s, start) == end - start,
    decreases end - start,
{
    if start < end {
        lemma_digit_run_is(s, start + 1, end);
    }
}

/// Reading one more digit multiplies the value by ten and adds it.
proof fn lemma_decimal_value_step(s: Seq<u8>, start: int, i: int)
    requires
        0 <= start <= i < s.len(),
    ensures
        decimal_value(s.subrange(start, i + 1)) == decimal_value(s.subrange(start, i)) * 10
            + digit_of(s[i]),
{
    assert(s.subrange(start, i + 1).drop_last() =~= s.subrange(start, i));
    assert(s.subrange(start, i + 1).last() == s[i]);
}

/// Scans the run of digits in `reply` starting at `from`, accumulating
/// its decimal value.  Returns the position just past the run, the value
/// when it fits in a `u16`, and `None` when it does not.
fn scan_number(reply: &[u8], from: usize) -> (r: (usize, Option<u16>))
    requires
        from <= reply@.len(),
    ensures
        r.0 == from + digit_run(reply@, from as int),
        r.0 <= reply@.len(),
        ({
            let field = reply@.subrange(from as int, from + digit_run(reply@, from as int));
            match r.1 {
                Some(v) => decimal_value(field) == v,
                None => decimal_value(field) > u16::MAX,
            }
        }),
{
    let end = reply.len();
    let mut i = from;
    let mut value: u32 = 0;
    let mut too_big = false;
    while i < end && 0x30 <= reply[i] && reply[i] <= 0x39
        invariant
            from <= i <= end,
            end == reply@.len(),
            forall|j: int| from <= j < i ==> is_digit(reply@[j]),
            !too_big ==> value == decimal_value(reply@.subrange(from as int, i as int))
                && value <= u16::MAX,
            too_big ==> decimal_value(reply@.subrange(from as int, i as int)) > u16::MAX,
        decreases end - i,
    {
        let d = reply[i];
        proof {
            lemma_decimal_value_step(reply@, from as int, i as int);
        }
        if too_big {
        } else if value > (u16::MAX as u32 - d as u32 + 0x30) / 10 {
            too_big = true;
            proof {
                let prev = decimal_value(reply@.subrange(from as int, i as int));
                assert(prev * 10 + digit_of(reply@[i as int]) > u16::MAX);
            }
        } else {
            value = value * 10 + (d - 0x30) as u32;
        }
        i = i + 1;
    }
    proof {
        lemma_digit_run_is(reply@, from as int, i as int);
    }
    if too_big {
        (i, None)
    } else {
        (i, Some(value as u16))
    }
}

/// Parses the reply to a cursor-report request, `ESC [ row ; col R`,
/// into the reported row and column.  Returns
/// [`CoreError::MalformedGeometryReport`] exactly when the reply does
/// not have that shape or a field does not fit in a `u16`.
pub fn parse_cursor_report(reply: &[u8]) -> (r: Result<(u16, u16), CoreError>)
    ensures
        r is Ok <==> valid_cursor_report(reply@) && report_row(reply@) <= u16::MAX && report_col(
            reply@,
        ) <= u16::MAX,
        r is Ok ==> r->Ok_0.0 == report_row(reply@) && r->Ok_0.1 == report_col(reply@),
        r is Err ==> r == Err::<(u16, u16), CoreError>(CoreError::MalformedGeometryReport),
{
    let n = reply.len();
    if n < 6 || reply[0] != 0x1b || reply[1] != 0x5b || reply[n - 1] != 0x52 {
        return Err(CoreError::MalformedGeometryReport);
    }
    let (row_end, row_value) = scan_number(reply, 2);
    if row_end == 2 || row_end >= n || reply[row_end] != 0x3b {
        return Err(CoreError::MalformedGeometryReport);
    }
    let (col_end, col_value) = scan_number(reply, row_end + 1);
    if col_end == row_end + 1 || col_end != n - 1 {
        return Err(CoreError::MalformedGeometryReport);
    }
    match (row_value, col_value) {
        (Some(row), Some(col)) => Ok((row, col)),
        _ => Err(CoreError::MalformedGeometryReport),
    }
}

} // verus!
