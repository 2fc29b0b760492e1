//! Text for the chart's labels and the final report: decimal numbers with two
//! places, sizes in mebibytes, durations as hours, minutes and seconds.

use vstd::prelude::*;
use vstd::string::*;

verus! {

/// The character of one decimal digit.
pub open spec fn digit_char(d: nat) -> char {
    if d == 0 {
        '0'
    } else if d == 1 {
        '1'
    } else if d == 2 {
        '2'
    } else if d == 3 {
        '3'
    } else if d == 4 {
        '4'
    } else if d == 5 {
        '5'
    } else if d == 6 {
        '6'
    } else if d == 7 {
        '7'
    } else if d == 8 {
        '8'
    } else {
        '9'
    }
}

/// The decimal digits of `n`, without leading zeros.
pub open spec fn decimal(n: nat) -> Seq<char>
    decreases n,
{
    if n < 10 {
        seq![digit_char(n)]
    } else {
        decimal(n / 10).push(digit_char(n % 10))
    }
}

/// The decimal digits of `n`, with a leading zero where it has one digit.
pub open spec fn two_digits(n: nat) -> Seq<char> {
    if n < 10 {
        seq!['0'] + decimal(n)
    } else {
        decimal(n)
    }
}

/// A count of hundredths written with two decimal places.
pub open spec fn two_places(hundredths: nat) -> Seq<char> {
    decimal(hundredths / 100) + seq!['.'] + two_digits(hundredths % 100)
}

/// A number of bytes in hundredths of a mebibyte, rounded to the nearest.
pub open spec fn mebibyte_hundredths(bytes: nat) -> nat {
    (bytes * 100 + 524288) / 1048576
}

/// A duration of `total_seconds` as hours, minutes and seconds, two digits
/// each (more for a hundred hours and above), with colons between them.
pub open spec fn duration_text(total_seconds: nat) -> Seq<char> {
    two_digits(total_seconds / 3600) + seq![':'] + two_digits((total_seconds % 3600) / 60) + seq![
        ':',
    ] + two_digits(total_seconds % 60)
}

/// The text under the chart for one tick.
pub open spec fn x_label_text(
    tick: nat,
    cpu_usage: nat,
    memory_usage: nat,
    total_written_bytes: nat,
    total_read_bytes: nat,
    name: Seq<char>,
    status: Seq<char>,
    disk_write: bool,
    disk_read: bool,
) -> Seq<char> {
    let head = decimal(tick) + " ORANGE = CPU (Usage: "@ + two_places(cpu_usage)
        + " %), GREEN/RED = Memory (Usage: "@ + two_places(mebibyte_hundredths(memory_usage))
        + " MB)"@;
    let with_write = if disk_write {
        head + ", PURPLE - disk write (Usage: "@ + two_places(
            mebibyte_hundredths(total_written_bytes),
        ) + " MB)"@
    } else {
        head
    };
    let with_read = if disk_read {
        with_write + ", BLUE - disk read (Usage: "@ + two_places(
            mebibyte_hundredths(total_read_bytes),
        ) + " MB)"@
    } else {
        with_write
    };
    with_read + " - "@ + name + " ("@ + status + ")"@
}

/// The text of one decimal digit.
fn digit_str(d: u8) -> (s: &'static str)
    requires
        d < 10,
    ensures
        s@ == seq![digit_char(d as nat)],
{
    proof {
        reveal_strlit("0");
        reveal_strlit("1");
        reveal_strlit("2");
        reveal_strlit("3");
        reveal_strlit("4");
        reveal_strlit("5");
        reveal_strlit("6");
        reveal_strlit("7");
        reveal_strlit("8");
        reveal_strlit("9");
    }
    let s: &'static str = if d == 0 {
        "0"
    } else if d == 1 {
        "1"
    } else if d == 2 {
        "2"
    } else if d == 3 {
        "3"
    } else if d == 4 {
        "4"
    } else if d == 5 {
        "5"
    } else if d == 6 {
        "6"
    } else if d == 7 {
        "7"
    } else if d == 8 {
        "8"
    } else {
        "9"
    };
    assert(s@ =~= seq![digit_char(d as nat)]);
    s
}

/// Appends the decimal digits of `n` to `out`.
pub fn append_decimal(out: &mut String, n: u128)
    ensures
        final(out)@ == old(out)@ + decimal(n as nat),
    decreases n,
{
    if n >= 10 {
        append_decimal(out, n / 10);
    }
    let ghost before = out@;
    out.append(digit_str((n % 10) as u8));
    assert(out@ =~= old(out)@ + decimal(n as nat));
}

/// Appends `n` in at least two digits to `out`.
pub fn append_two_digits(out: &mut String, n: u128)
    ensures
        final(out)@ == old(out)@ + two_digits(n as nat),
{
    if n < 10 {
        out.append("0");
        proof {
            reveal_strlit("0");
            assert("0"@ =~= seq!['0']);
        }
    }
    append_decimal(out, n);
    assert(out@ =~= old(out)@ + two_digits(n as nat));
}

/// Appends a count of hundredths, written with two decimal places, to `out`.
pub fn append_two_places(out: &mut String, hundredths: u128)
    ensures
        final(out)@ == old(out)@ + two_places(hundredths as nat),
{
    append_decimal(out, hundredths / 100);
    out.append(".");
    proof {
        reveal_strlit(".");
        assert("."@ =~= seq!['.']);
    }
    append_two_digits(out, hundredths % 100);
    assert(out@ =~= old(out)@ + two_places(hundredths as nat));
}

/// Appends a number of bytes as mebibytes with two decimal places to `out`.
pub fn append_mebibytes(out: &mut String, bytes: u128)
    ensures
        final(out)@ == old(out)@ + two_places(mebibyte_hundredths(bytes as nat)),
{
    let whole: u128 = bytes / 1048576;
    let rest: u128 = bytes % 1048576;
    assert(whole * 100 + (rest * 100 + 524288) / 1048576 == (bytes * 100 + 524288) / 1048576
        && whole * 100 + 100 <= u128::MAX) by (nonlinear_arith)
        requires
            whole == bytes / 1048576,
            rest == bytes % 1048576,
            0 <= bytes <= u128::MAX,
    ;
    let scaled: u128 = whole * 100 + (rest * 100 + 524288) / 1048576;
    append_two_places(out, scaled);
}

/// A CPU load as a line of the report: the title, the load in percent with
/// two decimal places, and a percent sign.
pub open spec fn percent_line_text(title: Seq<char>, hundredths: nat) -> Seq<char> {
    title + two_places(hundredths) + "%"@
}

/// A size as a line of the report: the title, the size in mebibytes with two
/// decimal places, and the unit.
pub open spec fn size_line_text(title: Seq<char>, bytes: nat) -> Seq<char> {
    title + two_places(mebibyte_hundredths(bytes)) + " MB"@
}

/// A line of the report that gives a CPU load.
pub fn percent_line(title: &str, hundredths: u64) -> (line: String)
    ensures
        line@ == percent_line_text(title@, hundredths as nat),
{
    let mut line: String = String::from_str(title);
    append_two_places(&mut line, hundredths as u128);
    line.append("%");
    line
}

/// A line of the report that gives a size.
pub fn size_line(title: &str, bytes: u128) -> (line: String)
    ensures
        line@ == size_line_text(title@, bytes as nat),
{
    let mut line: String = String::from_str(title);
    append_mebibytes(&mut line, bytes);
    line.append(" MB");
    line
}

/// A duration in whole seconds as `HH:MM:SS`.
pub fn format_duration(total_seconds: u64) -> (text: String)
    ensures
        text@ == duration_text(total_seconds as nat),
{
    let hours: u64 = total_seconds / 3600;
    let minutes: u64 = (total_seconds % 3600) / 60;
    let seconds: u64 = total_seconds % 60;
    let mut text: String = String::new();
    append_two_digits(&mut text, hours as u128);
    text.append(":");
    append_two_digits(&mut text, minutes as u128);
    text.append(":");
    append_two_digits(&mut text, seconds as u128);
    proof {
        reveal_strlit(":");
        assert(":"@ =~= seq![':']);
        assert(text@ =~= duration_text(total_seconds as nat));
    }
    text
}

/// The text under the chart: the tick, the CPU load in percent, the memory in
/// mebibytes, the disk traffic where it is shown, then the name and the
/// status of the process.
pub fn x_label_format(
    tick: usize,
    cpu_usage: u64,
    memory_usage: u64,
    total_written_bytes: u64,
    total_read_bytes: u64,
    name: String,
    status: String,
    disk_write: bool,
    disk_read: bool,
) -> (label: String)
    ensures
        label@ == x_label_text(
            tick as nat,
            cpu_usage as nat,
            memory_usage as nat,
            total_written_bytes as nat,
            total_read_bytes as nat,
            name@,
            status@,
            disk_write,
            disk_read,
        ),
{
    let mut label: String = String::new();
    append_decimal(&mut label, tick as u128);
    label.append(" ORANGE = CPU (Usage: ");
    append_two_places(&mut label, cpu_usage as u128);
    label.append(" %), GREEN/RED = Memory (Usage: ");
    append_mebibytes(&mut label, memory_usage as u128);
    label.append(" MB)");
    assert(label@ =~= decimal(tick as nat) + " ORANGE = CPU (Usage: "@ + two_places(
        cpu_usage as nat,
    ) + " %), GREEN/RED = Memory (Usage: "@ + two_places(
        mebibyte_hundredths(memory_usage as nat),
    ) + " MB)"@);
    if disk_write {
        label.append(", PURPLE - disk write (Usage: ");
        append_mebibytes(&mut label, total_written_bytes as u128);
        label.append(" MB)");
    }
    if disk_read {
        label.append(", BLUE - disk read (Usage: ");
        append_mebibytes(&mut label, total_read_bytes as u128);
        label.append(" MB)");
    }
    label.append(" - ");
    label.append(name.as_str());
    label.append(" (");
    label.append(status.as_str());
    label.append(")");
    label
}

} // verus!
