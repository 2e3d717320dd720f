//! Explaining why an address cannot be listened on: which process has the port, and what to
//! say about it.
use vstd::arithmetic::div_mod::lemma_div_denominator;
use vstd::arithmetic::power::{lemma_pow0, lemma_pow1, lemma_pow_adds, lemma_pow_positive, pow};
use vstd::prelude::*;

use crate::address::SocketAddress;
use crate::text::{decimal, decimal_text, decimals_are_told_apart, join};

verus! {

/// The first line of some bytes, without its line ending. An ending is a line feed, which may
/// follow a carriage return; the end of the bytes ends a line too. Without bytes there is no
/// line.
pub open spec fn first_line(bytes: Seq<u8>) -> Option<Seq<u8>> {
    if bytes.len() == 0 {
        None
    } else if !bytes.contains(10u8) {
        Some(bytes)
    } else {
        let line = bytes.take(bytes.index_of_first(10u8)->0);
        if line.len() > 0 && line.last() == 13u8 {
            Some(line.drop_last())
        } else {
            Some(line)
        }
    }
}

/// Whether a byte is a decimal digit.
pub open spec fn is_digit(byte: u8) -> bool {
    48 <= byte <= 57
}

/// The number that decimal digits stand for.
pub open spec fn digits_value(digits: Seq<u8>) -> nat
    decreases digits.len(),
{
    if digits.len() == 0 {
        0
    } else {
        (digits_value(digits.drop_last()) * 10 + (digits.last() - 48)) as nat
    }
}

/// Decimal digits without the plus sign that may stand before them.
pub open spec fn without_plus(line: Seq<u8>) -> Seq<u8> {
    if line.len() > 0 && line[0] == 43u8 {
        line.skip(1)
    } else {
        line
    }
}

/// The number of thirty-two bits that a line stands for: one digit or more, perhaps after a
/// plus sign, and nothing else.
pub open spec fn number_of(line: Seq<u8>) -> Option<u32> {
    let digits = without_plus(line);
    if digits.len() > 0 && (forall|i: int| 0 <= i < digits.len() ==> is_digit(#[trigger] digits[i]))
        && digits_value(digits) <= u32::MAX {
        Some(digits_value(digits) as u32)
    } else {
        None
    }
}

/// Finds the end of the first line, including what a carriage return takes away.
fn first_line_len(bytes: &[u8]) -> (len: usize)
    requires
        bytes@.len() > 0,
    ensures
        len <= bytes@.len(),
        first_line(bytes@) == Some(bytes@.take(len as int)),
{
    let mut i: usize = 0;
    while i < bytes.len()
        invariant
            i <= bytes.len(),
            forall|j: int| 0 <= j < i ==> bytes@[j] != 10u8,
        decreases bytes.len() - i,
    {
        if bytes[i] == 10 {
            proof {
                assert(bytes@.contains(10u8));
                bytes@.index_of_first_ensures(10u8);
                assert(bytes@.index_of_first(10u8) == Some(i as int));
            }
            let len: usize = if i > 0 && bytes[i - 1] == 13 {
                i - 1
            } else {
                i
            };
            assert(i > 0 ==> bytes@.take(i as int).drop_last() =~= bytes@.take(i - 1));
            return len;
        }
        i = i + 1;
    }
    assert(bytes@.take(i as int) =~= bytes@);
    i
}

/// Reads the number that a line stands for.
fn parse_number(line: &[u8]) -> (number: Option<u32>)
    ensures
        number == number_of(line@),
{
    let start: usize = if line.len() > 0 && line[0] == 43 {
        1
    } else {
        0
    };
    let ghost digits = without_plus(line@);
    assert(digits =~= line@.skip(start as int));
    if start == line.len() {
        return None;
    }
    let mut value: u64 = 0;
    let mut i: usize = start;
    assert(digits.take(0) =~= Seq::empty());
    while i < line.len()
        invariant
            start <= i <= line.len(),
            digits == without_plus(line@),
            digits == line@.skip(start as int),
            start < line.len(),
            value == digits_value(digits.take(i - start)),
            value <= u32::MAX,
            forall|j: int| 0 <= j < i - start ==> is_digit(#[trigger] digits[j]),
        decreases line.len() - i,
    {
        let byte: u8 = line[i];
        assert(byte == digits[i - start]);
        if byte < 48 || byte > 57 {
            assert(!is_digit(digits[i - start]));
            return None;
        }
        assert(digits.take(i - start + 1).drop_last() =~= digits.take(i - start));
        value = value * 10 + (byte - 48) as u64;
        i = i + 1;
        if value > 0xffff_ffff {
            proof {
                value_grows(digits, i - start);
            }
            return None;
        }
    }
    assert(digits.take(i - start) =~= digits);
    Some(value as u32)
}

proof fn value_grows(digits: Seq<u8>, len: int)
    requires
        0 < len <= digits.len(),
        digits_value(digits.take(len)) > u32::MAX,
    ensures
        (forall|i: int| 0 <= i < digits.len() ==> is_digit(#[trigger] digits[i])) ==> digits_value(
            digits,
        ) >= digits_value(digits.take(len)),
    decreases digits.len() - len,
{
    if len == digits.len() {
        assert(digits.take(len) =~= digits);
    } else {
        if forall|i: int| 0 <= i < digits.len() ==> is_digit(#[trigger] digits[i]) {
            assert(digits.take(len + 1).drop_last() =~= digits.take(len));
            assert(is_digit(digits[len]));
            value_grows(digits, len + 1);
        }
    }
}

/// Reads the id of the process that has a port out of what the lookup command printed: the
/// first line, if it is a number.
pub fn pid_from_output(stdout: &[u8]) -> (pid: Option<u32>)
    ensures
        pid == match first_line(stdout@) {
            Some(line) => number_of(line),
            None => None,
        },
{
    if stdout.len() == 0 {
        return None;
    }
    let len: usize = first_line_len(stdout);
    let (line, _rest) = stdout.split_at(len);
    assert(line@ =~= stdout@.take(len as int));
    parse_number(line)
}

/// The bytes of a number in decimal.
pub open spec fn decimal_bytes(n: nat) -> Seq<u8> {
    Seq::new(decimal(n).len(), |i: int| decimal(n)[i] as u8)
}

proof fn decimal_reads_back(n: nat)
    ensures
        decimal(n).len() > 0,
        forall|i: int| 0 <= i < decimal_bytes(n).len() ==> is_digit(#[trigger] decimal_bytes(n)[i]),
        digits_value(decimal_bytes(n)) == n,
    decreases n,
{
    if n < 10 {
        assert(decimal_bytes(n).drop_last() =~= Seq::empty());
        assert(decimal_bytes(n).last() == 48 + n);
        reveal_with_fuel(digits_value, 2);
    } else {
        decimal_reads_back(n / 10);
        assert(decimal_bytes(n).last() == 48 + n % 10);
        assert(decimal_bytes(n).drop_last() =~= decimal_bytes(n / 10));
        assert forall|i: int| 0 <= i < decimal_bytes(n).len() implies is_digit(
            #[trigger] decimal_bytes(n)[i],
        ) by {
            if i < decimal_bytes(n / 10).len() {
                assert(decimal_bytes(n)[i] == decimal_bytes(n / 10)[i]);
            }
        }
    }
}

/// An id that is printed on a line of its own is read back, whatever follows the line.
pub proof fn printed_pid_reads_back(pid: u32, rest: Seq<u8>)
    ensures
        ({
            let printed = decimal_bytes(pid as nat);
            &&& first_line(printed + seq![10u8] + rest) == Some(printed)
            &&& first_line(printed + seq![13u8, 10u8] + rest) == Some(printed)
            &&& first_line(printed) == Some(printed)
            &&& number_of(printed) == Some(pid)
        }),
{
    let printed = decimal_bytes(pid as nat);
    decimal_reads_back(pid as nat);
    assert(without_plus(printed) =~= printed) by {
        assert(is_digit(printed[0]));
    }
    let unix = printed + seq![10u8] + rest;
    assert(unix[printed.len() as int] == 10u8);
    unix.index_of_first_ensures(10u8);
    let end = unix.index_of_first(10u8)->0;
    assert(end == printed.len()) by {
        if end < printed.len() {
            assert(is_digit(printed[end]));
        }
    }
    assert(unix.take(end) =~= printed);
    assert(is_digit(printed[printed.len() - 1]));
    let windows = printed + seq![13u8, 10u8] + rest;
    assert(windows[printed.len() as int + 1] == 10u8);
    windows.index_of_first_ensures(10u8);
    let end = windows.index_of_first(10u8)->0;
    assert(end == printed.len() + 1) by {
        if end < printed.len() {
            assert(is_digit(printed[end]));
        } else if end == printed.len() {
            assert(windows[end] == 13u8);
        }
    }
    assert(windows.take(end).drop_last() =~= printed);
    if printed.contains(10u8) {
        let k = choose|k: int| 0 <= k < printed.len() && printed[k] == 10u8;
        assert(is_digit(printed[k]));
    }
}

/// The command that prints which process has a port.
pub fn pid_lookup_command(port: u16, windows: bool) -> (command: String)
    ensures
        command@ == if windows {
            "netstat -ano | findstr :"@ + decimal(port as nat)
        } else {
            "lsof -i :"@ + decimal(port as nat) + " -t"@
        },
{
    let port: String = decimal_text(port as u64);
    if windows {
        join("netstat -ano | findstr :", port.as_str())
    } else {
        let mut command: String = join("lsof -i :", port.as_str());
        command.append(" -t");
        command
    }
}

/// Why an address cannot be listened on.
#[derive(Debug, PartialEq, Eq)]
pub enum BindFailure {
    /// Something listens on it already: this process, or nobody knows which; or the lookup
    /// failed.
    AddrInUse { owner: Result<Option<u32>, String> },
    /// Another reason.
    Other { error: String },
}

/// What is said about an address that cannot be listened on.
pub open spec fn bind_explanation(socket: SocketAddress, failure: BindFailure) -> Seq<char> {
    let place = "Failed to bind to address "@ + socket.text();
    let in_use = place + ": Already in use. Is another process using this port?"@;
    match failure {
        BindFailure::AddrInUse { owner: Ok(Some(pid)) } => in_use
            + "\nAlready in use by process with PID "@ + decimal(pid as nat),
        BindFailure::AddrInUse { owner: Ok(None) } => in_use + " for port "@ + decimal(
            socket.port as nat,
        ),
        BindFailure::AddrInUse { owner: Err(error) } => in_use + "\n"@ + error@,
        BindFailure::Other { error } => place + ": "@ + error@,
    }
}

/// Says why an address cannot be listened on.
pub fn bind_failure_message(socket: &SocketAddress, failure: &BindFailure) -> (message: String)
    ensures
        message@ == bind_explanation(*socket, *failure),
{
    let address: String = socket.to_text();
    let mut message: String = join("Failed to bind to address ", address.as_str());
    match failure {
        BindFailure::AddrInUse { owner } => {
            message.append(": Already in use. Is another process using this port?");
            match owner {
                Ok(Some(pid)) => {
                    message.append("\nAlready in use by process with PID ");
                    let pid: String = decimal_text(*pid as u64);
                    message.append(pid.as_str());
                },
                Ok(None) => {
                    message.append(" for port ");
                    let port: String = decimal_text(socket.port as u64);
                    message.append(port.as_str());
                },
                Err(error) => {
                    message.append("\n");
                    message.append(error.as_str());
                },
            }
        },
        BindFailure::Other { error } => {
            message.append(": ");
            message.append(error.as_str());
        },
    }
    message
}

/// Digits stand for a number by their places: the quotient of the number by the power of ten
/// that a place has is, without its tens, the digit at that place, and the number has no more
/// places than there are digits.
pub proof fn digits_have_their_places(digits: Seq<u8>, place: nat)
    requires
        place < digits.len(),
        forall|i: int| 0 <= i < digits.len() ==> 48 <= #[trigger] digits[i] <= 57,
    ensures
        (digits_value(digits) as int / pow(10, place)) % 10 == digits[digits.len() - 1 - place]
            - 48,
        digits_value(digits) < pow(10, digits.len()),
    decreases digits.len(),
{
    let tens = digits.drop_last();
    let n = digits_value(digits) as int;
    lemma_pow0(10);
    lemma_pow1(10);
    assert(48 <= digits.last() <= 57);
    assert forall|i: int| 0 <= i < tens.len() implies 48 <= #[trigger] tens[i] <= 57 by {
        assert(tens[i] == digits[i]);
    }
    assert(n == digits_value(tens) * 10 + (digits.last() - 48));
    lemma_pow_adds(10, 1, tens.len());
    if place > 0 {
        let before = (place - 1) as nat;
        digits_have_their_places(tens, before);
        lemma_pow_adds(10, 1, before);
        lemma_pow_positive(10, before);
        lemma_div_denominator(n, 10, pow(10, before));
        assert(tens[tens.len() - 1 - before] == digits[digits.len() - 1 - place]);
    } else if tens.len() > 0 {
        digits_have_their_places(tens, 0);
    } else {
        assert(digits_value(tens) == 0);
    }
}

/// A line of digits, with or without a plus sign before them, is read as the number that the
/// digits stand for, exactly if that number has thirty-two bits at most.
pub proof fn lines_of_digits_are_numbers(digits: Seq<u8>)
    requires
        digits.len() > 0,
        forall|i: int| 0 <= i < digits.len() ==> 48 <= #[trigger] digits[i] <= 57,
    ensures
        number_of(digits) == number_of(seq![43u8] + digits),
        digits_value(digits) <= u32::MAX ==> (number_of(digits) matches Some(number) && number
            == digits_value(digits)),
        digits_value(digits) > u32::MAX ==> number_of(digits) is None,
{
    assert(48 <= digits[0] <= 57);
    assert((seq![43u8] + digits).skip(1) =~= digits);
}

/// Any other line is no number: one without digits, or with anything but digits behind the place
/// where a plus sign may stand.
pub proof fn other_lines_are_no_numbers(line: Seq<u8>, at: int)
    requires
        line.len() == 0 || line == seq![43u8] || (0 <= at < line.len() && !(48 <= line[at] <= 57)
            && !(at == 0 && line[at] == 43)),
    ensures
        number_of(line) is None,
{
    let digits = without_plus(line);
    if line.len() > 0 && line != seq![43u8] {
        if line[0] == 43u8 {
            assert(digits[at - 1] == line[at]);
        } else {
            assert(digits[at] == line[at]);
        }
    }
}

/// The first line is what stands before the first line feed, less one carriage return at its
/// end; without a line feed it is everything. What follows the line feed does not matter.
pub proof fn the_first_line_ends_at_the_first_line_feed(line: Seq<u8>, rest: Seq<u8>)
    requires
        !line.contains(10u8),
    ensures
        first_line(line + seq![13u8, 10u8] + rest) == Some(line),
        line.len() == 0 || line.last() != 13 ==> first_line(line + seq![10u8] + rest) == Some(line),
        line.len() > 0 ==> first_line(line) == Some(line),
        line.len() == 0 ==> first_line(line) is None,
{
    let unix = line + seq![10u8] + rest;
    assert(unix[line.len() as int] == 10u8);
    unix.index_of_first_ensures(10u8);
    let end = unix.index_of_first(10u8)->0;
    if end < line.len() {
        assert(line[end] == 10u8);
    }
    assert(unix.take(end) =~= line);
    let windows = line + seq![13u8, 10u8] + rest;
    assert(windows[line.len() as int + 1] == 10u8);
    windows.index_of_first_ensures(10u8);
    let end = windows.index_of_first(10u8)->0;
    if end < line.len() {
        assert(line[end] == 10u8);
    } else if end == line.len() {
        assert(windows[end] == 13u8);
    }
    assert(windows.take(end).drop_last() =~= line);
}

/// Why an address cannot be listened on is said with the address, and with the process, the port
/// or the error that belongs to it, whatever they are.
pub proof fn bind_failures_name_what_is_wrong(socket: SocketAddress, pid: u32, error: String)
    ensures
        bind_explanation(socket, BindFailure::AddrInUse { owner: Ok(Some(pid)) })
            == "Failed to bind to address "@ + socket.text()
            + ": Already in use. Is another process using this port?"@
            + "\nAlready in use by process with PID "@ + decimal(pid as nat),
        bind_explanation(socket, BindFailure::AddrInUse { owner: Ok(None) })
            == "Failed to bind to address "@ + socket.text()
            + ": Already in use. Is another process using this port?"@ + " for port "@ + decimal(
            socket.port as nat,
        ),
        bind_explanation(socket, BindFailure::AddrInUse { owner: Err(error) })
            == "Failed to bind to address "@ + socket.text()
            + ": Already in use. Is another process using this port?"@ + "\n"@ + error@,
        bind_explanation(socket, BindFailure::Other { error }) == "Failed to bind to address "@
            + socket.text() + ": "@ + error@,
{
}

/// The process is read from what was printed exactly if the first line is a number, and every
/// number that is printed on the first line is read.
pub proof fn the_printed_process_is_read(stdout: &[u8], pid: u32, rest: Seq<u8>, read: Option<u32>)
    requires
        call_ensures(pid_from_output, (stdout,), read),
        stdout@ == decimal_bytes(pid as nat) || stdout@ == decimal_bytes(pid as nat) + seq![10u8]
            + rest || stdout@ == decimal_bytes(pid as nat) + seq![13u8, 10u8] + rest,
    ensures
        read == Some(pid),
{
    printed_pid_reads_back(pid, rest);
}

/// The command asks for the port that is meant: no two ports have the same one.
pub proof fn each_port_has_its_command(first: u16, second: u16, windows: bool, command: String)
    requires
        call_ensures(pid_lookup_command, (first, windows), command),
        call_ensures(pid_lookup_command, (second, windows), command),
    ensures
        first == second,
        command@ == if windows {
            "netstat -ano | findstr :"@ + decimal(first as nat)
        } else {
            "lsof -i :"@ + decimal(first as nat) + " -t"@
        },
{
    if windows {
        let start = "netstat -ano | findstr :"@.len() as int;
        assert(command@.skip(start) =~= decimal(first as nat));
        assert(command@.skip(start) =~= decimal(second as nat));
    } else {
        let start = "lsof -i :"@.len() as int;
        let end = command@.len() - " -t"@.len();
        assert(command@.subrange(start, end) =~= decimal(first as nat));
        assert(command@.subrange(start, end) =~= decimal(second as nat));
    }
    decimals_are_told_apart(first as nat, second as nat);
}

} // verus!
