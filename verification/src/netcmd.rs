//! The `net` command of the shell: what a command line asks for, and what the
//! shell does about it given whether its socket is open.
//!
//! A command line is a sequence of words with one space between them. The
//! first word is the command; `udp` may be followed by a port.

use vstd::prelude::*;

verus! {

/// The port that `udp` listens on when the command line names none.
pub const DEFAULT_PORT: u16 = 6502;

/// The most bytes that are received of one datagram.
pub const UDP_TEST_SIZE: usize = 64;

/// Which socket a notification is about.
#[derive(Debug, Clone, Copy, PartialEq, Eq, Structural)]
pub enum NetCmdDispatch {
    /// The socket that `udp` opened.
    UdpTest1,
    /// Its duplicate, that `udpclone` made.
    UdpTest2,
}

impl NetCmdDispatch {
    /// The number of the notification on the wire: its place in the list.
    pub open spec fn code(self) -> int {
        match self {
            NetCmdDispatch::UdpTest1 => 0,
            NetCmdDispatch::UdpTest2 => 1,
        }
    }

    pub fn to_usize(&self) -> (r: Option<usize>)
        ensures
            r == Some(self.code() as usize),
    {
        match self {
            NetCmdDispatch::UdpTest1 => Some(0),
            NetCmdDispatch::UdpTest2 => Some(1),
        }
    }

    /// The notification with the number `n`, if there is one.
    pub fn from_usize(n: usize) -> (r: Option<NetCmdDispatch>)
        ensures
            r is Some <==> n < 2,
            r is Some ==> r->Some_0.code() == n,
    {
        if n == 0 {
            Some(NetCmdDispatch::UdpTest1)
        } else if n == 1 {
            Some(NetCmdDispatch::UdpTest2)
        } else {
            None
        }
    }
}

/// What a command line asks for.
#[derive(Debug, Clone, Copy, PartialEq, Eq, Structural)]
pub enum NetCommand {
    /// `udp [port]`: listen on a port.
    Udp { port: u16 },
    /// `udpclose`: close the socket.
    UdpClose,
    /// `udpclone`: duplicate the socket.
    UdpClone,
    /// `udpcloneclose`: close the duplicate.
    UdpCloneClose,
    /// Anything else: say how the command is used.
    Help,
}

/// What the shell does about a command line.
#[derive(Debug, Clone, Copy, PartialEq, Eq, Structural)]
pub enum NetAction {
    /// Say that the socket is open already.
    ReportInstalled,
    /// Open the socket on `port`.
    Bind { port: u16 },
    /// Close the socket.
    ClosePrimary,
    /// Duplicate the socket.
    Duplicate,
    /// Say that there is no socket to duplicate.
    ReportNoSocket,
    /// Close the duplicate.
    CloseClone,
    /// Say how the command is used.
    Help,
}

/// Where the word that begins at `from` ends: at the next space, or at the
/// end of the line.
pub open spec fn word_end(line: Seq<char>, from: int) -> int
    decreases line.len() - from,
{
    if from >= line.len() {
        line.len() as int
    } else if line[from] == ' ' {
        from
    } else {
        word_end(line, from + 1)
    }
}

/// The first word of a line. A line that begins with a space, and the empty
/// line, begin with the empty word.
pub open spec fn first_word(line: Seq<char>) -> Seq<char> {
    line.subrange(0, word_end(line, 0))
}

/// The second word of a line, if a space follows the first.
pub open spec fn second_word(line: Seq<char>) -> Option<Seq<char>> {
    let end = word_end(line, 0);
    if end < line.len() {
        Some(line.subrange(end + 1, word_end(line, end + 1)))
    } else {
        None
    }
}

pub open spec fn is_digit(c: char) -> bool {
    '0' <= c <= '9'
}

/// The number that a sequence of decimal digits stands for.
pub open spec fn decimal(digits: Seq<char>) -> int
    decreases digits.len(),
{
    if digits.len() == 0 {
        0
    } else {
        10 * decimal(digits.drop_last()) + (digits.last() as int - '0' as int)
    }
}

/// The word without the plus sign that it may begin with.
pub open spec fn unsigned(word: Seq<char>) -> Seq<char> {
    if word.len() > 0 && word[0] == '+' {
        word.skip(1)
    } else {
        word
    }
}

/// Whether the word is a number: decimal digits, at least one, after at
/// most one plus sign.
pub open spec fn is_number(word: Seq<char>) -> bool {
    unsigned(word).len() > 0 && forall|i: int|
        0 <= i < unsigned(word).len() ==> is_digit(#[trigger] unsigned(word)[i])
}

/// The port that a word names: the number it is, if it is one and is no
/// more than a port can be.
pub open spec fn port_of_word(word: Seq<char>) -> Option<u16> {
    if is_number(word) && decimal(unsigned(word)) <= u16::MAX {
        Some(decimal(unsigned(word)) as u16)
    } else {
        None
    }
}

/// The port that `udp` is to listen on: the one that the second word names,
/// and the default if there is no second word or it names none.
pub open spec fn port_of_line(line: Seq<char>) -> u16 {
    match second_word(line) {
        Some(word) => match port_of_word(word) {
            Some(port) => port,
            None => DEFAULT_PORT,
        },
        None => DEFAULT_PORT,
    }
}

/// What a command line asks for.
pub open spec fn command_of_line(line: Seq<char>) -> NetCommand {
    let word = first_word(line);
    if word == "udp"@ {
        NetCommand::Udp { port: port_of_line(line) }
    } else if word == "udpclose"@ {
        NetCommand::UdpClose
    } else if word == "udpclone"@ {
        NetCommand::UdpClone
    } else if word == "udpcloneclose"@ {
        NetCommand::UdpCloneClose
    } else {
        NetCommand::Help
    }
}

/// What the shell does about a command, given whether its socket is open.
pub open spec fn action_of(command: NetCommand, socket_open: bool) -> NetAction {
    match command {
        NetCommand::Udp { port } => if socket_open {
            NetAction::ReportInstalled
        } else {
            NetAction::Bind { port }
        },
        NetCommand::UdpClose => NetAction::ClosePrimary,
        NetCommand::UdpClone => if socket_open {
            NetAction::Duplicate
        } else {
            NetAction::ReportNoSocket
        },
        NetCommand::UdpCloneClose => NetAction::CloseClone,
        NetCommand::Help => NetAction::Help,
    }
}

/// A number with more digits is no smaller.
proof fn lemma_decimal_grows(digits: Seq<char>, k: int)
    requires
        0 <= k <= digits.len(),
        forall|i: int| 0 <= i < digits.len() ==> is_digit(#[trigger] digits[i]),
    ensures
        0 <= decimal(digits.subrange(0, k)) <= decimal(digits),
    decreases digits.len() - k,
{
    if k == digits.len() {
        assert(digits.subrange(0, k) =~= digits);
        lemma_decimal_not_negative(digits);
    } else {
        let longer = digits.subrange(0, k + 1);
        assert(longer.drop_last() =~= digits.subrange(0, k));
        assert(longer.last() == digits[k]);
        lemma_decimal_not_negative(digits.subrange(0, k));
        lemma_decimal_grows(digits, k + 1);
    }
}

proof fn lemma_decimal_not_negative(digits: Seq<char>)
    requires
        forall|i: int| 0 <= i < digits.len() ==> is_digit(#[trigger] digits[i]),
    ensures
        0 <= decimal(digits),
    decreases digits.len(),
{
    if digits.len() > 0 {
        lemma_decimal_not_negative(digits.drop_last());
    }
}

/// Where the word of `line` that begins at `from` ends.
fn find_word_end(line: &str, from: usize) -> (end: usize)
    requires
        from <= line@.len(),
    ensures
        end == word_end(line@, from as int),
        from <= end <= line@.len(),
{
    let n = line.unicode_len();
    let mut i = from;
    while i < n && line.get_char(i) != ' '
        invariant
            n == line@.len(),
            from <= i <= n,
            word_end(line@, from as int) == word_end(line@, i as int),
        decreases n - i,
    {
        i = i + 1;
    }
    i
}

/// Whether the characters of `line` from `from` up to `to` spell `word`.
fn spells(line: &str, from: usize, to: usize, word: &str) -> (b: bool)
    requires
        from <= to <= line@.len(),
    ensures
        b == (line@.subrange(from as int, to as int) == word@),
{
    let n = word.unicode_len();
    if to - from != n {
        return false;
    }
    let mut k: usize = 0;
    while k < n
        invariant
            n == word@.len(),
            to - from == n,
            from <= to <= line@.len(),
            0 <= k <= n,
            forall|j: int| 0 <= j < k ==> line@[from + j] == word@[j],
        decreases n - k,
    {
        if line.get_char(from + k) != word.get_char(k) {
            assert(line@.subrange(from as int, to as int)[k as int] != word@[k as int]);
            return false;
        }
        k = k + 1;
    }
    assert(line@.subrange(from as int, to as int) =~= word@);
    true
}

/// The port that the characters of `line` from `from` up to `to` name.
fn parse_port(line: &str, from: usize, to: usize) -> (r: Option<u16>)
    requires
        from <= to <= line@.len(),
    ensures
        r == port_of_word(line@.subrange(from as int, to as int)),
{
    let ghost word = line@.subrange(from as int, to as int);
    let mut start = from;
    if start < to && line.get_char(start) == '+' {
        start = start + 1;
    }
    let ghost digits = unsigned(word);
    assert(digits =~= line@.subrange(start as int, to as int));
    if start == to {
        return None;
    }
    let mut value: u32 = 0;
    let mut i = start;
    while i < to
        invariant
            from <= start <= i <= to <= line@.len(),
            word == line@.subrange(from as int, to as int),
            digits == unsigned(word),
            digits == line@.subrange(start as int, to as int),
            forall|j: int| 0 <= j < i - start ==> is_digit(#[trigger] digits[j]),
            value == decimal(digits.subrange(0, i - start)),
            value <= u16::MAX,
        decreases to - i,
    {
        let c = line.get_char(i);
        assert(c == digits[i - start]);
        if !(c >= '0' && c <= '9') {
            assert(!is_digit(digits[i - start]));
            return None;
        }
        let next: u32 = value * 10 + (c as u32 - '0' as u32);
        proof {
            let longer = digits.subrange(0, i - start + 1);
            assert(longer.drop_last() =~= digits.subrange(0, i - start));
            assert(longer.last() == c);
            assert(next == decimal(longer));
        }
        if next > 0xffff {
            proof {
                if is_number(word) {
                    assert forall|j: int| 0 <= j < digits.len() implies is_digit(
                        #[trigger] digits[j],
                    ) by {}
                    lemma_decimal_grows(digits, i - start + 1);
                }
            }
            return None;
        }
        value = next;
        i = i + 1;
    }
    assert(digits.subrange(0, i - start) =~= digits);
    Some(value as u16)
}

/// What the command line asks for.
pub fn parse_command(line: &str) -> (command: NetCommand)
    ensures
        command == command_of_line(line@),
{
    let n = line.unicode_len();
    let end = find_word_end(line, 0);
    if spells(line, 0, end, "udp") {
        let port = if end < n {
            let second_end = find_word_end(line, end + 1);
            match parse_port(line, end + 1, second_end) {
                Some(port) => port,
                None => DEFAULT_PORT,
            }
        } else {
            DEFAULT_PORT
        };
        NetCommand::Udp { port }
    } else if spells(line, 0, end, "udpclose") {
        NetCommand::UdpClose
    } else if spells(line, 0, end, "udpclone") {
        NetCommand::UdpClone
    } else if spells(line, 0, end, "udpcloneclose") {
        NetCommand::UdpCloneClose
    } else {
        NetCommand::Help
    }
}

/// What the shell does about a command, given whether its socket is open.
pub fn decide(command: NetCommand, socket_open: bool) -> (action: NetAction)
    ensures
        action == action_of(command, socket_open),
{
    match command {
        NetCommand::Udp { port } => if socket_open {
            NetAction::ReportInstalled
        } else {
            NetAction::Bind { port }
        },
        NetCommand::UdpClose => NetAction::ClosePrimary,
        NetCommand::UdpClone => if socket_open {
            NetAction::Duplicate
        } else {
            NetAction::ReportNoSocket
        },
        NetCommand::UdpCloneClose => NetAction::CloseClone,
        NetCommand::Help => NetAction::Help,
    }
}

/// What the shell does about a command line, given whether its socket is
/// open.
pub fn process(line: &str, socket_open: bool) -> (action: NetAction)
    ensures
        action == action_of(command_of_line(line@), socket_open),
{
    decide(parse_command(line), socket_open)
}

/// A command never opens a socket that is open, and never duplicates one
/// that is not.
pub proof fn lemma_action_respects_socket(command: NetCommand, socket_open: bool)
    ensures
        action_of(command, socket_open) is Bind ==> !socket_open,
        action_of(command, socket_open) is Duplicate ==> socket_open,
        action_of(command, socket_open) is ReportInstalled ==> socket_open,
        action_of(command, socket_open) is ReportNoSocket ==> !socket_open,
{
}

} // verus!
