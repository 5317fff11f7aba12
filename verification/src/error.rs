//! Errors returned by the library

use vstd::prelude::*;

verus! {

/// Why receiving from a command channel failed.
///
/// The variants are those of a broadcast channel's receive error: every
/// sender is gone, or the receiver fell behind and the given number of
/// commands were dropped before it could read them.
#[derive(Copy, Clone, Debug, PartialEq, Eq, Structural)]
pub enum ChannelError {
    /// Every sender of the channel has been dropped.
    Closed,
    /// The receiver lagged behind; this many commands were skipped.
    Lagged(u64),
}

/// The kind of an I/O failure, as far as the relay distinguishes it.
#[derive(Copy, Clone, Debug, PartialEq, Eq, Structural)]
pub enum IoErrorKind {
    ConnectionReset,
    ConnectionRefused,
    ConnectionAborted,
    NotConnected,
    AddrInUse,
    AddrNotAvailable,
    BrokenPipe,
    WouldBlock,
    TimedOut,
    Interrupted,
    UnexpectedEof,
    PermissionDenied,
    Other,
}

/// An I/O failure reported by a socket: its kind and its description.
#[derive(Clone, Debug, PartialEq, Eq)]
pub struct IoFailure {
    pub kind: IoErrorKind,
    pub message: String,
}

impl IoFailure {
    /// Is this the failure that a peer causes by resetting the connection?
    pub fn is_connection_reset(&self) -> (r: bool)
        ensures
            r == (self.kind == IoErrorKind::ConnectionReset),
    {
        match self.kind {
            IoErrorKind::ConnectionReset => true,
            _ => false,
        }
    }
}

/// The methods of this library may return any of the errors defined here.
#[derive(Clone, Debug, PartialEq, Eq)]
pub enum RelayPortError {
    /// Receiving a command from the caller's channel failed.
    InternalCommunicationError(ChannelError),
    /// A socket operation failed.
    IoError(IoFailure),
    /// A string could not be read as a socket address; the description of the failure.
    ParseAddrError(String),
    /// Any other failure, with its description.
    Unknown(String),
}

impl From<IoFailure> for RelayPortError {
    fn from(value: IoFailure) -> (e: RelayPortError) {
        RelayPortError::IoError(value)
    }
}

impl vstd::std_specs::convert::FromSpecImpl<IoFailure> for RelayPortError {
    open spec fn obeys_from_spec() -> bool {
        true
    }

    open spec fn from_spec(v: IoFailure) -> RelayPortError {
        RelayPortError::IoError(v)
    }
}

impl From<ChannelError> for RelayPortError {
    fn from(value: ChannelError) -> (e: RelayPortError) {
        RelayPortError::InternalCommunicationError(value)
    }
}

impl vstd::std_specs::convert::FromSpecImpl<ChannelError> for RelayPortError {
    open spec fn obeys_from_spec() -> bool {
        true
    }

    open spec fn from_spec(v: ChannelError) -> RelayPortError {
        RelayPortError::InternalCommunicationError(v)
    }
}

/// The character of the decimal digit `d` (below 10).
pub open spec fn digit_char(d: nat) -> char {
    seq!['0', '1', '2', '3', '4', '5', '6', '7', '8', '9'][d as int]
}

/// The decimal numeral of `n`, without leading zeros.
pub open spec fn decimal(n: nat) -> Seq<char>
    decreases n,
{
    if n < 10 {
        seq![digit_char(n)]
    } else {
        decimal(n / 10) + seq![digit_char(n % 10)]
    }
}

/// The description of an error, as a reader of the relay's output sees it.
pub open spec fn spec_description(e: RelayPortError) -> Seq<char> {
    match e {
        RelayPortError::IoError(f) => "io error: "@ + f.message@,
        RelayPortError::ParseAddrError(msg) => "unable to parse address: "@ + msg@,
        RelayPortError::Unknown(msg) => "unknown error: "@ + msg@,
        RelayPortError::InternalCommunicationError(ChannelError::Closed) =>
            "internal communication error: channel closed"@,
        RelayPortError::InternalCommunicationError(ChannelError::Lagged(n)) =>
            "internal communication error: channel lagged by "@ + decimal(n as nat),
    }
}

/// The value of a decimal digit character.
pub open spec fn digit_value(c: char) -> int {
    (c as int) - ('0' as int)
}

/// The value of a string of decimal digits, most significant first.
pub open spec fn numeral_value(s: Seq<char>) -> int
    decreases s.len(),
{
    if s.len() == 0 {
        0
    } else {
        numeral_value(s.drop_last()) * 10 + digit_value(s.last())
    }
}

/// The decimal numeral of a number is a non-empty string of the characters '0'
/// to '9', with no leading zero except for 0 itself, that reads back as the number.
pub proof fn law_decimal_reads_back(n: nat)
    ensures
        decimal(n).len() > 0,
        forall|i: int| 0 <= i < decimal(n).len() ==> '0' <= #[trigger] decimal(n)[i] <= '9',
        n > 0 ==> decimal(n)[0] != '0',
        numeral_value(decimal(n)) == n,
    decreases n,
{
    let digits = seq!['0', '1', '2', '3', '4', '5', '6', '7', '8', '9'];
    assert(digits[0] == '0' && digits[1] == '1' && digits[2] == '2' && digits[3] == '3'
        && digits[4] == '4' && digits[5] == '5' && digits[6] == '6' && digits[7] == '7'
        && digits[8] == '8' && digits[9] == '9');
    assert forall|d: nat| d < 10 implies '0' <= #[trigger] digit_char(d) <= '9' && digit_value(
        digit_char(d),
    ) == d && (d > 0 ==> digit_char(d) != '0') by {
        assert(('0' as int) == 48 && ('1' as int) == 49 && ('2' as int) == 50 && ('3' as int) == 51
            && ('4' as int) == 52 && ('5' as int) == 53 && ('6' as int) == 54 && ('7' as int) == 55
            && ('8' as int) == 56 && ('9' as int) == 57);
    }
    if n < 10 {
        let s = decimal(n);
        assert(s.drop_last() =~= Seq::<char>::empty());
        assert(numeral_value(s.drop_last()) == 0);
    } else {
        law_decimal_reads_back(n / 10);
        let s = decimal(n);
        let prefix = decimal(n / 10);
        assert(s.drop_last() =~= prefix);
        assert(s.last() == digit_char(n % 10));
        assert(numeral_value(s) == numeral_value(prefix) * 10 + digit_value(digit_char(n % 10)));
        assert(n == (n / 10) * 10 + n % 10);
        assert forall|i: int| 0 <= i < s.len() implies '0' <= #[trigger] s[i] <= '9' by {
            if i < prefix.len() {
                assert(s[i] == prefix[i]);
            }
        }
        assert(s[0] == prefix[0]);
    }
}

/// The description of an error names its kind and ends with what the error
/// carries: a socket failure's description, the text of a parse or unknown
/// failure, or the number of commands a lagging channel dropped, in decimal
/// (a numeral that reads back as that number).
pub proof fn law_description_carries_the_error(f: IoFailure, msg: String, n: u64)
    ensures
        spec_description(RelayPortError::IoError(f)) == "io error: "@ + f.message@,
        spec_description(RelayPortError::ParseAddrError(msg)) == "unable to parse address: "@ + msg@,
        spec_description(RelayPortError::Unknown(msg)) == "unknown error: "@ + msg@,
        spec_description(RelayPortError::InternalCommunicationError(ChannelError::Lagged(n)))
            == "internal communication error: channel lagged by "@ + decimal(n as nat),
        numeral_value(decimal(n as nat)) == n,
        spec_description(RelayPortError::InternalCommunicationError(ChannelError::Closed))
            == "internal communication error: channel closed"@,
{
    law_decimal_reads_back(n as nat);
}

fn digit_str(d: u64) -> (s: &'static str)
    requires
        d < 10,
    ensures
        s@ == seq![digit_char(d as nat)],
{
    proof {
        reveal_strlit("0");
        reveal_strlit("1");
        reveal_strlit("2");
        reveal_strlit("3");
        reveal_strlit("4");
        reveal_strlit("5");
        reveal_strlit("6");
        reveal_strlit("7");
        reveal_strlit("8");
        reveal_strlit("9");
    }
    let s = if d == 0 {
        "0"
    } else if d == 1 {
        "1"
    } else if d == 2 {
        "2"
    } else if d == 3 {
        "3"
    } else if d == 4 {
        "4"
    } else if d == 5 {
        "5"
    } else if d == 6 {
        "6"
    } else if d == 7 {
        "7"
    } else if d == 8 {
        "8"
    } else {
        "9"
    };
    assert(s@ =~= seq![digit_char(d as nat)]);
    s
}

/// Append the decimal numeral of `n` to `s`.
fn append_decimal(s: &mut String, n: u64)
    ensures
        final(s)@ == old(s)@ + decimal(n as nat),
    decreases n,
{
    if n >= 10 {
        append_decimal(s, n / 10);
    }
    s.append(digit_str(n % 10));
    proof {
        if n >= 10 {
            assert(final(s)@ =~= old(s)@ + decimal(n as nat));
        } else {
            assert(n % 10 == n);
        }
    }
}

impl RelayPortError {
    /// The description of the error (see [`spec_description`]).
    pub fn description(&self) -> (s: String)
        ensures
            s@ == spec_description(*self),
    {
        match self {
            RelayPortError::IoError(f) => {
                let mut s = String::from_str("io error: ");
                s.append(f.message.as_str());
                s
            },
            RelayPortError::ParseAddrError(msg) => {
                let mut s = String::from_str("unable to parse address: ");
                s.append(msg.as_str());
                s
            },
            RelayPortError::Unknown(msg) => {
                let mut s = String::from_str("unknown error: ");
                s.append(msg.as_str());
                s
            },
            RelayPortError::InternalCommunicationError(ChannelError::Closed) => {
                String::from_str("internal communication error: channel closed")
            },
            RelayPortError::InternalCommunicationError(ChannelError::Lagged(n)) => {
                let mut s = String::from_str("internal communication error: channel lagged by ");
                append_decimal(&mut s, *n);
                s
            },
        }
    }
}

} // verus!
