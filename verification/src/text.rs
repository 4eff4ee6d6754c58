use vstd::prelude::*;
use vstd::string::*;

use crate::message::MessageError;

verus! {

/// The decimal digit character for `d` (meaningful for `d < 10`).
pub open spec fn digit_char(d: nat) -> char {
    seq!['0', '1', '2', '3', '4', '5', '6', '7', '8', '9'][d as int]
}

/// The decimal representation of `n`, without leading zeros.
pub open spec fn decimal(n: nat) -> Seq<char>
    decreases n,
{
    if n < 10 {
        seq![digit_char(n)]
    } else {
        decimal(n / 10).push(digit_char(n % 10))
    }
}

fn push_digit(s: &mut String, d: u16)
    requires
        d < 10,
    ensures
        final(s)@ == old(s)@.push(digit_char(d as nat)),
{
    let digits = "0123456789";
    proof {
        reveal_strlit("0123456789");
    }
    let one = digits.substring_char(d as usize, d as usize + 1);
    assert(one@ =~= seq![digit_char(d as nat)]);
    s.append(one);
}

/// Appends the decimal representation of `n` to `s`.
fn push_decimal(s: &mut String, n: u16)
    ensures
        final(s)@ == old(s)@ + decimal(n as nat),
    decreases n,
{
    if n >= 10 {
        push_decimal(s, n / 10);
        push_digit(s, n % 10);
        proof {
            assert(decimal(n as nat) == decimal((n / 10) as nat).push(digit_char((n % 10) as nat)));
        }
    } else {
        push_digit(s, n);
    }
}

impl<M, E> MessageError<M, E> {
    /// The human-readable text of this error. `payload` is the rendering of
    /// the carried message (for `SendError` and `MessageChannelClosed`) or of
    /// the carried error (for `MessageError`); the other variants ignore it.
    pub open spec fn text(&self, payload: Seq<char>) -> Seq<char> {
        match self {
            MessageError::SendError(_) => "SendError: "@ + payload,
            MessageError::MessageChannelClosed(_) => "ChannelClosed with message: "@ + payload,
            MessageError::MisdirectedResultSendError { origin, result } => "MisdirectedResultSendError: origin_id: "@
                + origin.0@ + ", origin_correlation_id: "@ + decimal(origin.1 as nat) + ", return_id: "@
                + result.0@ + ", return_correlation_id: "@ + decimal(result.1 as nat),
            MessageError::RecvError(origin_id, correlation_id) => "RecvError: origin_id "@ + origin_id@
                + ", correlation_id "@ + decimal(*correlation_id as nat),
            MessageError::MessageError(_) => "MessageErr: "@ + payload,
            MessageError::ResultNotExpected(origin_id) => "ResultNotExpected: origin_id "@ + origin_id@,
        }
    }

    /// Renders this error as text; see `text` for the format.
    pub fn describe(&self, payload: &str) -> (s: String)
        ensures
            s@ == self.text(payload@),
    {
        let mut s = String::new();
        match self {
            MessageError::SendError(_) => {
                s.append("SendError: ");
                s.append(payload);
            },
            MessageError::MessageChannelClosed(_) => {
                s.append("ChannelClosed with message: ");
                s.append(payload);
            },
            MessageError::MisdirectedResultSendError { origin, result } => {
                s.append("MisdirectedResultSendError: origin_id: ");
                s.append(origin.0);
                s.append(", origin_correlation_id: ");
                push_decimal(&mut s, origin.1);
                s.append(", return_id: ");
                s.append(result.0);
                s.append(", return_correlation_id: ");
                push_decimal(&mut s, result.1);
            },
            MessageError::RecvError(origin_id, correlation_id) => {
                s.append("RecvError: origin_id ");
                s.append(origin_id);
                s.append(", correlation_id ");
                push_decimal(&mut s, *correlation_id);
            },
            MessageError::MessageError(_) => {
                s.append("MessageErr: ");
                s.append(payload);
            },
            MessageError::ResultNotExpected(origin_id) => {
                s.append("ResultNotExpected: origin_id ");
                s.append(origin_id);
            },
        }
        s
    }
}

} // verus!
