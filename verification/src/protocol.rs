//! Outbound control messages of the inspector wire protocol.
//!
//! Every control message is a JSON object with two members, a numeric `id`
//! and the name of the remote `method`, sent as one text frame.

use vstd::prelude::*;

verus! {

/// Identifier of the one message that switches instrumentation on.
pub const ENABLE_ID: u64 = 1;

/// Identifier of the first liveness probe of a session.
pub const FIRST_PROBE_ID: u64 = 2;

/// The remote methods this client calls.
#[derive(Clone, Copy, Debug, PartialEq, Eq, Structural)]
pub enum Method {
    /// Asks the remote runtime to start reporting events.
    Enable,
    /// A call without effect, sent only to keep the connection from idling out.
    GetIsolateId,
}

impl Method {
    /// The method's name on the wire.
    pub open spec fn wire_name(self) -> Seq<char> {
        match self {
            Method::Enable => "Runtime.enable"@,
            Method::GetIsolateId => "Runtime.getIsolateId"@,
        }
    }

    pub fn name(self) -> (name: &'static str)
        ensures
            name@ == self.wire_name(),
    {
        match self {
            Method::Enable => "Runtime.enable",
            Method::GetIsolateId => "Runtime.getIsolateId",
        }
    }
}

/// The character that writes the digit `d`.
pub open spec fn digit_char(d: nat) -> char {
    if d == 0 {
        '0'
    } else if d == 1 {
        '1'
    } else if d == 2 {
        '2'
    } else if d == 3 {
        '3'
    } else if d == 4 {
        '4'
    } else if d == 5 {
        '5'
    } else if d == 6 {
        '6'
    } else if d == 7 {
        '7'
    } else if d == 8 {
        '8'
    } else {
        '9'
    }
}

/// The decimal numeral of `n`: most significant digit first, no leading zero
/// except for zero itself.
pub open spec fn decimal(n: nat) -> Seq<char>
    decreases n,
{
    if n < 10 {
        seq![digit_char(n)]
    } else {
        decimal(n / 10).push(digit_char(n % 10))
    }
}

/// The digit that `c` writes; zero for a character that writes none.
pub open spec fn digit_value(c: char) -> nat {
    if c == '1' {
        1
    } else if c == '2' {
        2
    } else if c == '3' {
        3
    } else if c == '4' {
        4
    } else if c == '5' {
        5
    } else if c == '6' {
        6
    } else if c == '7' {
        7
    } else if c == '8' {
        8
    } else if c == '9' {
        9
    } else {
        0
    }
}

pub open spec fn is_digit(c: char) -> bool {
    c == '0' || digit_value(c) > 0
}

/// The number that a numeral stands for, read from its most significant
/// digit on.
pub open spec fn numeral_value(digits: Seq<char>) -> nat
    decreases digits.len(),
{
    if digits.len() == 0 {
        0
    } else {
        numeral_value(digits.drop_last()) * 10 + digit_value(digits.last())
    }
}

/// The decimal numeral of a number is made of digits, starts with a zero only
/// for zero itself, and reads back as the number. So two numbers with the
/// same numeral are the same number.
pub proof fn lemma_decimal_reads_back(n: nat)
    ensures
        decimal(n).len() >= 1,
        forall|i: int| 0 <= i < decimal(n).len() ==> is_digit(#[trigger] decimal(n)[i]),
        n > 0 ==> decimal(n)[0] != '0',
        numeral_value(decimal(n)) == n,
    decreases n,
{
    if n < 10 {
        let numeral = decimal(n);
        assert(numeral.drop_last() =~= Seq::<char>::empty());
        assert(numeral.last() == digit_char(n));
        assert(numeral_value(numeral.drop_last()) == 0);
    } else {
        lemma_decimal_reads_back(n / 10);
        let front = decimal(n / 10);
        let numeral = front.push(digit_char(n % 10));
        assert(numeral.drop_last() =~= front);
        assert(numeral.last() == digit_char(n % 10));
        assert(numeral[0] == front[0]);
        assert forall|i: int| 0 <= i < numeral.len() implies is_digit(#[trigger] numeral[i]) by {
            if i < front.len() {
                assert(numeral[i] == front[i]);
            }
        }
    }
}

/// The text of the control message that calls `method` under identifier `id`.
pub open spec fn control_text(id: u64, method: Method) -> Seq<char> {
    "{\"id\": "@ + decimal(id as nat) + ", \"method\": \""@ + method.wire_name() + "\"}"@
}

fn digit_str(d: u64) -> (s: &'static str)
    requires
        d < 10,
    ensures
        s@ == seq![digit_char(d as nat)],
{
    proof {
        reveal_strlit("0");
        reveal_strlit("1");
        reveal_strlit("2");
        reveal_strlit("3");
        reveal_strlit("4");
        reveal_strlit("5");
        reveal_strlit("6");
        reveal_strlit("7");
        reveal_strlit("8");
        reveal_strlit("9");
    }
    let s: &'static str = if d == 0 {
        "0"
    } else if d == 1 {
        "1"
    } else if d == 2 {
        "2"
    } else if d == 3 {
        "3"
    } else if d == 4 {
        "4"
    } else if d == 5 {
        "5"
    } else if d == 6 {
        "6"
    } else if d == 7 {
        "7"
    } else if d == 8 {
        "8"
    } else {
        "9"
    };
    assert(s@ =~= seq![digit_char(d as nat)]);
    s
}

/// Appends the decimal numeral of `n` to `out`.
pub fn push_decimal(out: &mut String, n: u64)
    ensures
        final(out)@ == old(out)@ + decimal(n as nat),
    decreases n,
{
    if n >= 10 {
        push_decimal(out, n / 10);
    }
    out.append(digit_str(n % 10));
    assert(final(out)@ =~= old(out)@ + decimal(n as nat));
}

/// A control message: which method to call, and under which identifier.
#[derive(Clone, Copy, Debug, PartialEq, Eq, Structural)]
pub struct ControlMessage {
    pub id: u64,
    pub method: Method,
}

impl ControlMessage {
    /// The message that opens every session: it enables instrumentation and
    /// carries the identifier 1.
    pub fn enable() -> (message: ControlMessage)
        ensures
            message == (ControlMessage { id: ENABLE_ID, method: Method::Enable }),
    {
        ControlMessage { id: ENABLE_ID, method: Method::Enable }
    }

    /// The liveness probe with identifier `id`.
    pub fn probe(id: u64) -> (message: ControlMessage)
        ensures
            message == (ControlMessage { id, method: Method::GetIsolateId }),
    {
        ControlMessage { id, method: Method::GetIsolateId }
    }

    /// The text frame that carries this message.
    pub open spec fn wire_text(self) -> Seq<char> {
        control_text(self.id, self.method)
    }

    pub fn to_text(&self) -> (text: String)
        ensures
            text@ == self.wire_text(),
    {
        let mut text = String::from_str("{\"id\": ");
        push_decimal(&mut text, self.id);
        text.append(", \"method\": \"");
        text.append(self.method.name());
        text.append("\"}");
        assert(text@ =~= self.wire_text());
        text
    }
}

} // verus!
