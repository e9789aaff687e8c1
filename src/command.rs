//! The fixed command vocabulary and its exact wire text.
use vstd::prelude::*;

verus! {

/// The character of a decimal digit `d` (`d < 10`).
pub open spec fn digit_char(d: nat) -> char {
    if d == 0 {
        '0'
    } else if d == 1 {
        '1'
    } else if d == 2 {
        '2'
    } else if d == 3 {
        '3'
    } else if d == 4 {
        '4'
    } else if d == 5 {
        '5'
    } else if d == 6 {
        '6'
    } else if d == 7 {
        '7'
    } else if d == 8 {
        '8'
    } else {
        '9'
    }
}

/// Base-10 text of `n`, without sign or leading zeros.
pub open spec fn decimal(n: nat) -> Seq<char>
    decreases n,
{
    if n < 10 {
        seq![digit_char(n)]
    } else {
        decimal(n / 10).push(digit_char(n % 10))
    }
}

fn digit_text(d: u16) -> (r: &'static str)
    requires
        d < 10,
    ensures
        r@ == seq![digit_char(d as nat)],
{
    proof {
        reveal_strlit("0");
        reveal_strlit("1");
        reveal_strlit("2");
        reveal_strlit("3");
        reveal_strlit("4");
        reveal_strlit("5");
        reveal_strlit("6");
        reveal_strlit("7");
        reveal_strlit("8");
        reveal_strlit("9");
    }
    match d {
        0 => "0",
        1 => "1",
        2 => "2",
        3 => "3",
        4 => "4",
        5 => "5",
        6 => "6",
        7 => "7",
        8 => "8",
        _ => "9",
    }
}

/// Appends the decimal text of `n` to `out`.
fn append_decimal(out: &mut String, n: u16)
    ensures
        final(out)@ == old(out)@ + decimal(n as nat),
    decreases n,
{
    if n >= 10 {
        append_decimal(out, n / 10);
    }
    out.append(digit_text(n % 10));
    assert(decimal(n as nat) == if n < 10 { seq![digit_char(n as nat)] } else {
        decimal((n / 10) as nat).push(digit_char((n % 10) as nat))
    });
}

/// A command that the link accepts: non-empty and free of line breaks.
pub open spec fn valid_command(text: Seq<char>) -> bool {
    &&& text.len() > 0
    &&& forall|i: int| 0 <= i < text.len() ==> text[i] != '\n' && text[i] != '\r'
}

/// Whether `text` may be sent as a command.
pub fn is_valid_command(text: &str) -> (r: bool)
    ensures
        r == valid_command(text@),
{
    let mut nonempty = false;
    let mut clean = true;
    for c in it: text.chars()
        invariant
            it.seq() == text@,
            nonempty == (it.index() > 0),
            clean == forall|i: int|
                0 <= i < it.index() ==> text@[i] != '\n' && text@[i] != '\r',
    {
        if c == '\n' || c == '\r' {
            clean = false;
        }
        nonempty = true;
    }
    nonempty && clean
}

/// The commands of the piloting vocabulary.
#[derive(Clone, Copy, Debug, PartialEq, Eq, Structural)]
pub enum Command {
    /// `command`: switch the vehicle into SDK control mode.
    EnterControlMode,
    /// `takeoff`
    TakeOff,
    /// `land`
    Land,
    /// `cw <degrees>`
    RotateClockwise(u16),
    /// `back <centimetres>`
    MoveBackward(u16),
    /// `right <centimetres>`
    MoveRight(u16),
    /// `battery?`: the one telemetry query; its reply is a number.
    QueryBattery,
}

impl Command {
    /// The exact text sent on the wire for this command.
    pub open spec fn text(self) -> Seq<char> {
        match self {
            Command::EnterControlMode => "command"@,
            Command::TakeOff => "takeoff"@,
            Command::Land => "land"@,
            Command::RotateClockwise(deg) => "cw "@ + decimal(deg as nat),
            Command::MoveBackward(cm) => "back "@ + decimal(cm as nat),
            Command::MoveRight(cm) => "right "@ + decimal(cm as nat),
            Command::QueryBattery => "battery?"@,
        }
    }

    /// Whether success is signalled by the acknowledgement token.
    pub open spec fn spec_is_action(&self) -> bool {
        !(self is QueryBattery)
    }

    /// Whether success is signalled by the acknowledgement token (every
    /// command but the battery query).
    #[verifier::when_used_as_spec(spec_is_action)]
    pub fn is_action(&self) -> (r: bool)
        ensures
            r == self.spec_is_action(),
    {
        match self {
            Command::QueryBattery => false,
            _ => true,
        }
    }

    /// Builds the wire text of this command.
    pub fn wire_text(&self) -> (r: String)
        ensures
            r@ == self.text(),
            valid_command(r@),
    {
        proof {
            lemma_decimal_digits_only((0nat));
        }
        let r = match *self {
            Command::EnterControlMode => "command".to_owned(),
            Command::TakeOff => "takeoff".to_owned(),
            Command::Land => "land".to_owned(),
            Command::RotateClockwise(deg) => {
                let mut s = "cw ".to_owned();
                append_decimal(&mut s, deg);
                s
            },
            Command::MoveBackward(cm) => {
                let mut s = "back ".to_owned();
                append_decimal(&mut s, cm);
                s
            },
            Command::MoveRight(cm) => {
                let mut s = "right ".to_owned();
                append_decimal(&mut s, cm);
                s
            },
            Command::QueryBattery => "battery?".to_owned(),
        };
        proof {
            reveal_strlit("command");
            reveal_strlit("takeoff");
            reveal_strlit("land");
            reveal_strlit("cw ");
            reveal_strlit("back ");
            reveal_strlit("right ");
            reveal_strlit("battery?");
            match *self {
                Command::RotateClockwise(n) => lemma_decimal_digits_only(n as nat),
                Command::MoveBackward(n) => lemma_decimal_digits_only(n as nat),
                Command::MoveRight(n) => lemma_decimal_digits_only(n as nat),
                _ => {},
            }
        }
        r
    }
}

/// Whether `c` is one of the ten decimal digit characters.
pub open spec fn is_digit(c: char) -> bool {
    '0' <= c && c <= '9'
}

/// The decimal text of a number is a non-empty run of digits.
pub proof fn lemma_decimal_digits_only(n: nat)
    ensures
        decimal(n).len() > 0,
        forall|i: int| 0 <= i < decimal(n).len() ==> is_digit(#[trigger] decimal(n)[i]),
    decreases n,
{
    if n >= 10 {
        lemma_decimal_digits_only(n / 10);
    }
}

} // verus!
