use rand::Rng;
use vstd::prelude::*;
use vstd::string::{StrSliceExecFns, StringExecFns};

use crate::error::AncsError;

verus! {

/// The largest PIN or passkey: codes have six decimal digits.
pub const MAX_CODE: u32 = 999_999;

/// The number of characters a code is padded to.
pub const CODE_WIDTH: usize = 6;

/// The thread-local random number generator of the `rand` crate.
#[verifier::external_type_specification]
#[verifier::external_body]
pub struct ExThreadRng(rand::rngs::ThreadRng);

/// `rand::thread_rng` hands out the calling thread's generator. Nothing is
/// claimed of it. It panics if the operating system cannot seed the
/// generator when the thread first asks for it.
pub assume_specification[ rand::thread_rng ]() -> (rng: rand::rngs::ThreadRng)
;

/// `Rng::gen_range` on the inclusive range `low..=high`: it panics on an
/// empty range, which `requires` leaves out, and otherwise returns a value
/// of the range. Which one is up to the generator.
#[verifier::external_body]
fn gen_range_inclusive(rng: &mut rand::rngs::ThreadRng, low: u32, high: u32) -> (value: u32)
    requires
        low <= high,
    ensures
        low <= value <= high,
{
    rng.gen_range(low..=high)
}

/// The character for one decimal digit.
pub open spec fn digit_char(digit: nat) -> char {
    if digit == 0 {
        '0'
    } else if digit == 1 {
        '1'
    } else if digit == 2 {
        '2'
    } else if digit == 3 {
        '3'
    } else if digit == 4 {
        '4'
    } else if digit == 5 {
        '5'
    } else if digit == 6 {
        '6'
    } else if digit == 7 {
        '7'
    } else if digit == 8 {
        '8'
    } else {
        '9'
    }
}

/// Whether `c` is one of the characters `0` to `9`.
pub open spec fn is_digit_char(c: char) -> bool {
    exists|digit: nat| digit < 10 && c == #[trigger] digit_char(digit)
}

/// The decimal digits of `n`, most significant first, without leading zeros.
pub open spec fn decimal(n: nat) -> Seq<char>
    decreases n,
{
    if n < 10 {
        seq![digit_char(n)]
    } else {
        decimal(n / 10).push(digit_char(n % 10))
    }
}

/// `n` in decimal, with zeros in front of it until it is `CODE_WIDTH`
/// characters long. A number with more digits is not cut.
pub open spec fn zero_padded(n: nat) -> Seq<char> {
    let digits = decimal(n);
    if digits.len() >= CODE_WIDTH {
        digits
    } else {
        Seq::new((CODE_WIDTH - digits.len()) as nat, |i: int| '0') + digits
    }
}

/// How many digits a number below a million has, and that larger numbers
/// have at least six.
pub proof fn lemma_decimal_len(n: nat)
    ensures
        n < 10 ==> decimal(n).len() == 1,
        10 <= n < 100 ==> decimal(n).len() == 2,
        100 <= n < 1_000 ==> decimal(n).len() == 3,
        1_000 <= n < 10_000 ==> decimal(n).len() == 4,
        10_000 <= n < 100_000 ==> decimal(n).len() == 5,
        100_000 <= n < 1_000_000 ==> decimal(n).len() == 6,
        1_000_000 <= n ==> decimal(n).len() > 6,
    decreases n,
{
    if n >= 10 {
        lemma_decimal_len(n / 10);
    }
}

/// A code of at most six digits, zero-padded, is exactly its six decimal
/// digits, from the hundred-thousands down to the units.
pub proof fn lemma_zero_padded_code(code: nat)
    requires
        code <= MAX_CODE,
    ensures
        zero_padded(code) == seq![
            digit_char(code / 100_000),
            digit_char(code / 10_000 % 10),
            digit_char(code / 1_000 % 10),
            digit_char(code / 100 % 10),
            digit_char(code / 10 % 10),
            digit_char(code % 10),
        ],
        zero_padded(code).len() == CODE_WIDTH,
        forall|i: int| 0 <= i < CODE_WIDTH ==> is_digit_char(#[trigger] zero_padded(code)[i]),
{
    lemma_decimal_len(code);
    reveal_with_fuel(decimal, 7);
}

/// The text of one decimal digit.
fn digit_str(digit: u32) -> (text: &'static str)
    requires
        digit < 10,
    ensures
        text@ == seq![digit_char(digit as nat)],
{
    proof {
        reveal_strlit("0");
        reveal_strlit("1");
        reveal_strlit("2");
        reveal_strlit("3");
        reveal_strlit("4");
        reveal_strlit("5");
        reveal_strlit("6");
        reveal_strlit("7");
        reveal_strlit("8");
        reveal_strlit("9");
    }
    match digit {
        0 => "0",
        1 => "1",
        2 => "2",
        3 => "3",
        4 => "4",
        5 => "5",
        6 => "6",
        7 => "7",
        8 => "8",
        _ => "9",
    }
}

/// Appends the decimal digits of `n` to `text`.
fn append_decimal(text: &mut String, n: u32)
    ensures
        final(text)@ == old(text)@ + decimal(n as nat),
    decreases n,
{
    if n >= 10 {
        append_decimal(text, n / 10);
    }
    text.append(digit_str(n % 10));
}

/// Writes a PIN or passkey the way it is shown and typed: in decimal,
/// padded with zeros to six characters.
pub fn format_code(code: u32) -> (text: String)
    ensures
        text@ == zero_padded(code as nat),
        code <= MAX_CODE ==> text@.len() == CODE_WIDTH,
{
    proof {
        lemma_decimal_len(code as nat);
        reveal_strlit("0");
        if code <= MAX_CODE {
            lemma_zero_padded_code(code as nat);
        }
    }
    let mut text = String::new();
    if code < 100_000 {
        text.append("0");
    }
    if code < 10_000 {
        text.append("0");
    }
    if code < 1_000 {
        text.append("0");
    }
    if code < 100 {
        text.append("0");
    }
    if code < 10 {
        text.append("0");
    }
    append_decimal(&mut text, code);
    text
}

/// A passkey for a pairing: a number from 0 to `MAX_CODE`, drawn by the
/// thread's random number generator.
pub fn generate_passkey() -> (passkey: u32)
    ensures
        passkey <= MAX_CODE,
{
    let mut rng = rand::thread_rng();
    gen_range_inclusive(&mut rng, 0, MAX_CODE)
}

/// A PIN for a pairing: a passkey, written with six digits.
pub fn generate_pin() -> (pin: String)
    ensures
        exists|code: nat| code <= MAX_CODE && pin@ == zero_padded(code),
        pin@.len() == CODE_WIDTH,
        forall|i: int| 0 <= i < CODE_WIDTH ==> is_digit_char(#[trigger] pin@[i]),
{
    let code = generate_passkey();
    let pin = format_code(code);
    proof {
        lemma_zero_padded_code(code as nat);
    }
    pin
}

/// What the operator's line says to a yes-or-no question: `y` is yes, `n` is
/// no, and anything else is no answer, so that the question is asked again.
pub open spec fn answer_of(line: Seq<char>) -> Option<bool> {
    if line == seq!['y'] {
        Some(true)
    } else if line == seq!['n'] {
        Some(false)
    } else {
        None
    }
}

/// Reads the operator's answer from a line that has been trimmed.
pub fn parse_answer(line: &str) -> (answer: Option<bool>)
    ensures
        answer == answer_of(line@),
{
    if line.unicode_len() != 1 {
        return None;
    }
    let c = line.get_char(0);
    if c == 'y' {
        assert(line@ =~= seq!['y']);
        Some(true)
    } else if c == 'n' {
        assert(line@ =~= seq!['n']);
        Some(false)
    } else {
        None
    }
}

/// The two requests of the pairing framework that decide whether a peer is
/// trusted.
#[derive(Debug, Clone, Copy, PartialEq, Eq, Structural)]
pub enum TrustRequest {
    /// The operator is to confirm the passkey first.
    Confirmation,
    /// The peer is trusted without asking.
    Authorization,
}

/// Where one such request stands.
#[derive(Debug, Clone, Copy, PartialEq, Eq, Structural)]
pub enum ExchangeState {
    /// The operator has been asked and has not answered.
    AwaitingAnswer,
    /// The transport has been told to trust the peer and has not reported.
    AwaitingTrust,
    /// The request has been answered.
    Finished,
}

/// What happens during a request.
#[derive(Debug, Clone, PartialEq, Eq)]
pub enum ExchangeEvent {
    /// The operator answered: `true` is yes.
    Answered(bool),
    /// The peer is marked trusted.
    TrustSet,
    /// The peer could not be marked trusted, with the cause.
    TrustFailed(String),
}

/// What is to be done next for a request.
#[derive(Debug, PartialEq, Eq)]
pub enum ExchangeAction {
    /// Ask the operator whether the passkey is right.
    AskOperator,
    /// Mark the peer trusted.
    TrustPeer,
    /// Answer the pairing framework: `outcome` is the reply, and `warning`
    /// is something to log that does not change it.
    Reply { outcome: Result<(), AncsError>, warning: Option<AncsError> },
    /// The event was not expected and changed nothing.
    Ignored,
}

/// How a request begins: a confirmation asks the operator, an authorization
/// trusts the peer straight away.
pub open spec fn exchange_start(request: TrustRequest) -> (ExchangeState, ExchangeAction) {
    match request {
        TrustRequest::Confirmation => (ExchangeState::AwaitingAnswer, ExchangeAction::AskOperator),
        TrustRequest::Authorization => (ExchangeState::AwaitingTrust, ExchangeAction::TrustPeer),
    }
}

/// How a request goes on. A "no" ends it with `Rejected`; a "yes" has the
/// peer trusted. Whether or not that works, the pairing is accepted: a
/// failure is only passed on as the warning `TrustSetFailed`.
pub open spec fn exchange_next(state: ExchangeState, event: ExchangeEvent) -> (
    ExchangeState,
    ExchangeAction,
) {
    match state {
        ExchangeState::AwaitingAnswer => match event {
            ExchangeEvent::Answered(true) => (
                ExchangeState::AwaitingTrust,
                ExchangeAction::TrustPeer,
            ),
            ExchangeEvent::Answered(false) => (
                ExchangeState::Finished,
                ExchangeAction::Reply { outcome: Err(AncsError::Rejected), warning: None },
            ),
            _ => (state, ExchangeAction::Ignored),
        },
        ExchangeState::AwaitingTrust => match event {
            ExchangeEvent::TrustSet => (
                ExchangeState::Finished,
                ExchangeAction::Reply { outcome: Ok(()), warning: None },
            ),
            ExchangeEvent::TrustFailed(_) => (
                ExchangeState::Finished,
                ExchangeAction::Reply {
                    outcome: Ok(()),
                    warning: Some(AncsError::TrustSetFailed),
                },
            ),
            _ => (state, ExchangeAction::Ignored),
        },
        ExchangeState::Finished => (state, ExchangeAction::Ignored),
    }
}

/// A request is only ever refused by the operator: whatever the transport
/// reports about trust, the reply is an acceptance.
pub proof fn lemma_only_the_operator_rejects(state: ExchangeState, event: ExchangeEvent)
    ensures
        exchange_next(state, event).1 matches ExchangeAction::Reply { outcome, warning } ==> (
        outcome is Err <==> state == ExchangeState::AwaitingAnswer && event
            == ExchangeEvent::Answered(false)) && (outcome matches Err(error) ==> error
            == AncsError::Rejected) && (warning is Some <==> event is TrustFailed),
        exchange_start(TrustRequest::Authorization).1 == ExchangeAction::TrustPeer,
{
}

/// One confirmation or authorization request, from the callback to the
/// reply.
pub struct PairingExchange {
    state: ExchangeState,
}

impl View for PairingExchange {
    type V = ExchangeState;

    closed spec fn view(&self) -> ExchangeState {
        self.state
    }
}

impl PairingExchange {
    /// Starts on a request: see [`exchange_start`].
    pub fn begin(request: TrustRequest) -> (started: (PairingExchange, ExchangeAction))
        ensures
            (started.0@, started.1) == exchange_start(request),
    {
        match request {
            TrustRequest::Confirmation => (
                PairingExchange { state: ExchangeState::AwaitingAnswer },
                ExchangeAction::AskOperator,
            ),
            TrustRequest::Authorization => (
                PairingExchange { state: ExchangeState::AwaitingTrust },
                ExchangeAction::TrustPeer,
            ),
        }
    }

    /// Where the request stands.
    pub fn state(&self) -> (state: ExchangeState)
        ensures
            state == self@,
    {
        self.state
    }

    /// Takes what happened and says what to do next: see [`exchange_next`].
    pub fn step(&mut self, event: ExchangeEvent) -> (action: ExchangeAction)
        ensures
            (final(self)@, action) == exchange_next(old(self)@, event),
    {
        match self.state {
            ExchangeState::AwaitingAnswer => match event {
                ExchangeEvent::Answered(confirmed) => if confirmed {
                    self.state = ExchangeState::AwaitingTrust;
                    ExchangeAction::TrustPeer
                } else {
                    self.state = ExchangeState::Finished;
                    ExchangeAction::Reply { outcome: Err(AncsError::Rejected), warning: None }
                },
                _ => ExchangeAction::Ignored,
            },
            ExchangeState::AwaitingTrust => match event {
                ExchangeEvent::TrustSet => {
                    self.state = ExchangeState::Finished;
                    ExchangeAction::Reply { outcome: Ok(()), warning: None }
                },
                ExchangeEvent::TrustFailed(_) => {
                    self.state = ExchangeState::Finished;
                    ExchangeAction::Reply {
                        outcome: Ok(()),
                        warning: Some(AncsError::TrustSetFailed),
                    }
                },
                _ => ExchangeAction::Ignored,
            },
            ExchangeState::Finished => ExchangeAction::Ignored,
        }
    }
}

} // verus!
