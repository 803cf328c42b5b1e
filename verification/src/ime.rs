//! The messages between the shell and its input method: the operations of a
//! prediction plugin and of the input front end, as numbers on the wire, and
//! the conditions under which a plugin is asked to predict.

use vstd::prelude::*;
use vstd::std_specs::convert::{FromSpecImpl, IntoSpecImpl};

verus! {

/// The bit that stands for `newline` in the number of a set of triggers.
pub const TRIGGER_NEWLINE: usize = 0x1;

/// The bit that stands for `punctuation`.
pub const TRIGGER_PUNCTUATION: usize = 0x2;

/// The bit that stands for `whitespace`.
pub const TRIGGER_WHITESPACE: usize = 0x4;

/// What makes a plugin predict.
#[derive(Debug, Clone, Copy, PartialEq, Eq, Structural)]
pub struct PredictionTriggers {
    /// Predict a line on newline: the whole line goes to the predictor.
    pub newline: bool,
    /// Predict a word on punctuation.
    pub punctuation: bool,
    /// Predict a word on whitespace.
    pub whitespace: bool,
}

/// The number that stands for a set of triggers: one bit for each.
pub open spec fn triggers_code(triggers: PredictionTriggers) -> usize {
    ((if triggers.newline { 1int } else { 0int }) + (if triggers.punctuation { 2int } else { 0int })
        + (if triggers.whitespace { 4int } else { 0int })) as usize
}

/// The set of triggers that a number stands for: its three lowest bits.
pub open spec fn triggers_of_code(code: usize) -> PredictionTriggers {
    PredictionTriggers {
        newline: code & TRIGGER_NEWLINE != 0,
        punctuation: code & TRIGGER_PUNCTUATION != 0,
        whitespace: code & TRIGGER_WHITESPACE != 0,
    }
}

impl Default for PredictionTriggers {
    fn default() -> (triggers: PredictionTriggers)
        ensures
            triggers == (PredictionTriggers {
                newline: false,
                punctuation: false,
                whitespace: false,
            }),
    {
        PredictionTriggers { newline: false, punctuation: false, whitespace: false }
    }
}

impl Into<usize> for PredictionTriggers {
    fn into(self) -> (code: usize) {
        let mut ret: usize = 0;
        if self.newline {
            ret = ret | TRIGGER_NEWLINE;
        }
        assert(ret == if self.newline { 1usize } else { 0usize }) by {
            assert(0usize | 1usize == 1usize) by (bit_vector);
        }
        if self.punctuation {
            let ghost before = ret;
            ret = ret | TRIGGER_PUNCTUATION;
            assert(ret == before + 2) by {
                assert(0usize | 2usize == 2usize) by (bit_vector);
                assert(1usize | 2usize == 3usize) by (bit_vector);
            }
        }
        if self.whitespace {
            let ghost before = ret;
            ret = ret | TRIGGER_WHITESPACE;
            assert(ret == before + 4) by {
                assert(0usize | 4usize == 4usize) by (bit_vector);
                assert(1usize | 4usize == 5usize) by (bit_vector);
                assert(2usize | 4usize == 6usize) by (bit_vector);
                assert(3usize | 4usize == 7usize) by (bit_vector);
            }
        }
        ret
    }
}

impl IntoSpecImpl<usize> for PredictionTriggers {
    open spec fn obeys_into_spec() -> bool {
        true
    }

    open spec fn into_spec(self) -> usize {
        triggers_code(self)
    }
}

impl From<usize> for PredictionTriggers {
    fn from(code: usize) -> (triggers: PredictionTriggers) {
        PredictionTriggers {
            newline: (code & TRIGGER_NEWLINE) != 0,
            punctuation: (code & TRIGGER_PUNCTUATION) != 0,
            whitespace: (code & TRIGGER_WHITESPACE) != 0,
        }
    }
}

impl FromSpecImpl<usize> for PredictionTriggers {
    open spec fn obeys_from_spec() -> bool {
        true
    }

    open spec fn from_spec(code: usize) -> PredictionTriggers {
        triggers_of_code(code)
    }
}

/// The number of a set of triggers is less than eight.
pub proof fn lemma_triggers_code_bound(triggers: PredictionTriggers)
    ensures
        triggers_code(triggers) < 8,
{
}

/// A set of triggers comes back from its number.
pub proof fn lemma_triggers_round_trip(triggers: PredictionTriggers)
    ensures
        triggers_of_code(triggers_code(triggers)) == triggers,
{
    let code = triggers_code(triggers);
    assert(code < 8);
    assert(code < 8 ==> ((code & 1 != 0) <==> (code == 1 || code == 3 || code == 5 || code == 7)))
        by (bit_vector);
    assert(code < 8 ==> ((code & 2 != 0) <==> (code == 2 || code == 3 || code == 6 || code == 7)))
        by (bit_vector);
    assert(code < 8 ==> ((code & 4 != 0) <==> (code == 4 || code == 5 || code == 6 || code == 7)))
        by (bit_vector);
}

/// The number of the set of triggers that a number stands for is its three
/// lowest bits: whatever else the number holds is dropped.
pub proof fn lemma_triggers_of_code_keeps_low_bits(code: usize)
    ensures
        triggers_code(triggers_of_code(code)) == code & 7,
        triggers_of_code(code & 7) == triggers_of_code(code),
{
    let low = code & 7;
    assert(low == (if code & 1 != 0 { 1usize } else { 0usize }) + (if code & 2 != 0 {
        2usize
    } else {
        0usize
    }) + (if code & 4 != 0 { 4usize } else { 0usize })) by (bit_vector)
        requires
            low == code & 7,
    ;
    assert((code & 7) & 1 == code & 1) by (bit_vector);
    assert((code & 7) & 2 == code & 2) by (bit_vector);
    assert((code & 7) & 4 == code & 4) by (bit_vector);
}

/// What the shell asks of a prediction plugin.
#[derive(Debug, Clone, Copy, PartialEq, Eq, Structural)]
pub enum Opcode {
    /// Take the latest input candidate in place of the one before.
    Input,
    /// Learn what was picked.
    Picked,
    /// Take back the last pick.
    Unpick,
    /// Give the prediction at an index, the likeliest first.
    Prediction,
    /// Say what makes the plugin predict.
    GetPredictionTriggers,
}

impl Opcode {
    /// The number of the operation on the wire: its place in the list.
    pub open spec fn code(self) -> int {
        match self {
            Opcode::Input => 0,
            Opcode::Picked => 1,
            Opcode::Unpick => 2,
            Opcode::Prediction => 3,
            Opcode::GetPredictionTriggers => 4,
        }
    }

    pub fn to_usize(&self) -> (r: Option<usize>)
        ensures
            r == Some(self.code() as usize),
    {
        match self {
            Opcode::Input => Some(0),
            Opcode::Picked => Some(1),
            Opcode::Unpick => Some(2),
            Opcode::Prediction => Some(3),
            Opcode::GetPredictionTriggers => Some(4),
        }
    }

    pub fn to_u32(&self) -> (r: Option<u32>)
        ensures
            r == Some(self.code() as u32),
    {
        match self {
            Opcode::Input => Some(0),
            Opcode::Picked => Some(1),
            Opcode::Unpick => Some(2),
            Opcode::Prediction => Some(3),
            Opcode::GetPredictionTriggers => Some(4),
        }
    }

    /// The operation with the number `n`, if there is one.
    pub fn from_usize(n: usize) -> (r: Option<Opcode>)
        ensures
            r is Some <==> n < 5,
            r is Some ==> r->Some_0.code() == n,
    {
        if n == 0 {
            Some(Opcode::Input)
        } else if n == 1 {
            Some(Opcode::Picked)
        } else if n == 2 {
            Some(Opcode::Unpick)
        } else if n == 3 {
            Some(Opcode::Prediction)
        } else if n == 4 {
            Some(Opcode::GetPredictionTriggers)
        } else {
            None
        }
    }
}

/// What is asked of the input front end.
#[derive(Debug, Clone, Copy, PartialEq, Eq, Structural)]
pub enum ImefOpcode {
    /// Connect a backend.
    ConnectBackend,
    /// Register a listener for finished input lines.
    RegisterListener,
    /// Take key events from the keyboard.
    ProcessKeys,
    /// Draw the front end again.
    Redraw,
}

impl ImefOpcode {
    /// The number of the operation on the wire: its place in the list.
    pub open spec fn code(self) -> int {
        match self {
            ImefOpcode::ConnectBackend => 0,
            ImefOpcode::RegisterListener => 1,
            ImefOpcode::ProcessKeys => 2,
            ImefOpcode::Redraw => 3,
        }
    }

    pub fn to_usize(&self) -> (r: Option<usize>)
        ensures
            r == Some(self.code() as usize),
    {
        match self {
            ImefOpcode::ConnectBackend => Some(0),
            ImefOpcode::RegisterListener => Some(1),
            ImefOpcode::ProcessKeys => Some(2),
            ImefOpcode::Redraw => Some(3),
        }
    }

    pub fn to_u32(&self) -> (r: Option<u32>)
        ensures
            r == Some(self.code() as u32),
    {
        match self {
            ImefOpcode::ConnectBackend => Some(0),
            ImefOpcode::RegisterListener => Some(1),
            ImefOpcode::ProcessKeys => Some(2),
            ImefOpcode::Redraw => Some(3),
        }
    }

    /// The operation with the number `n`, if there is one.
    pub fn from_usize(n: usize) -> (r: Option<ImefOpcode>)
        ensures
            r is Some <==> n < 4,
            r is Some ==> r->Some_0.code() == n,
    {
        if n == 0 {
            Some(ImefOpcode::ConnectBackend)
        } else if n == 1 {
            Some(ImefOpcode::RegisterListener)
        } else if n == 2 {
            Some(ImefOpcode::ProcessKeys)
        } else if n == 3 {
            Some(ImefOpcode::Redraw)
        } else {
            None
        }
    }
}

/// What the input front end tells a listener.
#[derive(Debug, Clone, Copy, PartialEq, Eq, Structural)]
pub enum ImefCallback {
    /// A line of input is finished.
    GotInputLine,
    /// The listener is to stop.
    Drop,
}

impl ImefCallback {
    /// The number of the message on the wire: its place in the list.
    pub open spec fn code(self) -> int {
        match self {
            ImefCallback::GotInputLine => 0,
            ImefCallback::Drop => 1,
        }
    }

    pub fn to_usize(&self) -> (r: Option<usize>)
        ensures
            r == Some(self.code() as usize),
    {
        match self {
            ImefCallback::GotInputLine => Some(0),
            ImefCallback::Drop => Some(1),
        }
    }

    /// The message with the number `n`, if there is one.
    pub fn from_usize(n: usize) -> (r: Option<ImefCallback>)
        ensures
            r is Some <==> n < 2,
            r is Some ==> r->Some_0.code() == n,
    {
        if n == 0 {
            Some(ImefCallback::GotInputLine)
        } else if n == 1 {
            Some(ImefCallback::Drop)
        } else {
            None
        }
    }
}

/// Two operations of a plugin with the same number are the same operation.
pub proof fn lemma_opcode_code_injective(a: Opcode, b: Opcode)
    requires
        a.code() == b.code(),
    ensures
        a == b,
{
}

/// Two operations of the front end with the same number are the same
/// operation.
pub proof fn lemma_imef_opcode_code_injective(a: ImefOpcode, b: ImefOpcode)
    requires
        a.code() == b.code(),
    ensures
        a == b,
{
}

/// Two messages to a listener with the same number are the same message.
pub proof fn lemma_imef_callback_code_injective(a: ImefCallback, b: ImefCallback)
    requires
        a.code() == b.code(),
    ensures
        a == b,
{
}

/// A request for the prediction at an index, and the answer to it in the
/// same shape.
#[derive(Debug, PartialEq, Eq)]
pub struct Prediction {
    /// Which prediction, the likeliest first.
    pub index: u32,
    /// Whether `string` holds a prediction.
    pub valid: bool,
    /// The prediction.
    pub string: String,
}

/// What a plugin answers to a request for a prediction.
#[derive(Debug, PartialEq, Eq)]
pub enum Return {
    Prediction(Prediction),
    Failure,
}

/// Why a plugin could not be asked, or gave no usable answer.
#[derive(Debug, Clone, Copy, PartialEq, Eq, Structural)]
pub enum PluginError {
    /// The plugin is not connected yet.
    UseBeforeInit,
    /// The answer was not of the kind that was asked for.
    InternalError,
}

impl Prediction {
    /// The request for the prediction at `index`: it holds no prediction
    /// yet.
    pub fn request(index: u32) -> (p: Prediction)
        ensures
            p.index == index,
            !p.valid,
            p.string@ == Seq::<char>::empty(),
    {
        Prediction { index, valid: false, string: String::new() }
    }
}

impl Return {
    /// What the answer says, as a plain value: the prediction if it holds
    /// one, nothing if it holds none, and an error if it is no prediction.
    pub open spec fn text(self) -> Result<Option<Seq<char>>, PluginError> {
        match self {
            Return::Prediction(p) => if p.valid {
                Ok(Some(p.string@))
            } else {
                Ok(None)
            },
            Return::Failure => Err(PluginError::InternalError),
        }
    }

    /// The text of the prediction that the answer holds, if it holds one.
    pub fn into_text(self) -> (r: Result<Option<String>, PluginError>)
        ensures
            r is Err <==> self.text() is Err,
            r is Err ==> r->Err_0 == self.text()->Err_0,
            r is Ok ==> (r->Ok_0 is Some <==> self.text()->Ok_0 is Some),
            r is Ok && r->Ok_0 is Some ==> r->Ok_0->Some_0@ == self.text()->Ok_0->Some_0,
    {
        match self {
            Return::Prediction(p) => if p.valid {
                Ok(Some(p.string))
            } else {
                Ok(None)
            },
            Return::Failure => Err(PluginError::InternalError),
        }
    }
}

} // verus!
