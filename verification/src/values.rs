//! Plain value and signature types shared by the module interface.

use vstd::prelude::*;
use vstd::string::StringExecFns;

verus! {

/// Type tag of a value that can cross the call boundary.
///
/// The two floating-point tags name a kind of value; this layer never
/// computes on values, so the tags carry no payload.
#[derive(Clone, Copy, Debug, PartialEq, Eq, Structural)]
pub enum ValueType {
    I32,
    I64,
    F32,
    F64,
}

/// A value forwarded through a call, in its shared representation.
///
/// Floating-point values are carried by their raw bit pattern: this layer
/// only relays values between caller, wrapped module and executor, and
/// never interprets them numerically.
#[derive(Clone, Copy, Debug, PartialEq, Eq, Structural)]
pub enum RuntimeValue {
    I32(i32),
    I64(i64),
    F32Bits(u32),
    F64Bits(u64),
}

/// Reference to an exported item, by kind and index.
#[derive(Clone, Copy, Debug, PartialEq, Eq, Structural)]
pub enum Internal {
    Function(u32),
    Table(u32),
    Memory(u32),
    Global(u32),
}

/// A function index as a caller presents it.
#[derive(Clone, Copy, Debug, PartialEq, Eq, Structural)]
pub enum ItemIndex {
    /// Index in the combined index space of the module.
    IndexSpace(u32),
    /// Index among the module's internal functions.
    Internal(u32),
    /// Index among the module's imported functions.
    External(u32),
}

/// The kind of export a caller requires when resolving a name.
#[derive(Clone, Debug)]
pub enum ExportEntryType {
    Any,
    Function(FunctionType),
    Global(ValueType),
}

/// Signature of a function: parameter types and optional result type.
#[derive(Clone, Debug)]
pub struct FunctionType {
    /// Parameter types, in order.
    pub params: Vec<ValueType>,
    /// Result type, or `None` for a void function.
    pub result: Option<ValueType>,
}

impl FunctionType {
    /// Build a signature from its parameter list and result.
    pub fn new(params: Vec<ValueType>, result: Option<ValueType>) -> (r: Self)
        ensures
            r.params@ == params@,
            r.result == result,
    {
        FunctionType { params, result }
    }

    /// Parameter types, in order.
    pub fn params(&self) -> (r: &Vec<ValueType>)
        ensures
            r@ == self.params@,
    {
        &self.params
    }

    /// Result type, or `None` for a void function.
    pub fn return_type(&self) -> (r: Option<ValueType>)
        ensures
            r == self.result,
    {
        self.result
    }
}

/// Failure of a module operation.
///
/// The one condition this layer raises itself is `NativeMissing`: an index
/// in the native range with no descriptor behind it.  Every other failure
/// a composed module returns was raised by the wrapped module or by the
/// executor and passes through unchanged.
#[derive(Clone, Debug)]
pub enum Error {
    /// An index at or above the native threshold whose offset lies beyond
    /// the end of the registry.  Carries the offending index.
    NativeMissing(u32),
    /// Any failure of a collaborator, passed through unchanged.
    Other(String),
}

/// The character for one decimal digit.
pub open spec fn digit_char(d: u8) -> char {
    if d == 0 {
        '0'
    } else if d == 1 {
        '1'
    } else if d == 2 {
        '2'
    } else if d == 3 {
        '3'
    } else if d == 4 {
        '4'
    } else if d == 5 {
        '5'
    } else if d == 6 {
        '6'
    } else if d == 7 {
        '7'
    } else if d == 8 {
        '8'
    } else {
        '9'
    }
}

/// The decimal notation of `n`: most significant digit first, no sign, no
/// leading zero except on zero itself.
pub open spec fn decimal_digits(n: nat) -> Seq<char>
    decreases n,
{
    if n < 10 {
        seq![digit_char(n as u8)]
    } else {
        decimal_digits(n / 10).push(digit_char((n % 10) as u8))
    }
}

/// The one-character string for a decimal digit.
fn digit_str(d: u8) -> (r: &'static str)
    requires
        d < 10,
    ensures
        r@ == seq![digit_char(d)],
{
    proof {
        reveal_strlit("0");
        reveal_strlit("1");
        reveal_strlit("2");
        reveal_strlit("3");
        reveal_strlit("4");
        reveal_strlit("5");
        reveal_strlit("6");
        reveal_strlit("7");
        reveal_strlit("8");
        reveal_strlit("9");
    }
    match d {
        0 => "0",
        1 => "1",
        2 => "2",
        3 => "3",
        4 => "4",
        5 => "5",
        6 => "6",
        7 => "7",
        8 => "8",
        _ => "9",
    }
}

/// The decimal notation of `n` as a string.
fn u32_decimal(n: u32) -> (r: String)
    ensures
        r@ == decimal_digits(n as nat),
    decreases n,
{
    if n < 10 {
        digit_str(n as u8).to_owned()
    } else {
        let mut s = u32_decimal(n / 10);
        s.append(digit_str((n % 10) as u8));
        proof {
            assert(s@ =~= decimal_digits((n / 10) as nat).push(digit_char((n % 10) as u8)));
        }
        s
    }
}

impl Error {
    /// What `message` says of the failure.
    pub open spec fn spec_message(self) -> Seq<char> {
        match self {
            Error::NativeMissing(index) => "missing native function at index "@ + decimal_digits(
                index as nat,
            ),
            Error::Other(s) => s@,
        }
    }

    /// The failure, described.
    pub fn message(&self) -> (r: String)
        ensures
            r@ == self.spec_message(),
    {
        match self {
            Error::NativeMissing(index) => {
                let mut s = "missing native function at index ".to_owned();
                s.append(u32_decimal(*index).as_str());
                s
            },
            Error::Other(s) => s.clone(),
        }
    }
}

/// The caller-side state handed into a call: argument values and the
/// caller's frame budget.  This layer neither inspects nor mutates it,
/// only relays it to the executor or to the wrapped module.
#[derive(Clone, Debug)]
pub struct CallerContext {
    /// Values on the caller's stack, bottom first.
    pub value_stack: Vec<RuntimeValue>,
    /// Remaining depth the callee may use for further frames.
    pub frame_stack_limit: usize,
}

} // verus!
