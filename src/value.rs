//! The structured values that cross the boundary into and out of a worker.
use vstd::prelude::*;

verus! {

/// A value in the form in which it is posted to another execution context.
#[derive(Debug, PartialEq, Eq)]
pub enum Value {
    /// The absence of a value.
    Unit,
    /// An integer, as a sign and a magnitude.
    Int { negative: bool, magnitude: u128 },
    /// A string.
    Text(String),
    /// The successful arm of a result.
    Success(Box<Value>),
    /// The failing arm of a result.
    Failure(Box<Value>),
    /// An object whose ownership may be transferred along with the message.
    Handle(u64),
    /// An error object raised inside a worker, with what caused it, if anything.
    Fault { message: String, cause: Option<Box<Value>> },
}

/// The canonical form of the integer `n`: zero is never negative.
pub open spec fn int_value(n: int) -> Value {
    Value::Int { negative: n < 0, magnitude: (if n < 0 { -n } else { n }) as u128 }
}

/// The transferable objects that a value refers to.
pub open spec fn handles(v: Value) -> Set<u64>
    decreases v,
{
    match v {
        Value::Handle(h) => set![h],
        Value::Success(b) => handles(*b),
        Value::Failure(b) => handles(*b),
        Value::Fault { cause: Some(b), .. } => handles(*b),
        _ => Set::empty(),
    }
}

/// The value of an unsigned integer.
pub fn unsigned(n: u128) -> (r: Value)
    ensures
        r == int_value(n as int),
{
    Value::Int { negative: false, magnitude: n }
}

/// The value of a signed integer.
pub fn signed(n: i128) -> (r: Value)
    ensures
        r == int_value(n as int),
{
    if n < 0 {
        let m: u128 = if n == i128::MIN {
            0x8000_0000_0000_0000_0000_0000_0000_0000u128
        } else {
            (-n) as u128
        };
        Value::Int { negative: true, magnitude: m }
    } else {
        Value::Int { negative: false, magnitude: n as u128 }
    }
}

/// Reads a value as an integer in `0..=max`, if it is one.
pub fn read_unsigned(v: &Value, max: u128) -> (r: Option<u128>)
    ensures
        match r {
            Some(n) => n <= max && *v == int_value(n as int),
            None => forall|n: int| 0 <= n <= max ==> #[trigger] int_value(n) != *v,
        },
{
    match v {
        Value::Int { negative, magnitude } => {
            if !*negative && *magnitude <= max {
                Some(*magnitude)
            } else {
                None
            }
        },
        _ => None,
    }
}

/// Reads a value as an integer in `min..=max`, if it is one.
pub fn read_signed(v: &Value, min: i128, max: i128) -> (r: Option<i128>)
    requires
        min <= 0 <= max,
    ensures
        match r {
            Some(n) => min <= n <= max && *v == int_value(n as int),
            None => forall|n: int| min <= n <= max ==> #[trigger] int_value(n) != *v,
        },
{
    match v {
        Value::Int { negative, magnitude } => {
            if !*negative {
                if *magnitude <= max as u128 {
                    Some(*magnitude as i128)
                } else {
                    None
                }
            } else if *magnitude == 0 || min == 0 {
                None
            } else {
                let bound = (-(min + 1)) as u128;
                if *magnitude - 1 <= bound {
                    let k = (*magnitude - 1) as i128;
                    assert(0 <= k <= -(min + 1));
                    Some(-k - 1)
                } else {
                    None
                }
            }
        },
        _ => None,
    }
}

} // verus!
