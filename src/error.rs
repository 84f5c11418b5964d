//! The errors that a job, a worker or the boundary between them can raise.
use crate::value::Value;
use vstd::prelude::*;

verus! {

/// The ways in which running a job on a worker can fail.
#[derive(Debug, PartialEq, Eq)]
pub enum Error {
    /// A worker could not be created.
    Creation(String),
    /// A value could not be turned into its boundary form, or back.
    Serialization(String),
    /// The job raised a fault inside the worker.
    Boundary { description: String, source: Option<Box<Error>> },
    /// The worker went away before the job's result arrived.
    Killed,
}

/// The text of an error.
pub open spec fn text(e: Error) -> Seq<char> {
    match e {
        Error::Creation(d) => d@,
        Error::Serialization(d) => d@,
        Error::Boundary { description, .. } => description@,
        Error::Killed => "thread killed before task completed"@,
    }
}

/// The texts of an error and of the errors that caused it, outermost first.
pub open spec fn chain(e: Error) -> Seq<Seq<char>>
    decreases e,
{
    match e {
        Error::Boundary { source: Some(s), .. } => seq![text(e)] + chain(*s),
        _ => seq![text(e)],
    }
}

/// Whether `v` is the fault raised for `e`: it carries the error's text,
/// and the fault raised for its source as its cause.
pub open spec fn raised_as(e: Error, v: Value) -> bool
    decreases e,
{
    match v {
        Value::Fault { message, cause } => {
            &&& message@ == text(e)
            &&& match e {
                Error::Boundary { source: Some(s), .. } => match cause {
                    Some(c) => raised_as(*s, *c),
                    None => false,
                },
                _ => cause is None,
            }
        },
        _ => false,
    }
}

/// The description given to a raised value that is not an error object.
pub open spec fn not_an_error(v: Value) -> Seq<char> {
    match v {
        Value::Unit => "could not cast a unit value to an error"@,
        Value::Int { .. } => "could not cast an integer to an error"@,
        Value::Text(_) => "could not cast a string to an error"@,
        Value::Success(_) => "could not cast a result to an error"@,
        Value::Failure(_) => "could not cast a result to an error"@,
        Value::Handle(_) => "could not cast an object handle to an error"@,
        Value::Fault { .. } => "could not cast a fault to an error"@,
    }
}

/// Whether `e` is the error that the raised value `v` stands for: a fault
/// gives its message, and the error of its cause as the source; any other
/// value is described as not being an error.
pub open spec fn describes(e: Error, v: Value) -> bool
    decreases v,
{
    match e {
        Error::Boundary { description, source } => match v {
            Value::Fault { message, cause } => {
                &&& description@ == message@
                &&& match (cause, source) {
                    (Some(c), Some(s)) => describes(*s, *c),
                    (None, None) => true,
                    _ => false,
                }
            },
            _ => description@ == not_an_error(v) && source is None,
        },
        _ => false,
    }
}

impl Error {
    /// The error for a value raised by a job inside a worker.
    pub fn from_fault(v: Value) -> (r: Error)
        ensures
            describes(r, v),
        decreases v,
    {
        match v {
            Value::Fault { message, cause } => {
                let source = match cause {
                    Some(c) => Some(Box::new(Error::from_fault(*c))),
                    None => None,
                };
                Error::Boundary { description: message, source }
            },
            Value::Unit => Error::Boundary {
                description: "could not cast a unit value to an error".to_owned(),
                source: None,
            },
            Value::Int { .. } => Error::Boundary {
                description: "could not cast an integer to an error".to_owned(),
                source: None,
            },
            Value::Text(_) => Error::Boundary {
                description: "could not cast a string to an error".to_owned(),
                source: None,
            },
            Value::Success(_) => Error::Boundary {
                description: "could not cast a result to an error".to_owned(),
                source: None,
            },
            Value::Failure(_) => Error::Boundary {
                description: "could not cast a result to an error".to_owned(),
                source: None,
            },
            Value::Handle(_) => Error::Boundary {
                description: "could not cast an object handle to an error".to_owned(),
                source: None,
            },
        }
    }

    /// The text of the error.
    pub fn description(&self) -> (r: String)
        ensures
            r@ == text(*self),
    {
        match self {
            Error::Creation(d) => d.clone(),
            Error::Serialization(d) => d.clone(),
            Error::Boundary { description, .. } => description.clone(),
            Error::Killed => "thread killed before task completed".to_owned(),
        }
    }

    /// The error that caused this one, if any.
    pub fn source(&self) -> (r: Option<&Error>)
        ensures
            match self {
                Error::Boundary { source: Some(s), .. } => r == Some(&**s),
                _ => r is None,
            },
    {
        match self {
            Error::Boundary { source: Some(s), .. } => Some(&**s),
            _ => None,
        }
    }

    /// The fault that a worker raises for this error, so that it reaches the
    /// waiting task across the boundary.
    pub fn to_fault(&self) -> (r: Value)
        ensures
            raised_as(*self, r),
        decreases self,
    {
        let cause = match self {
            Error::Boundary { source: Some(s), .. } => Some(Box::new(s.to_fault())),
            _ => None,
        };
        Value::Fault { message: self.description(), cause }
    }
}

/// An error raised inside a worker reaches the task as a boundary error
/// with the same texts, down its whole chain of causes.
pub proof fn lemma_fault_keeps_chain(e: Error, v: Value, back: Error)
    requires
        raised_as(e, v),
        describes(back, v),
    ensures
        back is Boundary,
        chain(back) == chain(e),
    decreases e,
{
    match e {
        Error::Boundary { source: Some(s), .. } => {
            let c = *v->Fault_cause->0;
            let t = *back->Boundary_source->0;
            lemma_fault_keeps_chain(*s, c, t);
        },
        _ => {},
    }
}

} // verus!
