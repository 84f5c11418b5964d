//! Which values may be sent to a worker, and in what form.
use crate::error::Error;
use crate::value::{handles, int_value, read_signed, read_unsigned, signed, unsigned, Value};
use vstd::prelude::*;

verus! {

/// The error for a value that does not have the form of the expected type.
fn mismatch() -> (r: Error)
    ensures
        r is Serialization,
{
    Error::Serialization("value does not have the form of the expected type".to_owned())
}

/// Whether `r` is what decoding `value` as a `T` may give: a `T` that is
/// sent as `value`, or, when no `T` is sent as it, a serialization error.
pub open spec fn decodes<T: AsJs>(value: Value, r: Result<T, Error>) -> bool {
    match r {
        Ok(x) => x.encoding() == Some(value),
        Err(e) => {
            &&& forall|x: T| #[trigger] x.encoding() != Some(value)
            &&& e is Serialization
        },
    }
}

/// Conversion to and from the boundary form of a value.
pub trait AsJs: Sized {
    /// The value that `self` is sent as, or `None` when it cannot be sent.
    spec fn encoding(&self) -> Option<Value>;

    /// Converts `self` into its boundary form.
    fn to_js(&self) -> (r: Result<Value, Error>)
        ensures
            match r {
                Ok(v) => self.encoding() == Some(v),
                Err(e) => self.encoding() is None && e is Serialization,
            },
    ;

    /// Converts a boundary value back. This succeeds exactly on the values
    /// that some `Self` is sent as, and gives back one that is sent as it.
    fn from_js(value: Value) -> (r: Result<Self, Error>)
        ensures
            match r {
                Ok(x) => x.encoding() == Some(value),
                Err(e) => {
                    &&& forall|x: Self| #[trigger] x.encoding() != Some(value)
                    &&& e is Serialization
                },
            },
    ;
}

/// Whether the object `h` is reachable from the value that `x` is sent as.
pub open spec fn reaches<T: AsJs>(x: &T, h: u64) -> bool {
    match x.encoding() {
        Some(v) => handles(v).contains(h),
        None => false,
    }
}

/// Values that can be posted to a worker: convertible to a boundary value,
/// together with the objects within it whose ownership moves with it.
pub trait Post: AsJs {
    /// The objects that must be transferred, not copied, when `self` is sent.
    spec fn transfer_list(&self) -> Seq<u64>;

    /// The objects that must be transferred when sending `self`; each of them
    /// is reachable from the value that `self` is sent as.
    fn transferables(&self) -> (r: Vec<u64>)
        ensures
            r@ == self.transfer_list(),
            forall|i: int| 0 <= i < r@.len() ==> reaches(self, #[trigger] r@[i]),
    ;
}

/// A value ready to be posted: its boundary form, plus the objects whose
/// ownership moves along with it.
#[derive(Debug)]
pub struct Postable {
    message: Value,
    transfer: Vec<u64>,
}

impl Postable {
    /// The boundary form of the posted value.
    pub closed spec fn message_spec(&self) -> Value {
        self.message
    }

    /// The objects transferred along with the message.
    pub closed spec fn transfer_spec(&self) -> Seq<u64> {
        self.transfer@
    }

    /// Every transferred object is reachable from the message.
    pub open spec fn wf(&self) -> bool {
        forall|i: int|
            0 <= i < self.transfer_spec().len() ==> handles(self.message_spec()).contains(
                #[trigger] self.transfer_spec()[i],
            )
    }

    /// Converts `message` into its boundary form and takes its transfer
    /// list; fails when the value cannot be converted.
    pub fn new(message: impl Post) -> (r: Result<Self, Error>)
        ensures
            match r {
                Ok(p) => {
                    &&& message.encoding() == Some(p.message_spec())
                    &&& p.transfer_spec() == message.transfer_list()
                    &&& p.wf()
                },
                Err(e) => message.encoding() is None && e is Serialization,
            },
    {
        let transfer = message.transferables();
        match message.to_js() {
            Ok(v) => {
                proof {
                    assert forall|i: int| 0 <= i < transfer@.len() implies handles(v).contains(
                        #[trigger] transfer@[i],
                    ) by {
                        assert(reaches(&message, transfer@[i]));
                    }
                }
                Ok(Postable { message: v, transfer })
            },
            Err(e) => Err(e),
        }
    }

    /// The boundary form of the posted value.
    pub fn message(&self) -> (r: &Value)
        ensures
            *r == self.message_spec(),
    {
        &self.message
    }

    /// The objects transferred along with the message.
    pub fn transfer(&self) -> (r: &Vec<u64>)
        ensures
            r@ == self.transfer_spec(),
    {
        &self.transfer
    }

    /// The message and the transfer list, taken apart for sending.
    pub fn into_parts(self) -> (r: (Value, Vec<u64>))
        ensures
            r.0 == self.message_spec(),
            r.1@ == self.transfer_spec(),
    {
        (self.message, self.transfer)
    }

    /// Reads the message back as a `T`, as the receiving side does.
    pub fn decode<T: AsJs>(self) -> (r: Result<T, Error>)
        ensures
            decodes(self.message_spec(), r),
    {
        T::from_js(self.message)
    }
}

/// Whatever the codec accepts comes back as itself: decoding the value
/// that `sent` is sent as succeeds, and gives a value sent as the same value.
pub proof fn lemma_round_trip<T: AsJs>(sent: T, message: Value, received: Result<T, Error>)
    requires
        sent.encoding() == Some(message),
        decodes(message, received),
    ensures
        received is Ok,
        received->Ok_0.encoding() == sent.encoding(),
{
    if received is Err {
        assert(sent.encoding() != Some(message));
    }
}

impl AsJs for u8 {
    open spec fn encoding(&self) -> Option<Value> {
        Some(int_value(*self as int))
    }

    fn to_js(&self) -> (r: Result<Value, Error>) {
        Ok(unsigned(*self as u128))
    }

    fn from_js(value: Value) -> (r: Result<Self, Error>) {
        match read_unsigned(&value, 0xff) {
            Some(n) => Ok(n as u8),
            None => Err(mismatch()),
        }
    }
}

impl Post for u8 {
    open spec fn transfer_list(&self) -> Seq<u64> {
        Seq::empty()
    }

    fn transferables(&self) -> (r: Vec<u64>) {
        Vec::new()
    }
}

impl AsJs for u16 {
    open spec fn encoding(&self) -> Option<Value> {
        Some(int_value(*self as int))
    }

    fn to_js(&self) -> (r: Result<Value, Error>) {
        Ok(unsigned(*self as u128))
    }

    fn from_js(value: Value) -> (r: Result<Self, Error>) {
        match read_unsigned(&value, 0xffff) {
            Some(n) => Ok(n as u16),
            None => Err(mismatch()),
        }
    }
}

impl Post for u16 {
    open spec fn transfer_list(&self) -> Seq<u64> {
        Seq::empty()
    }

    fn transferables(&self) -> (r: Vec<u64>) {
        Vec::new()
    }
}

impl AsJs for u32 {
    open spec fn encoding(&self) -> Option<Value> {
        Some(int_value(*self as int))
    }

    fn to_js(&self) -> (r: Result<Value, Error>) {
        Ok(unsigned(*self as u128))
    }

    fn from_js(value: Value) -> (r: Result<Self, Error>) {
        match read_unsigned(&value, 0xffff_ffff) {
            Some(n) => Ok(n as u32),
            None => Err(mismatch()),
        }
    }
}

impl Post for u32 {
    open spec fn transfer_list(&self) -> Seq<u64> {
        Seq::empty()
    }

    fn transferables(&self) -> (r: Vec<u64>) {
        Vec::new()
    }
}

impl AsJs for u64 {
    open spec fn encoding(&self) -> Option<Value> {
        Some(int_value(*self as int))
    }

    fn to_js(&self) -> (r: Result<Value, Error>) {
        Ok(unsigned(*self as u128))
    }

    fn from_js(value: Value) -> (r: Result<Self, Error>) {
        match read_unsigned(&value, 0xffff_ffff_ffff_ffff) {
            Some(n) => Ok(n as u64),
            None => Err(mismatch()),
        }
    }
}

impl Post for u64 {
    open spec fn transfer_list(&self) -> Seq<u64> {
        Seq::empty()
    }

    fn transferables(&self) -> (r: Vec<u64>) {
        Vec::new()
    }
}

impl AsJs for u128 {
    open spec fn encoding(&self) -> Option<Value> {
        Some(int_value(*self as int))
    }

    fn to_js(&self) -> (r: Result<Value, Error>) {
        Ok(unsigned(*self as u128))
    }

    fn from_js(value: Value) -> (r: Result<Self, Error>) {
        match read_unsigned(&value, u128::MAX) {
            Some(n) => Ok(n as u128),
            None => Err(mismatch()),
        }
    }
}

impl Post for u128 {
    open spec fn transfer_list(&self) -> Seq<u64> {
        Seq::empty()
    }

    fn transferables(&self) -> (r: Vec<u64>) {
        Vec::new()
    }
}

impl AsJs for i8 {
    open spec fn encoding(&self) -> Option<Value> {
        Some(int_value(*self as int))
    }

    fn to_js(&self) -> (r: Result<Value, Error>) {
        Ok(signed(*self as i128))
    }

    fn from_js(value: Value) -> (r: Result<Self, Error>) {
        match read_signed(&value, i8::MIN as i128, i8::MAX as i128) {
            Some(n) => Ok(n as i8),
            None => Err(mismatch()),
        }
    }
}

impl Post for i8 {
    open spec fn transfer_list(&self) -> Seq<u64> {
        Seq::empty()
    }

    fn transferables(&self) -> (r: Vec<u64>) {
        Vec::new()
    }
}

impl AsJs for i16 {
    open spec fn encoding(&self) -> Option<Value> {
        Some(int_value(*self as int))
    }

    fn to_js(&self) -> (r: Result<Value, Error>) {
        Ok(signed(*self as i128))
    }

    fn from_js(value: Value) -> (r: Result<Self, Error>) {
        match read_signed(&value, i16::MIN as i128, i16::MAX as i128) {
            Some(n) => Ok(n as i16),
            None => Err(mismatch()),
        }
    }
}

impl Post for i16 {
    open spec fn transfer_list(&self) -> Seq<u64> {
        Seq::empty()
    }

    fn transferables(&self) -> (r: Vec<u64>) {
        Vec::new()
    }
}

impl AsJs for i32 {
    open spec fn encoding(&self) -> Option<Value> {
        Some(int_value(*self as int))
    }

    fn to_js(&self) -> (r: Result<Value, Error>) {
        Ok(signed(*self as i128))
    }

    fn from_js(value: Value) -> (r: Result<Self, Error>) {
        match read_signed(&value, i32::MIN as i128, i32::MAX as i128) {
            Some(n) => Ok(n as i32),
            None => Err(mismatch()),
        }
    }
}

impl Post for i32 {
    open spec fn transfer_list(&self) -> Seq<u64> {
        Seq::empty()
    }

    fn transferables(&self) -> (r: Vec<u64>) {
        Vec::new()
    }
}

impl AsJs for i64 {
    open spec fn encoding(&self) -> Option<Value> {
        Some(int_value(*self as int))
    }

    fn to_js(&self) -> (r: Result<Value, Error>) {
        Ok(signed(*self as i128))
    }

    fn from_js(value: Value) -> (r: Result<Self, Error>) {
        match read_signed(&value, i64::MIN as i128, i64::MAX as i128) {
            Some(n) => Ok(n as i64),
            None => Err(mismatch()),
        }
    }
}

impl Post for i64 {
    open spec fn transfer_list(&self) -> Seq<u64> {
        Seq::empty()
    }

    fn transferables(&self) -> (r: Vec<u64>) {
        Vec::new()
    }
}

impl AsJs for i128 {
    open spec fn encoding(&self) -> Option<Value> {
        Some(int_value(*self as int))
    }

    fn to_js(&self) -> (r: Result<Value, Error>) {
        Ok(signed(*self as i128))
    }

    fn from_js(value: Value) -> (r: Result<Self, Error>) {
        match read_signed(&value, i128::MIN, i128::MAX) {
            Some(n) => Ok(n as i128),
            None => Err(mismatch()),
        }
    }
}

impl Post for i128 {
    open spec fn transfer_list(&self) -> Seq<u64> {
        Seq::empty()
    }

    fn transferables(&self) -> (r: Vec<u64>) {
        Vec::new()
    }
}

impl AsJs for () {
    open spec fn encoding(&self) -> Option<Value> {
        Some(Value::Unit)
    }

    fn to_js(&self) -> (r: Result<Value, Error>) {
        Ok(Value::Unit)
    }

    fn from_js(value: Value) -> (r: Result<Self, Error>) {
        match value {
            Value::Unit => Ok(()),
            _ => Err(mismatch()),
        }
    }
}

impl Post for () {
    open spec fn transfer_list(&self) -> Seq<u64> {
        Seq::empty()
    }

    fn transferables(&self) -> (r: Vec<u64>) {
        Vec::new()
    }
}

impl AsJs for String {
    open spec fn encoding(&self) -> Option<Value> {
        Some(Value::Text(*self))
    }

    fn to_js(&self) -> (r: Result<Value, Error>) {
        Ok(Value::Text(self.clone()))
    }

    fn from_js(value: Value) -> (r: Result<Self, Error>) {
        match value {
            Value::Text(s) => Ok(s),
            _ => Err(mismatch()),
        }
    }
}

impl Post for String {
    open spec fn transfer_list(&self) -> Seq<u64> {
        Seq::empty()
    }

    fn transferables(&self) -> (r: Vec<u64>) {
        Vec::new()
    }
}

/// A result is sent as its arm, holding the value in it.
impl<T: AsJs, E: AsJs> AsJs for Result<T, E> {
    open spec fn encoding(&self) -> Option<Value> {
        match self {
            Ok(t) => match t.encoding() {
                Some(v) => Some(Value::Success(Box::new(v))),
                None => None,
            },
            Err(e) => match e.encoding() {
                Some(v) => Some(Value::Failure(Box::new(v))),
                None => None,
            },
        }
    }

    fn to_js(&self) -> (r: Result<Value, Error>) {
        match self {
            Ok(t) => match t.to_js() {
                Ok(v) => Ok(Value::Success(Box::new(v))),
                Err(e) => Err(e),
            },
            Err(e) => match e.to_js() {
                Ok(v) => Ok(Value::Failure(Box::new(v))),
                Err(e) => Err(e),
            },
        }
    }

    fn from_js(value: Value) -> (r: Result<Self, Error>) {
        match value {
            Value::Success(b) => match T::from_js(*b) {
                Ok(t) => Ok(Ok(t)),
                Err(e) => Err(e),
            },
            Value::Failure(b) => match E::from_js(*b) {
                Ok(x) => Ok(Err(x)),
                Err(e) => Err(e),
            },
            _ => Err(mismatch()),
        }
    }
}

impl<T: Post, E: Post> Post for Result<T, E> {
    open spec fn transfer_list(&self) -> Seq<u64> {
        match self {
            Ok(t) => t.transfer_list(),
            Err(e) => e.transfer_list(),
        }
    }

    fn transferables(&self) -> (r: Vec<u64>) {
        match self {
            Ok(t) => {
                let list = t.transferables();
                proof {
                    assert forall|i: int| 0 <= i < list@.len() implies reaches(self, #[trigger] list@[i]) by {
                        assert(reaches(t, list@[i]));
                        let v = t.encoding()->0;
                        assert(handles(Value::Success(Box::new(v))) == handles(v));
                    }
                }
                list
            },
            Err(e) => {
                let list = e.transferables();
                proof {
                    assert forall|i: int| 0 <= i < list@.len() implies reaches(self, #[trigger] list@[i]) by {
                        assert(reaches(e, list@[i]));
                        let v = e.encoding()->0;
                        assert(handles(Value::Failure(Box::new(v))) == handles(v));
                    }
                }
                list
            },
        }
    }
}

} // verus!
