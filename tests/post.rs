use worker_pool::value::{read_signed, read_unsigned, signed, unsigned};
use worker_pool::{AsJs, Error, Post, Postable, Value};

fn integer(negative: bool, magnitude: u128) -> Value {
    Value::Int { negative, magnitude }
}

#[test]
fn integers_encode_as_sign_and_magnitude() {
    assert_eq!(5u8.to_js().unwrap(), integer(false, 5));
    assert_eq!((-5i32).to_js().unwrap(), integer(true, 5));
    assert_eq!(0i64.to_js().unwrap(), integer(false, 0));
    assert_eq!(i128::MIN.to_js().unwrap(), integer(true, 1u128 << 127));
    assert_eq!(u128::MAX.to_js().unwrap(), integer(false, u128::MAX));
}

#[test]
fn integers_round_trip() {
    for x in [0u8, 1, 127, 255] {
        assert_eq!(u8::from_js(x.to_js().unwrap()).unwrap(), x);
    }
    for x in [i8::MIN, -1, 0, i8::MAX] {
        assert_eq!(i8::from_js(x.to_js().unwrap()).unwrap(), x);
    }
    for x in [i128::MIN, -7, 0, i128::MAX] {
        assert_eq!(i128::from_js(x.to_js().unwrap()).unwrap(), x);
    }
    for x in [0u64, u64::MAX] {
        assert_eq!(u64::from_js(x.to_js().unwrap()).unwrap(), x);
    }
    for x in [i16::MIN, i16::MAX] {
        assert_eq!(i16::from_js(x.to_js().unwrap()).unwrap(), x);
    }
    for x in [u16::MAX, 0] {
        assert_eq!(u16::from_js(x.to_js().unwrap()).unwrap(), x);
    }
    for x in [u32::MAX, 3] {
        assert_eq!(u32::from_js(x.to_js().unwrap()).unwrap(), x);
    }
    for x in [i32::MIN, i32::MAX] {
        assert_eq!(i32::from_js(x.to_js().unwrap()).unwrap(), x);
    }
    for x in [i64::MIN, i64::MAX] {
        assert_eq!(i64::from_js(x.to_js().unwrap()).unwrap(), x);
    }
    assert_eq!(u128::from_js(u128::MAX.to_js().unwrap()).unwrap(), u128::MAX);
}

#[test]
fn out_of_range_integers_are_rejected() {
    assert!(matches!(u8::from_js(integer(false, 256)), Err(Error::Serialization(_))));
    assert!(matches!(u8::from_js(integer(true, 1)), Err(Error::Serialization(_))));
    assert!(matches!(i8::from_js(integer(false, 128)), Err(Error::Serialization(_))));
    assert!(matches!(i8::from_js(integer(true, 129)), Err(Error::Serialization(_))));
    assert_eq!(i8::from_js(integer(true, 128)).unwrap(), i8::MIN);
    assert!(matches!(i128::from_js(integer(true, (1u128 << 127) + 1)), Err(Error::Serialization(_))));
    // zero is never negative
    assert!(matches!(i32::from_js(integer(true, 0)), Err(Error::Serialization(_))));
}

#[test]
fn mismatched_kinds_are_rejected() {
    assert!(matches!(u8::from_js(Value::Unit), Err(Error::Serialization(_))));
    assert!(matches!(String::from_js(integer(false, 1)), Err(Error::Serialization(_))));
    assert!(matches!(<()>::from_js(Value::Text("x".to_string())), Err(Error::Serialization(_))));
}

#[test]
fn strings_and_unit_round_trip() {
    let s = String::from("héllo");
    assert_eq!(s.to_js().unwrap(), Value::Text("héllo".to_string()));
    assert_eq!(String::from_js(s.to_js().unwrap()).unwrap(), s);
    assert_eq!(().to_js().unwrap(), Value::Unit);
    assert_eq!(<()>::from_js(Value::Unit).unwrap(), ());
}

#[test]
fn results_encode_their_arm() {
    let ok: Result<u8, String> = Ok(3);
    let err: Result<u8, String> = Err("bad".to_string());
    assert_eq!(ok.to_js().unwrap(), Value::Success(Box::new(integer(false, 3))));
    assert_eq!(err.to_js().unwrap(), Value::Failure(Box::new(Value::Text("bad".to_string()))));
    assert_eq!(Result::<u8, String>::from_js(ok.to_js().unwrap()).unwrap(), ok);
    assert_eq!(Result::<u8, String>::from_js(err.to_js().unwrap()).unwrap(), err);
    assert!(matches!(
        Result::<u8, String>::from_js(Value::Success(Box::new(Value::Unit))),
        Err(Error::Serialization(_))
    ));
    assert!(matches!(Result::<u8, String>::from_js(integer(false, 3)), Err(Error::Serialization(_))));
}

#[test]
fn primitives_transfer_nothing() {
    assert!(7u32.transferables().is_empty());
    assert!(String::from("a").transferables().is_empty());
    let r: Result<(), i64> = Err(-1);
    assert!(r.transferables().is_empty());
}

#[test]
fn postable_holds_message_and_transfer_list() {
    let p = Postable::new(42u16).unwrap();
    assert_eq!(*p.message(), integer(false, 42));
    assert!(p.transfer().is_empty());
    assert_eq!(p.decode::<u16>().unwrap(), 42);
}

#[test]
fn postable_round_trip() {
    let v: Result<String, i8> = Ok("ok".to_string());
    let p = Postable::new(v.clone()).unwrap();
    assert_eq!(p.decode::<Result<String, i8>>().unwrap(), v);
    let (message, transfer) = Postable::new(-9i8).unwrap().into_parts();
    assert_eq!(message, integer(true, 9));
    assert!(transfer.is_empty());
    let p = Postable::new(-3i64).unwrap();
    assert!(matches!(p.decode::<u64>(), Err(Error::Serialization(_))));
}

#[test]
fn integer_readers_respect_bounds() {
    assert_eq!(unsigned(9), integer(false, 9));
    assert_eq!(signed(-9), integer(true, 9));
    assert_eq!(read_unsigned(&integer(false, 10), 10), Some(10));
    assert_eq!(read_unsigned(&integer(false, 11), 10), None);
    assert_eq!(read_unsigned(&integer(true, 1), 10), None);
    assert_eq!(read_signed(&integer(true, 5), -5, 5), Some(-5));
    assert_eq!(read_signed(&integer(true, 6), -5, 5), None);
    assert_eq!(read_signed(&integer(false, 6), -5, 5), None);
    assert_eq!(read_signed(&integer(true, 1), 0, 5), None);
    assert_eq!(read_signed(&Value::Unit, -5, 5), None);
}
