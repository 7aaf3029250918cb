use pam_client::{Error, ErrorWith, IoErrorKind, NoPayload, ReturnCode};
use std::collections::hash_map::DefaultHasher;
use std::convert::TryFrom;
use std::hash::{Hash, Hasher};

fn hash_of<T: Hash>(v: &T) -> u64 {
    let mut h = DefaultHasher::new();
    v.hash(&mut h);
    h.finish()
}

fn bare(code: ReturnCode) -> Error {
    Error::try_from(code).unwrap()
}

#[test]
fn bare_code_gives_an_error_without_message_or_payload() {
    let e = bare(ReturnCode::ABORT);
    assert_eq!(e.code(), ReturnCode::ABORT);
    assert!(e.payload().is_none());
    assert_eq!(e.message(), None);
}

#[test]
fn success_code_is_refused() {
    assert!(Error::try_from(ReturnCode::SUCCESS).is_err());
    assert!(Error::try_from(ReturnCode::CONV_ERR).is_ok());
}

#[test]
fn every_failure_code_is_kept() {
    for v in 1..32 {
        let c = ReturnCode::from_i32(v).unwrap();
        let e = bare(c);
        assert_eq!(e.code(), c);
        assert_eq!(e.code().as_i32(), v);
        assert!(e.payload().is_none());
        let m: ErrorWith<u32> = ErrorWith::with_payload(None, c, None);
        assert_eq!(m.code(), c);
        assert!(m.payload().is_none());
    }
}

#[test]
fn code_values_follow_libpam() {
    assert_eq!(ReturnCode::SUCCESS.as_i32(), 0);
    assert_eq!(ReturnCode::CONV_ERR.as_i32(), 19);
    assert_eq!(ReturnCode::ABORT.as_i32(), 26);
    assert_eq!(ReturnCode::AUTHTOK_EXPIRED.as_i32(), 27);
    assert_eq!(ReturnCode::INCOMPLETE.as_i32(), 31);
    assert_eq!(ReturnCode::from_i32(7), Some(ReturnCode::AUTH_ERR));
    assert_eq!(ReturnCode::from_i32(32), None);
    assert_eq!(ReturnCode::from_i32(-1), None);
}

#[test]
fn take_payload_returns_it_once() {
    let mut e = bare(ReturnCode::BUF_ERR).into_with_payload(vec![1u8, 2]);
    assert_eq!(e.payload(), Some(&vec![1u8, 2]));
    assert_eq!(e.take_payload(), Some(vec![1u8, 2]));
    assert_eq!(e.take_payload(), None);
    assert_eq!(e.payload(), None);
    assert_eq!(e.code(), ReturnCode::BUF_ERR);
}

#[test]
fn map_transforms_payload_and_keeps_the_rest() {
    let e: ErrorWith<u32> = ErrorWith::with_payload(Some("denied".to_string()), ReturnCode::AUTH_ERR, Some(20));
    let m = e.map(|x| x + 1);
    assert_eq!(m.code(), ReturnCode::AUTH_ERR);
    assert_eq!(m.message(), Some("denied"));
    assert_eq!(m.payload(), Some(&21));
    let n: ErrorWith<u32> = ErrorWith::with_payload(None, ReturnCode::AUTH_ERR, None);
    let mut calls = 0;
    let k = n.map(|x| {
        calls += 1;
        x * 2
    });
    assert_eq!(calls, 0);
    assert!(k.payload().is_none());
}

#[test]
fn drop_then_attach_keeps_code_and_message() {
    let e: ErrorWith<String> =
        ErrorWith::with_payload(Some("no".to_string()), ReturnCode::PERM_DENIED, Some("old".to_string()));
    let d = e.drop_payload();
    assert!(d.payload().is_none());
    let a = d.into_with_payload(7i64);
    assert_eq!(a.code(), ReturnCode::PERM_DENIED);
    assert_eq!(a.message(), Some("no"));
    assert_eq!(a.payload(), Some(&7i64));
    let b: ErrorWith<i64> = bare(ReturnCode::IGNORE).into();
    assert!(b.payload().is_none());
    assert_eq!(b.code(), ReturnCode::IGNORE);
}

#[test]
fn equality_ignores_message() {
    let a: ErrorWith<u8> = ErrorWith::with_payload(Some("a".to_string()), ReturnCode::ABORT, Some(1));
    let b: ErrorWith<u8> = ErrorWith::with_payload(Some("b".to_string()), ReturnCode::ABORT, Some(1));
    let c: ErrorWith<u8> = ErrorWith::with_payload(Some("a".to_string()), ReturnCode::ABORT, Some(2));
    let d: ErrorWith<u8> = ErrorWith::with_payload(Some("a".to_string()), ReturnCode::BUF_ERR, Some(1));
    let e: ErrorWith<u8> = ErrorWith::with_payload(None, ReturnCode::ABORT, None);
    assert!(a == b);
    assert!(a != c);
    assert!(a != d);
    assert!(a != e);
    assert!(bare(ReturnCode::ABORT) == Error::new(Some("x".to_string()), ReturnCode::ABORT));
}

#[test]
fn empty_message_reads_as_absent() {
    let e = Error::new(Some(String::new()), ReturnCode::SYSTEM_ERR);
    assert_eq!(e.message(), None);
    let f = Error::new(Some("System error".to_string()), ReturnCode::SYSTEM_ERR);
    assert_eq!(f.message(), Some("System error"));
}

#[test]
fn shown_text_is_message_or_bracketed_code() {
    assert_eq!(bare(ReturnCode::ABORT).to_string(), "<26>");
    assert_eq!(bare(ReturnCode::OPEN_ERR).to_string(), "<1>");
    assert_eq!(bare(ReturnCode::AUTHINFO_UNAVAIL).to_string(), "<9>");
    assert_eq!(bare(ReturnCode::USER_UNKNOWN).to_string(), "<10>");
    assert_eq!(bare(ReturnCode::CONV_ERR).to_string(), "<19>");
    assert_eq!(bare(ReturnCode::INCOMPLETE).to_string(), "<31>");
    assert_eq!(Error::new(Some(String::new()), ReturnCode::ABORT).to_string(), "<26>");
    let e = Error::new(Some("Critical error".to_string()), ReturnCode::ABORT);
    assert_eq!(e.to_string(), "Critical error");
}

#[test]
fn io_kinds_follow_the_table() {
    assert_eq!(bare(ReturnCode::INCOMPLETE).io_kind(), IoErrorKind::Interrupted);
    assert_eq!(bare(ReturnCode::TRY_AGAIN).io_kind(), IoErrorKind::Interrupted);
    assert_eq!(bare(ReturnCode::BAD_ITEM).io_kind(), IoErrorKind::NotFound);
    assert_eq!(bare(ReturnCode::USER_UNKNOWN).io_kind(), IoErrorKind::NotFound);
    assert_eq!(bare(ReturnCode::CRED_INSUFFICIENT).io_kind(), IoErrorKind::PermissionDenied);
    assert_eq!(bare(ReturnCode::PERM_DENIED).io_kind(), IoErrorKind::PermissionDenied);
    assert_eq!(bare(ReturnCode::ABORT).io_kind(), IoErrorKind::Other);
    assert_eq!(ReturnCode::AUTH_ERR.io_kind(), IoErrorKind::Other);
}

#[test]
fn clone_keeps_everything() {
    let e: ErrorWith<u16> = ErrorWith::with_payload(Some("m".to_string()), ReturnCode::CRED_ERR, Some(9));
    let f = e.clone();
    assert!(e == f);
    assert_eq!(f.message(), Some("m"));
    let _unused: Option<NoPayload> = None;
}

#[test]
fn hash_follows_equality() {
    let a: ErrorWith<u8> = ErrorWith::with_payload(Some("a".to_string()), ReturnCode::ABORT, Some(1));
    let b: ErrorWith<u8> = ErrorWith::with_payload(Some("b".to_string()), ReturnCode::ABORT, Some(1));
    assert!(a == b);
    assert_eq!(hash_of(&a), hash_of(&b));
    let c: ErrorWith<u8> = ErrorWith::with_payload(None, ReturnCode::BUF_ERR, Some(1));
    assert_ne!(hash_of(&a), hash_of(&c));
}
