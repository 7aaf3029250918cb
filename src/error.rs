//! Errors of PAM operations, optionally carrying a value back to the caller.

use crate::code::{code_value, io_kind_of, IoErrorKind, ReturnCode};
use std::convert::Infallible;
use std::marker::PhantomData;
use vstd::prelude::*;
use vstd::std_specs::cmp::PartialEqSpec;
use vstd::std_specs::convert::TryFromSpec;

verus! {

/// The character of the decimal digit `d`.
pub open spec fn digit(d: nat) -> char {
    (('0' as u8) + (d % 10) as u8) as char
}

/// The decimal digits of `n`, most significant first.
pub open spec fn decimal(n: nat) -> Seq<char>
    decreases n,
{
    if n < 10 {
        seq![digit(n)]
    } else {
        decimal(n / 10).push(digit(n % 10))
    }
}

/// The text of the decimal digit `d`.
fn digit_text(d: i32) -> (r: &'static str)
    requires
        0 <= d < 10,
    ensures
        r@ == seq![digit(d as nat)],
{
    match d {
        0 => { proof { reveal_strlit("0"); } "0" },
        1 => { proof { reveal_strlit("1"); } "1" },
        2 => { proof { reveal_strlit("2"); } "2" },
        3 => { proof { reveal_strlit("3"); } "3" },
        4 => { proof { reveal_strlit("4"); } "4" },
        5 => { proof { reveal_strlit("5"); } "5" },
        6 => { proof { reveal_strlit("6"); } "6" },
        7 => { proof { reveal_strlit("7"); } "7" },
        8 => { proof { reveal_strlit("8"); } "8" },
        _ => { proof { reveal_strlit("9"); } "9" },
    }
}

/// `n` in decimal between angle brackets, for a status code's value.
fn bracketed_code(n: i32) -> (r: String)
    requires
        0 <= n < 100,
    ensures
        r@ == seq!['<'] + decimal(n as nat) + seq!['>'],
{
    proof {
        reveal_strlit("<");
        reveal_strlit(">");
        reveal_with_fuel(decimal, 2);
    }
    let mut r = String::from_str("<");
    if n >= 10 {
        r.append(digit_text(n / 10));
    }
    r.append(digit_text(n % 10));
    r.append(">");
    assert(r@ =~= seq!['<'] + decimal(n as nat) + seq!['>']);
    r
}

/// The payload type of errors that never carry a payload. It wraps an
/// uninhabited type, so no value of it can exist.
#[derive(Copy, Clone, Debug, Hash)]
pub struct NoPayload(Infallible);

impl PartialEq for NoPayload {
    fn eq(&self, _other: &NoPayload) -> (r: bool) {
        true
    }
}

impl vstd::std_specs::cmp::PartialEqSpecImpl for NoPayload {
    open spec fn obeys_eq_spec() -> bool {
        true
    }

    open spec fn eq_spec(&self, other: &NoPayload) -> bool {
        true
    }
}

impl Eq for NoPayload {}

/// Records whether a payload is present, without its contents, so that an
/// error can be described whatever its payload type is.
pub enum DisplayHelper<T> {
    Present(PhantomData<T>),
    Absent,
}

impl<T> DisplayHelper<T> {
    /// Marks `option` as present or absent.
    pub fn new(option: &Option<T>) -> (r: Self)
        ensures
            (r is Present) <==> (option is Some),
    {
        match option {
            None => Self::Absent,
            Some(_) => Self::Present(PhantomData),
        }
    }
}

/// Error of a PAM operation: a failure code, an optional message, and
/// optionally a value whose ownership goes back to the caller.
#[derive(Debug)]
pub struct ErrorWith<T> {
    code: ReturnCode,
    msg: Option<String>,
    payload: Option<T>,
}

/// Error of a PAM operation that never carries a payload.
pub type Error = ErrorWith<NoPayload>;

/// `a` and `b` report the same failure: same code, same message.
pub open spec fn same_failure<A, B>(a: ErrorWith<A>, b: ErrorWith<B>) -> bool {
    a.code_spec() == b.code_spec() && a.msg_spec() == b.msg_spec()
}

/// Taking the payload of `before` leaves `after` and yields `taken`.
pub open spec fn is_take<T>(before: ErrorWith<T>, after: ErrorWith<T>, taken: Option<T>) -> bool {
    &&& taken == before.payload_spec()
    &&& same_failure(after, before)
    &&& after.payload_spec() is None
}

impl<T> ErrorWith<T> {
    /// An error never holds the success code.
    #[verifier::type_invariant]
    spec fn inv(&self) -> bool {
        self.code != ReturnCode::SUCCESS
    }

    /// The failure code.
    pub closed spec fn code_spec(&self) -> ReturnCode {
        self.code
    }

    /// The message text; empty when there is none.
    pub closed spec fn msg_spec(&self) -> Seq<char> {
        match self.msg {
            Some(m) => m@,
            None => Seq::empty(),
        }
    }

    /// The payload, if any.
    pub closed spec fn payload_spec(&self) -> Option<T> {
        self.payload
    }

    /// The error with code `code`, an empty message and no payload.
    pub closed spec fn bare(code: ReturnCode) -> ErrorWith<T> {
        ErrorWith { code, msg: None, payload: None }
    }

    /// Creates an error that takes a payload, with `message` as the text of
    /// `code` (the text libpam gives for it, where a handle was at hand); an
    /// absent message reads as empty.
    ///
    /// Functions that consume a value can use the payload to hand its
    /// ownership back on failure.
    pub fn with_payload(message: Option<String>, code: ReturnCode, payload: Option<T>) -> (r: Self)
        requires
            code != ReturnCode::SUCCESS,
        ensures
            r.code_spec() == code,
            r.payload_spec() == payload,
            r.msg_spec() == (match message {
                Some(m) => m@,
                None => Seq::<char>::empty(),
            }),
    {
        ErrorWith { code, msg: message, payload }
    }

    /// The error code.
    pub fn code(&self) -> (r: ReturnCode)
        ensures
            r == self.code_spec(),
            r != ReturnCode::SUCCESS,
    {
        proof {
            use_type_invariant(self);
        }
        self.code
    }

    /// Text of the error code, if there is any.
    pub fn message(&self) -> (r: Option<&str>)
        ensures
            match r {
                Some(m) => m@ == self.msg_spec() && m@.len() > 0,
                None => self.msg_spec().len() == 0,
            },
    {
        match &self.msg {
            Some(m) => {
                if m.as_str().is_empty() {
                    None
                } else {
                    Some(m.as_str())
                }
            },
            None => None,
        }
    }

    /// The text shown to a user: the message, or else the numeric code
    /// between angle brackets.
    pub fn to_string(&self) -> (r: String)
        ensures
            r@ == (if self.msg_spec().len() > 0 {
                self.msg_spec()
            } else {
                seq!['<'] + decimal(code_value(self.code_spec()) as nat) + seq!['>']
            }),
    {
        match self.message() {
            Some(m) => m.to_owned(),
            None => bracketed_code(self.code.as_i32()),
        }
    }

    /// A reference to the payload, if any.
    pub fn payload(&self) -> (r: Option<&T>)
        ensures
            match r {
                Some(p) => self.payload_spec() == Some(*p),
                None => self.payload_spec() is None,
            },
    {
        self.payload.as_ref()
    }

    /// Moves the payload out of the error, if it has one. Later calls of
    /// `payload` and `take_payload` return `None`.
    pub fn take_payload(&mut self) -> (r: Option<T>)
        ensures
            is_take(*old(self), *final(self), r),
    {
        proof {
            use_type_invariant(&*self);
        }
        let mut taken = ErrorWith { code: self.code, msg: None, payload: None };
        std::mem::swap(self, &mut taken);
        proof {
            use_type_invariant(&taken);
        }
        let ErrorWith { code, msg, payload } = taken;
        *self = ErrorWith { code, msg, payload: None };
        payload
    }

    /// Drops the payload, if any, keeping code and message.
    pub fn drop_payload(self) -> (r: Error)
        ensures
            same_failure(r, self),
            r.payload_spec() is None,
    {
        proof {
            use_type_invariant(&self);
        }
        Error { code: self.code, msg: self.msg, payload: None }
    }

    /// Changes the payload with `func`, keeping code and message; `func` is
    /// called once if there is a payload and not at all otherwise.
    pub fn map<U, F: FnOnce(T) -> U>(self, func: F) -> (r: ErrorWith<U>)
        requires
            self.payload_spec() matches Some(p) ==> func.requires((p,)),
        ensures
            same_failure(r, self),
            r.payload_spec() is Some <==> self.payload_spec() is Some,
            self.payload_spec() matches Some(p) ==> func.ensures((p,), r.payload_spec()->0),
    {
        proof {
            use_type_invariant(&self);
        }
        let payload = match self.payload {
            None => None,
            Some(object) => Some(func(object)),
        };
        ErrorWith::<U> { code: self.code, msg: self.msg, payload }
    }

    /// The category of generic I/O error this error falls under.
    pub fn io_kind(&self) -> (r: IoErrorKind)
        ensures
            r == io_kind_of(self.code_spec()),
    {
        self.code.io_kind()
    }
}

/// Taking the payload twice yields it once: the first take returns it, the
/// second returns `None`, and what is left has no payload and reports the
/// same failure.
pub proof fn lemma_take_payload_idempotent<T>(
    e0: ErrorWith<T>,
    e1: ErrorWith<T>,
    r1: Option<T>,
    e2: ErrorWith<T>,
    r2: Option<T>,
)
    requires
        is_take(e0, e1, r1),
        is_take(e1, e2, r2),
    ensures
        r1 == e0.payload_spec(),
        r2 is None,
        e2.payload_spec() is None,
        same_failure(e2, e0),
{
}

/// Dropping the payload of `e` (giving `d`) and then attaching `v` (giving
/// `a`) reports the same failure as `e`, with exactly `v` as payload.
pub proof fn lemma_drop_then_attach<T, U>(e: ErrorWith<T>, d: Error, v: U, a: ErrorWith<U>)
    requires
        same_failure(d, e),
        d.payload_spec() is None,
        same_failure(a, d),
        a.payload_spec() == Some(v),
    ensures
        same_failure(a, e),
        a.payload_spec() == Some(v),
{
}

/// No error is made of the success code: converting a bare code refuses
/// exactly `SUCCESS`, and on any other code gives an error with that code
/// and no payload.
pub proof fn lemma_success_is_never_an_error(code: ReturnCode)
    ensures
        (<Error as TryFromSpec<ReturnCode>>::try_from_spec(code) is Err) <==> code
            == ReturnCode::SUCCESS,
        <Error as TryFromSpec<ReturnCode>>::try_from_spec(code) matches Ok(e) ==> e.code_spec()
            == code && e.payload_spec() is None,
{
}

/// A bare error holds its code, no message and no payload.
pub broadcast proof fn lemma_bare<T>(code: ReturnCode)
    ensures
        #[trigger] ErrorWith::<T>::bare(code).code_spec() == code,
        ErrorWith::<T>::bare(code).msg_spec().len() == 0,
        ErrorWith::<T>::bare(code).payload_spec() is None,
{
}

/// Errors with the same code and equal payloads are equal, whatever their
/// messages are.
pub proof fn lemma_eq_ignores_message<T: PartialEq + PartialEqSpec>(
    a: ErrorWith<T>,
    b: ErrorWith<T>,
)
    requires
        a.code_spec() == b.code_spec(),
        match (a.payload_spec(), b.payload_spec()) {
            (None, None) => true,
            (Some(x), Some(y)) => x.eq_spec(&y),
            _ => false,
        },
    ensures
        a.eq_spec(&b),
{
}

impl ErrorWith<NoPayload> {
    /// Creates an error with `message` as the text of `code`; an absent
    /// message reads as empty.
    pub fn new(message: Option<String>, code: ReturnCode) -> (r: Error)
        requires
            code != ReturnCode::SUCCESS,
        ensures
            r.code_spec() == code,
            r.payload_spec() is None,
            r.msg_spec() == (match message {
                Some(m) => m@,
                None => Seq::<char>::empty(),
            }),
    {
        Self::with_payload(message, code, None)
    }

    /// Attaches `payload`, giving an error over the payload's type.
    pub fn into_with_payload<T>(self, payload: T) -> (r: ErrorWith<T>)
        ensures
            same_failure(r, self),
            r.payload_spec() == Some(payload),
    {
        proof {
            use_type_invariant(&self);
        }
        ErrorWith::<T> { code: self.code, msg: self.msg, payload: Some(payload) }
    }

    /// Turns the error into one over another payload type, with no payload.
    pub fn into<T>(self) -> (r: ErrorWith<T>)
        ensures
            same_failure(r, self),
            r.payload_spec() is None,
    {
        proof {
            use_type_invariant(&self);
        }
        ErrorWith::<T> { code: self.code, msg: self.msg, payload: None }
    }
}

impl<T: Clone> Clone for ErrorWith<T> {
    fn clone(&self) -> (r: Self)
        ensures
            same_failure(r, *self),
            r.payload_spec() is Some <==> self.payload_spec() is Some,
    {
        proof {
            use_type_invariant(self);
        }
        ErrorWith { code: self.code, msg: self.msg.clone(), payload: self.payload.clone() }
    }
}

/// Two errors are equal when code and payload are; the message is left out,
/// so texts that differ by locale do not make errors differ.
impl<T: PartialEq + PartialEqSpec> PartialEq for ErrorWith<T> {
    fn eq(&self, other: &Self) -> (r: bool) {
        self.code == other.code && self.payload == other.payload
    }
}

impl<T: PartialEq + PartialEqSpec> vstd::std_specs::cmp::PartialEqSpecImpl for ErrorWith<T> {
    open spec fn obeys_eq_spec() -> bool {
        T::obeys_eq_spec()
    }

    open spec fn eq_spec(&self, other: &Self) -> bool {
        self.code_spec() == other.code_spec() && match (self.payload_spec(), other.payload_spec()) {
            (None, None) => true,
            (Some(x), Some(y)) => x.eq_spec(&y),
            _ => false,
        }
    }
}

impl<T: Eq + PartialEqSpec> Eq for ErrorWith<T> {}

/// Relies on std's `Hash` for `i32`: it feeds the value to the hasher and
/// nothing else; no result is promised.
pub assume_specification<H: std::hash::Hasher>[ <i32 as std::hash::Hash>::hash::<H> ](
    v: &i32,
    state: &mut H,
);

/// Relies on std's `Hash` for `Option`: it feeds the variant and the
/// contents to the hasher and nothing else; no result is promised.
pub assume_specification<T: std::hash::Hash, H: std::hash::Hasher>[ <Option<T> as std::hash::Hash>::hash::<H> ](
    v: &Option<T>,
    state: &mut H,
);

/// Hashes code and payload, as equality compares them.
impl<T: std::hash::Hash> std::hash::Hash for ErrorWith<T> {
    fn hash<H: std::hash::Hasher>(&self, state: &mut H) {
        self.code.as_i32().hash(state);
        self.payload.hash(state);
    }
}

/// A bare code becomes an error with no message and no payload; only the
/// success code is refused.
impl TryFrom<ReturnCode> for ErrorWith<NoPayload> {
    type Error = ();

    fn try_from(code: ReturnCode) -> (r: Result<Self, ()>) {
        if code == ReturnCode::SUCCESS {
            Err(())
        } else {
            Ok(ErrorWith { code, msg: None, payload: None })
        }
    }
}

impl vstd::std_specs::convert::TryFromSpecImpl<ReturnCode> for ErrorWith<NoPayload> {
    open spec fn obeys_try_from_spec() -> bool {
        true
    }

    open spec fn try_from_spec(code: ReturnCode) -> Result<Self, ()> {
        if code == ReturnCode::SUCCESS {
            Err(())
        } else {
            Ok(Self::bare(code))
        }
    }
}

} // verus!
