//! Status codes of the PAM library and their numeric values.

use vstd::prelude::*;

verus! {

/// A status code of the PAM library. `SUCCESS` is the one code that
/// never describes a failure.
#[allow(non_camel_case_types)]
#[derive(Clone, Copy, Debug, PartialEq, Eq, Hash, Structural)]
pub enum ReturnCode {
    /// Successful function return
    SUCCESS,
    /// Failure to load a service module
    OPEN_ERR,
    /// Symbol not found
    SYMBOL_ERR,
    /// Error in a service module
    SERVICE_ERR,
    /// System error
    SYSTEM_ERR,
    /// Memory buffer error
    BUF_ERR,
    /// Permission denied
    PERM_DENIED,
    /// Authentication failure
    AUTH_ERR,
    /// Insufficient credentials to access authentication data
    CRED_INSUFFICIENT,
    /// Authentication information cannot be retrieved
    AUTHINFO_UNAVAIL,
    /// User not known to the underlying module
    USER_UNKNOWN,
    /// Retry limit reached; do not retry
    MAXTRIES,
    /// New authentication token required
    NEW_AUTHTOK_REQD,
    /// User account has expired
    ACCT_EXPIRED,
    /// Cannot make or remove a session entry
    SESSION_ERR,
    /// User credentials unavailable
    CRED_UNAVAIL,
    /// User credentials expired
    CRED_EXPIRED,
    /// Failure setting user credentials
    CRED_ERR,
    /// No module specific data is present
    NO_MODULE_DATA,
    /// Conversation error
    CONV_ERR,
    /// Authentication token manipulation error
    AUTHTOK_ERR,
    /// Authentication information cannot be recovered
    AUTHTOK_RECOVERY_ERR,
    /// Authentication token lock busy
    AUTHTOK_LOCK_BUSY,
    /// Authentication token aging disabled
    AUTHTOK_DISABLE_AGING,
    /// Preliminary check by password service
    TRY_AGAIN,
    /// Ignore the underlying module
    IGNORE,
    /// Critical error, the module asks to fail now
    ABORT,
    /// Authentication token has expired
    AUTHTOK_EXPIRED,
    /// Module is not known
    MODULE_UNKNOWN,
    /// Bad item passed to an item accessor
    BAD_ITEM,
    /// Event-driven conversation has no data yet
    CONV_AGAIN,
    /// Call again to complete the authentication stack
    INCOMPLETE,
}

/// The numeric value libpam gives to a status code.
pub open spec fn code_value(c: ReturnCode) -> int {
    match c {
        ReturnCode::SUCCESS => 0,
        ReturnCode::OPEN_ERR => 1,
        ReturnCode::SYMBOL_ERR => 2,
        ReturnCode::SERVICE_ERR => 3,
        ReturnCode::SYSTEM_ERR => 4,
        ReturnCode::BUF_ERR => 5,
        ReturnCode::PERM_DENIED => 6,
        ReturnCode::AUTH_ERR => 7,
        ReturnCode::CRED_INSUFFICIENT => 8,
        ReturnCode::AUTHINFO_UNAVAIL => 9,
        ReturnCode::USER_UNKNOWN => 10,
        ReturnCode::MAXTRIES => 11,
        ReturnCode::NEW_AUTHTOK_REQD => 12,
        ReturnCode::ACCT_EXPIRED => 13,
        ReturnCode::SESSION_ERR => 14,
        ReturnCode::CRED_UNAVAIL => 15,
        ReturnCode::CRED_EXPIRED => 16,
        ReturnCode::CRED_ERR => 17,
        ReturnCode::NO_MODULE_DATA => 18,
        ReturnCode::CONV_ERR => 19,
        ReturnCode::AUTHTOK_ERR => 20,
        ReturnCode::AUTHTOK_RECOVERY_ERR => 21,
        ReturnCode::AUTHTOK_LOCK_BUSY => 22,
        ReturnCode::AUTHTOK_DISABLE_AGING => 23,
        ReturnCode::TRY_AGAIN => 24,
        ReturnCode::IGNORE => 25,
        ReturnCode::ABORT => 26,
        ReturnCode::AUTHTOK_EXPIRED => 27,
        ReturnCode::MODULE_UNKNOWN => 28,
        ReturnCode::BAD_ITEM => 29,
        ReturnCode::CONV_AGAIN => 30,
        ReturnCode::INCOMPLETE => 31,
    }
}

/// Category of a generic I/O error that a status code falls under.
#[derive(Clone, Copy, Debug, PartialEq, Eq, Hash, Structural)]
pub enum IoErrorKind {
    Interrupted,
    NotFound,
    PermissionDenied,
    Other,
}

/// Transient conditions are interrupted, missing items or users are not
/// found, missing credentials or rights are denied; all else is other.
pub open spec fn io_kind_of(c: ReturnCode) -> IoErrorKind {
    match c {
        ReturnCode::INCOMPLETE | ReturnCode::TRY_AGAIN => IoErrorKind::Interrupted,
        ReturnCode::BAD_ITEM | ReturnCode::USER_UNKNOWN => IoErrorKind::NotFound,
        ReturnCode::CRED_INSUFFICIENT | ReturnCode::PERM_DENIED => IoErrorKind::PermissionDenied,
        _ => IoErrorKind::Other,
    }
}

impl ReturnCode {
    /// The numeric value of this code.
    pub fn as_i32(self) -> (r: i32)
        ensures
            r as int == code_value(self),
    {
        match self {
            ReturnCode::SUCCESS => 0,
            ReturnCode::OPEN_ERR => 1,
            ReturnCode::SYMBOL_ERR => 2,
            ReturnCode::SERVICE_ERR => 3,
            ReturnCode::SYSTEM_ERR => 4,
            ReturnCode::BUF_ERR => 5,
            ReturnCode::PERM_DENIED => 6,
            ReturnCode::AUTH_ERR => 7,
            ReturnCode::CRED_INSUFFICIENT => 8,
            ReturnCode::AUTHINFO_UNAVAIL => 9,
            ReturnCode::USER_UNKNOWN => 10,
            ReturnCode::MAXTRIES => 11,
            ReturnCode::NEW_AUTHTOK_REQD => 12,
            ReturnCode::ACCT_EXPIRED => 13,
            ReturnCode::SESSION_ERR => 14,
            ReturnCode::CRED_UNAVAIL => 15,
            ReturnCode::CRED_EXPIRED => 16,
            ReturnCode::CRED_ERR => 17,
            ReturnCode::NO_MODULE_DATA => 18,
            ReturnCode::CONV_ERR => 19,
            ReturnCode::AUTHTOK_ERR => 20,
            ReturnCode::AUTHTOK_RECOVERY_ERR => 21,
            ReturnCode::AUTHTOK_LOCK_BUSY => 22,
            ReturnCode::AUTHTOK_DISABLE_AGING => 23,
            ReturnCode::TRY_AGAIN => 24,
            ReturnCode::IGNORE => 25,
            ReturnCode::ABORT => 26,
            ReturnCode::AUTHTOK_EXPIRED => 27,
            ReturnCode::MODULE_UNKNOWN => 28,
            ReturnCode::BAD_ITEM => 29,
            ReturnCode::CONV_AGAIN => 30,
            ReturnCode::INCOMPLETE => 31,
        }
    }

    /// The code with the given numeric value, if there is one.
    pub fn from_i32(v: i32) -> (r: Option<ReturnCode>)
        ensures
            r is Some <==> 0 <= v < 32,
            r is Some ==> code_value(r->0) == v,
    {
        match v {
            0 => Some(ReturnCode::SUCCESS),
            1 => Some(ReturnCode::OPEN_ERR),
            2 => Some(ReturnCode::SYMBOL_ERR),
            3 => Some(ReturnCode::SERVICE_ERR),
            4 => Some(ReturnCode::SYSTEM_ERR),
            5 => Some(ReturnCode::BUF_ERR),
            6 => Some(ReturnCode::PERM_DENIED),
            7 => Some(ReturnCode::AUTH_ERR),
            8 => Some(ReturnCode::CRED_INSUFFICIENT),
            9 => Some(ReturnCode::AUTHINFO_UNAVAIL),
            10 => Some(ReturnCode::USER_UNKNOWN),
            11 => Some(ReturnCode::MAXTRIES),
            12 => Some(ReturnCode::NEW_AUTHTOK_REQD),
            13 => Some(ReturnCode::ACCT_EXPIRED),
            14 => Some(ReturnCode::SESSION_ERR),
            15 => Some(ReturnCode::CRED_UNAVAIL),
            16 => Some(ReturnCode::CRED_EXPIRED),
            17 => Some(ReturnCode::CRED_ERR),
            18 => Some(ReturnCode::NO_MODULE_DATA),
            19 => Some(ReturnCode::CONV_ERR),
            20 => Some(ReturnCode::AUTHTOK_ERR),
            21 => Some(ReturnCode::AUTHTOK_RECOVERY_ERR),
            22 => Some(ReturnCode::AUTHTOK_LOCK_BUSY),
            23 => Some(ReturnCode::AUTHTOK_DISABLE_AGING),
            24 => Some(ReturnCode::TRY_AGAIN),
            25 => Some(ReturnCode::IGNORE),
            26 => Some(ReturnCode::ABORT),
            27 => Some(ReturnCode::AUTHTOK_EXPIRED),
            28 => Some(ReturnCode::MODULE_UNKNOWN),
            29 => Some(ReturnCode::BAD_ITEM),
            30 => Some(ReturnCode::CONV_AGAIN),
            31 => Some(ReturnCode::INCOMPLETE),
            _ => None,
        }
    }

    /// The category of generic I/O error this code maps to.
    pub fn io_kind(self) -> (r: IoErrorKind)
        ensures
            r == io_kind_of(self),
    {
        match self {
            ReturnCode::INCOMPLETE | ReturnCode::TRY_AGAIN => IoErrorKind::Interrupted,
            ReturnCode::BAD_ITEM | ReturnCode::USER_UNKNOWN => IoErrorKind::NotFound,
            ReturnCode::CRED_INSUFFICIENT | ReturnCode::PERM_DENIED => IoErrorKind::PermissionDenied,
            _ => IoErrorKind::Other,
        }
    }
}

} // verus!
