//! Simple non-interactive conversation handler.

use crate::code::ReturnCode;
use crate::conversation::ConversationHandler;
use vstd::prelude::*;

verus! {

/// An entry of [`Conversation::log`].
#[derive(Debug, Clone)]
pub enum LogEntry {
    Info(String),
    Error(String),
}

/// The texts of the info entries of `log`, in the order they were recorded.
pub open spec fn infos_of(log: Seq<LogEntry>) -> Seq<Seq<char>>
    decreases log.len(),
{
    if log.len() == 0 {
        Seq::empty()
    } else {
        let rest = infos_of(log.drop_last());
        match log.last() {
            LogEntry::Info(m) => rest.push(m@),
            LogEntry::Error(_) => rest,
        }
    }
}

/// The texts of the error entries of `log`, in the order they were recorded.
pub open spec fn errors_of(log: Seq<LogEntry>) -> Seq<Seq<char>>
    decreases log.len(),
{
    if log.len() == 0 {
        Seq::empty()
    } else {
        let rest = errors_of(log.drop_last());
        match log.last() {
            LogEntry::Error(m) => rest.push(m@),
            LogEntry::Info(_) => rest,
        }
    }
}

/// The errors and the infos of a log split it: each entry is counted in
/// exactly one of the two.
pub proof fn lemma_log_partition(log: Seq<LogEntry>)
    ensures
        errors_of(log).len() + infos_of(log).len() == log.len(),
    decreases log.len(),
{
    if log.len() > 0 {
        lemma_log_partition(log.drop_last());
    }
}

/// Whether `s` holds a NUL character, which a C string cannot carry.
pub open spec fn has_nul(s: Seq<char>) -> bool {
    exists|i: int| 0 <= i < s.len() && s[i] == '\0'
}

/// What a prompt answers with the stored text `s`: the text itself, or a
/// conversation error where it cannot be handed over as a C string.
pub open spec fn answer_of(s: Seq<char>, r: Result<String, ReturnCode>) -> bool {
    if has_nul(s) {
        r == Err::<String, ReturnCode>(ReturnCode::CONV_ERR)
    } else {
        r matches Ok(a) && a@ == s
    }
}

/// Copies `s`, or fails with a conversation error if it holds a NUL.
fn answer(s: &String) -> (r: Result<String, ReturnCode>)
    ensures
        answer_of(s@, r),
{
    let text = s.as_str();
    let n = text.unicode_len();
    let mut i: usize = 0;
    while i < n
        invariant
            n == s@.len(),
            text@ == s@,
            i <= n,
            forall|j: int| 0 <= j < i ==> s@[j] != '\0',
        decreases n - i,
    {
        if text.get_char(i) == '\0' {
            return Err(ReturnCode::CONV_ERR);
        }
        i = i + 1;
    }
    Ok(s.clone())
}

/// Non-interactive conversation handler.
///
/// A non-secret prompt is answered with [`username`][`Self::username`], a
/// secret one with [`password`][`Self::password`]. Every info and error
/// message is recorded in [`log`][`Self::log`].
///
/// Flows that need a person to react to intermediate messages, such as
/// two-factor authentication or changing an expired password, will fail,
/// since all answers are fixed beforehand.
#[derive(Debug, Clone)]
pub struct Conversation {
    /// The username to answer with
    pub username: String,
    /// The password to answer with
    pub password: String,
    /// All received info and error messages
    pub log: Vec<LogEntry>,
}

impl Conversation {
    /// Creates a handler with empty credentials and an empty log.
    ///
    /// An empty [`username`][`Self::username`] is filled with the default
    /// username when a transaction starts.
    pub fn new() -> (r: Self)
        ensures
            r.username@ == Seq::<char>::empty(),
            r.password@ == Seq::<char>::empty(),
            r.log@ == Seq::<LogEntry>::empty(),
    {
        Conversation { username: String::new(), password: String::new(), log: Vec::new() }
    }

    /// Creates a handler with preset credentials and an empty log.
    pub fn with_credentials(username: &str, password: &str) -> (r: Self)
        ensures
            r.username@ == username@,
            r.password@ == password@,
            r.log@ == Seq::<LogEntry>::empty(),
    {
        Conversation {
            username: username.to_owned(),
            password: password.to_owned(),
            log: Vec::new(),
        }
    }

    /// Clears the log; the credentials stay.
    pub fn clear_log(&mut self)
        ensures
            final(self).log@ == Seq::<LogEntry>::empty(),
            final(self).username == old(self).username,
            final(self).password == old(self).password,
    {
        self.log.clear();
    }

    /// The error messages of the log, in the order they came.
    pub fn errors(&self) -> (r: Vec<String>)
        ensures
            r@.map_values(|m: String| m@) == errors_of(self.log@),
    {
        let mut r: Vec<String> = Vec::new();
        let mut i: usize = 0;
        while i < self.log.len()
            invariant
                i <= self.log@.len(),
                r@.map_values(|m: String| m@) == errors_of(self.log@.take(i as int)),
            decreases self.log@.len() - i,
        {
            assert(self.log@.take(i as int + 1).drop_last() == self.log@.take(i as int));
            match &self.log[i] {
                LogEntry::Error(m) => r.push(m.clone()),
                LogEntry::Info(_) => {},
            }
            i = i + 1;
            assert(r@.map_values(|m: String| m@) =~= errors_of(self.log@.take(i as int)));
        }
        assert(self.log@.take(i as int) == self.log@);
        r
    }

    /// The info messages of the log, in the order they came.
    pub fn infos(&self) -> (r: Vec<String>)
        ensures
            r@.map_values(|m: String| m@) == infos_of(self.log@),
    {
        let mut r: Vec<String> = Vec::new();
        let mut i: usize = 0;
        while i < self.log.len()
            invariant
                i <= self.log@.len(),
                r@.map_values(|m: String| m@) == infos_of(self.log@.take(i as int)),
            decreases self.log@.len() - i,
        {
            assert(self.log@.take(i as int + 1).drop_last() == self.log@.take(i as int));
            match &self.log[i] {
                LogEntry::Info(m) => r.push(m.clone()),
                LogEntry::Error(_) => {},
            }
            i = i + 1;
            assert(r@.map_values(|m: String| m@) =~= infos_of(self.log@.take(i as int)));
        }
        assert(self.log@.take(i as int) == self.log@);
        r
    }
}

impl Default for Conversation {
    fn default() -> (r: Self)
        ensures
            r.username@ == Seq::<char>::empty(),
            r.password@ == Seq::<char>::empty(),
            r.log@ == Seq::<LogEntry>::empty(),
    {
        Self::new()
    }
}

impl ConversationHandler for Conversation {
    /// Adopts `default_user` only while no username is set.
    fn init(&mut self, default_user: Option<&str>)
        ensures
            final(self).username@ == (match default_user {
                Some(u) if old(self).username@.len() == 0 => u@,
                _ => old(self).username@,
            }),
            final(self).password == old(self).password,
            final(self).log == old(self).log,
    {
        if let Some(user) = default_user {
            if self.username.as_str().is_empty() {
                self.username = user.to_owned();
            }
        }
    }

    fn prompt_echo_on(&mut self, _msg: &str) -> (r: Result<String, ReturnCode>)
        ensures
            answer_of(old(self).username@, r),
            *final(self) == *old(self),
    {
        answer(&self.username)
    }

    fn prompt_echo_off(&mut self, _msg: &str) -> (r: Result<String, ReturnCode>)
        ensures
            answer_of(old(self).password@, r),
            *final(self) == *old(self),
    {
        answer(&self.password)
    }

    fn text_info(&mut self, msg: &str)
        ensures
            final(self).log@.len() == old(self).log@.len() + 1,
            final(self).log@.drop_last() == old(self).log@,
            final(self).log@.last() matches LogEntry::Info(m) && m@ == msg@,
            final(self).username == old(self).username,
            final(self).password == old(self).password,
    {
        self.log.push(LogEntry::Info(msg.to_owned()));
    }

    fn error_msg(&mut self, msg: &str)
        ensures
            final(self).log@.len() == old(self).log@.len() + 1,
            final(self).log@.drop_last() == old(self).log@,
            final(self).log@.last() matches LogEntry::Error(m) && m@ == msg@,
            final(self).username == old(self).username,
            final(self).password == old(self).password,
    {
        self.log.push(LogEntry::Error(msg.to_owned()));
    }

    /// Never confirms: every yes/no question is answered with no.
    fn radio_prompt(&mut self, _msg: &str) -> (r: Result<bool, ReturnCode>)
        ensures
            r == Ok::<bool, ReturnCode>(false),
            *final(self) == *old(self),
    {
        Ok(false)
    }

    /// Binary exchanges are not supported.
    fn binary_prompt(&mut self, _kind: u8, _data: &[u8]) -> (r: Result<(u8, Vec<u8>), ReturnCode>)
        ensures
            r matches Err(c) && c == ReturnCode::CONV_ERR,
            *final(self) == *old(self),
    {
        Err(ReturnCode::CONV_ERR)
    }
}

} // verus!
