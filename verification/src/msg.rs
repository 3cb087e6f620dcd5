//! Chat messages: creation-time validation of alias and text, and the
//! identifier and timestamp a freshly accepted message is stamped with.
use vstd::prelude::*;
use vstd::string::StrSliceExecFns;
use crate::MAX_ALIAS_LEN;
use crate::MAX_TEXT_LEN;

verus! {

/// A point in time, as whole seconds since the epoch plus the sub-second
/// nanoseconds.
#[derive(Clone, Copy, Debug, PartialEq, Eq, Structural)]
pub struct Timestamp {
    pub secs: u64,
    pub nanos: u32,
}

impl Timestamp {
    /// The nanosecond part never reaches a whole second.
    pub open spec fn wf(self) -> bool {
        self.nanos < 1_000_000_000
    }
}

/// Why a submission was rejected, or `Unknown` when the path from the
/// ingress to the hub failed after validation.
#[derive(Debug, PartialEq, Eq)]
pub enum SendMessageError {
    Unknown(String),
    MissingAlias,
    MissingMessage,
    AliasTooLong,
    MessageTooLong,
}

/// A chat message, immutable once created; both length bounds are enforced
/// exactly once, by [`Message::try_new`].
#[derive(Debug)]
pub struct Message {
    pub id: u128,
    pub alias: String,
    pub text: String,
    pub sent_at: Timestamp,
}

/// The outcome validation owes a submission: errors are checked in this
/// order, stopping at the first failure.
pub open spec fn validation_outcome(alias: Seq<char>, text: Seq<char>) -> Result<(), SendMessageError> {
    if text.len() == 0 {
        Err(SendMessageError::MissingMessage)
    } else if text.len() > MAX_TEXT_LEN as int {
        Err(SendMessageError::MessageTooLong)
    } else if alias.len() == 0 {
        Err(SendMessageError::MissingAlias)
    } else if alias.len() > MAX_ALIAS_LEN as int {
        Err(SendMessageError::AliasTooLong)
    } else {
        Ok(())
    }
}

impl Message {
    /// A message carries an alias and a text within bounds and a
    /// well-formed timestamp.
    pub open spec fn wf(self) -> bool {
        &&& 1 <= self.alias@.len() <= MAX_ALIAS_LEN as int
        &&& 1 <= self.text@.len() <= MAX_TEXT_LEN as int
        &&& self.sent_at.wf()
    }

    /// Validates a submission; on success builds the message with a fresh
    /// identifier and the current time. Either the input passes every rule
    /// and a well-formed message is returned, or the first failing rule's
    /// error is returned and nothing else happens.
    pub fn try_new(alias: String, text: String) -> (r: Result<Message, SendMessageError>)
        ensures
            match r {
                Ok(m) => {
                    &&& validation_outcome(alias@, text@) == Ok::<(), SendMessageError>(())
                    &&& m.alias == alias
                    &&& m.text == text
                    &&& m.wf()
                },
                Err(e) => validation_outcome(alias@, text@) == Err::<(), SendMessageError>(e),
            },
    {
        if text.as_str().is_empty() {
            Err(SendMessageError::MissingMessage)
        } else if text.as_str().unicode_len() > MAX_TEXT_LEN {
            Err(SendMessageError::MessageTooLong)
        } else if alias.as_str().is_empty() {
            Err(SendMessageError::MissingAlias)
        } else if alias.as_str().unicode_len() > MAX_ALIAS_LEN {
            Err(SendMessageError::AliasTooLong)
        } else {
            let id: u128 = fresh_id();
            let now: (u64, u32) = now_since_epoch();
            Ok(Message { id, alias, text, sent_at: Timestamp { secs: now.0, nanos: now.1 } })
        }
    }
}

impl Clone for Message {
    /// An equal copy, cheap enough to hand to every subscriber and to
    /// the history buffer.
    fn clone(&self) -> (res: Self)
        ensures
            res == *self,
    {
        Message {
            id: self.id,
            alias: self.alias.clone(),
            text: self.text.clone(),
            sent_at: self.sent_at,
        }
    }
}

/// Relies on `uuid::Uuid::new_v4` (through `Uuid::as_u128`) for a freshly
/// generated random identifier; nothing is assumed of its value.
#[verifier::external_body]
pub(crate) fn fresh_id() -> u128 {
    uuid::Uuid::new_v4().as_u128()
}

/// Relies on `std::time::SystemTime::now` read through
/// `duration_since(UNIX_EPOCH)`: the current time as whole seconds and the
/// sub-second nanoseconds, which std documents to be below one billion. A
/// clock reading earlier than the epoch is reported as the epoch itself.
#[verifier::external_body]
fn now_since_epoch() -> (t: (u64, u32))
    ensures
        t.1 < 1_000_000_000,
{
    match std::time::SystemTime::now().duration_since(std::time::UNIX_EPOCH) {
        Ok(d) => (d.as_secs(), d.subsec_nanos()),
        Err(_) => (0, 0),
    }
}

} // verus!
