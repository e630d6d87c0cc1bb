//! Stable typed identifiers: each id type wraps a random (version 4) UUID,
//! so that vault, record, source and other ids cannot be mixed up. Their
//! string form, the canonical hyphenated UUID, is stable across exports and
//! backups and must be preserved verbatim.

use vstd::prelude::*;
use crate::error::AppError;

verus! {

/// The hyphenated lowercase text that the `uuid` crate gives a UUID.
pub uninterp spec fn uuid_text(value: u128) -> Seq<char>;

/// What `uuid::Uuid::parse_str` reads from a text: the UUID's value, or
/// none when the text is not a UUID.
pub uninterp spec fn uuid_parse(text: Seq<char>) -> Option<u128>;

/// A version 4 (random) UUID as a 128-bit number: version nibble 4 and the
/// RFC 4122 variant bits `10`.
pub open spec fn is_v4(value: u128) -> bool {
    (value >> 76u128) & 0xfu128 == 4u128 && (value >> 62u128) & 0x3u128 == 2u128
}

/// `uuid::Uuid::new_v4`, as a 128-bit number. The value is random; the
/// crate sets the version and variant bits of every value it returns.
#[verifier::external_body]
fn uuid_new_v4() -> (value: u128)
    ensures
        is_v4(value),
{
    uuid::Uuid::new_v4().as_u128()
}

/// The `Display` text of `uuid::Uuid::from_u128(value)`: the hyphenated
/// lowercase form, 36 characters, which `Uuid::parse_str` reads back as the
/// same value.
#[verifier::external_body]
fn uuid_to_string(value: u128) -> (s: String)
    ensures
        s@ == uuid_text(value),
        s@.len() == 36,
        uuid_parse(s@) == Some(value),
{
    uuid::Uuid::from_u128(value).to_string()
}

/// `uuid::Uuid::parse_str`, as a 128-bit number.
#[verifier::external_body]
fn uuid_parse_str(s: &str) -> (r: Option<u128>)
    ensures
        r == uuid_parse(s@),
{
    match uuid::Uuid::parse_str(s) {
        Ok(u) => Some(u.as_u128()),
        Err(_) => None,
    }
}

/// A fresh random UUID in its hyphenated text form.
pub fn new_uuid_string() -> (s: String)
    ensures
        exists|v: u128| is_v4(v) && s@ == uuid_text(v),
        s@.len() == 36,
{
    let v = uuid_new_v4();
    uuid_to_string(v)
}

/// Identifies an independent vault. Each vault has its own encrypted
/// database, data-encryption key, sources and conversations.
#[derive(Debug, Clone, Copy, PartialEq, Eq, Hash, Structural)]
pub struct VaultId(pub u128);

impl VaultId {
    /// A fresh random id.
    pub fn new() -> (id: Self)
        ensures
            is_v4(id.0),
    {
        VaultId(uuid_new_v4())
    }

    /// Parse the stable string form; anything that is not a UUID is
    /// refused with an error that says no more than the id's kind.
    pub fn parse(s: &str) -> (r: Result<Self, AppError>)
        ensures
            match uuid_parse(s@) {
                Some(v) => r == Ok::<VaultId, AppError>(VaultId(v)),
                None => r matches Err(AppError::InvalidArgument(m)) && m@ == "invalid VaultId id"@,
            },
    {
        match uuid_parse_str(s) {
            Some(v) => Ok(VaultId(v)),
            None => Err(AppError::InvalidArgument("invalid VaultId id".to_owned())),
        }
    }

    /// The UUID as a 128-bit number.
    pub fn as_uuid(&self) -> (v: u128)
        ensures
            v == self.0,
    {
        self.0
    }

    /// The stable string form: the hyphenated lowercase UUID.
    pub fn to_string(&self) -> (s: String)
        ensures
            s@ == uuid_text(self.0),
            s@.len() == 36,
            uuid_parse(s@) == Some(self.0),
    {
        uuid_to_string(self.0)
    }
}

impl Default for VaultId {
    fn default() -> (id: Self)
        ensures
            is_v4(id.0),
    {
        VaultId::new()
    }
}

/// Identifies a single raw source file or manual entry inside a vault.
#[derive(Debug, Clone, Copy, PartialEq, Eq, Hash, Structural)]
pub struct SourceId(pub u128);

impl SourceId {
    /// A fresh random id.
    pub fn new() -> (id: Self)
        ensures
            is_v4(id.0),
    {
        SourceId(uuid_new_v4())
    }

    /// Parse the stable string form; anything that is not a UUID is
    /// refused with an error that says no more than the id's kind.
    pub fn parse(s: &str) -> (r: Result<Self, AppError>)
        ensures
            match uuid_parse(s@) {
                Some(v) => r == Ok::<SourceId, AppError>(SourceId(v)),
                None => r matches Err(AppError::InvalidArgument(m)) && m@ == "invalid SourceId id"@,
            },
    {
        match uuid_parse_str(s) {
            Some(v) => Ok(SourceId(v)),
            None => Err(AppError::InvalidArgument("invalid SourceId id".to_owned())),
        }
    }

    /// The UUID as a 128-bit number.
    pub fn as_uuid(&self) -> (v: u128)
        ensures
            v == self.0,
    {
        self.0
    }

    /// The stable string form: the hyphenated lowercase UUID.
    pub fn to_string(&self) -> (s: String)
        ensures
            s@ == uuid_text(self.0),
            s@.len() == 36,
            uuid_parse(s@) == Some(self.0),
    {
        uuid_to_string(self.0)
    }
}

impl Default for SourceId {
    fn default() -> (id: Self)
        ensures
            is_v4(id.0),
    {
        SourceId::new()
    }
}

/// Identifies a curated knowledge record.
#[derive(Debug, Clone, Copy, PartialEq, Eq, Hash, Structural)]
pub struct RecordId(pub u128);

impl RecordId {
    /// A fresh random id.
    pub fn new() -> (id: Self)
        ensures
            is_v4(id.0),
    {
        RecordId(uuid_new_v4())
    }

    /// Parse the stable string form; anything that is not a UUID is
    /// refused with an error that says no more than the id's kind.
    pub fn parse(s: &str) -> (r: Result<Self, AppError>)
        ensures
            match uuid_parse(s@) {
                Some(v) => r == Ok::<RecordId, AppError>(RecordId(v)),
                None => r matches Err(AppError::InvalidArgument(m)) && m@ == "invalid RecordId id"@,
            },
    {
        match uuid_parse_str(s) {
            Some(v) => Ok(RecordId(v)),
            None => Err(AppError::InvalidArgument("invalid RecordId id".to_owned())),
        }
    }

    /// The UUID as a 128-bit number.
    pub fn as_uuid(&self) -> (v: u128)
        ensures
            v == self.0,
    {
        self.0
    }

    /// The stable string form: the hyphenated lowercase UUID.
    pub fn to_string(&self) -> (s: String)
        ensures
            s@ == uuid_text(self.0),
            s@.len() == 36,
            uuid_parse(s@) == Some(self.0),
    {
        uuid_to_string(self.0)
    }
}

impl Default for RecordId {
    fn default() -> (id: Self)
        ensures
            is_v4(id.0),
    {
        RecordId::new()
    }
}

/// Identifies a conversation.
#[derive(Debug, Clone, Copy, PartialEq, Eq, Hash, Structural)]
pub struct ConversationId(pub u128);

impl ConversationId {
    /// A fresh random id.
    pub fn new() -> (id: Self)
        ensures
            is_v4(id.0),
    {
        ConversationId(uuid_new_v4())
    }

    /// Parse the stable string form; anything that is not a UUID is
    /// refused with an error that says no more than the id's kind.
    pub fn parse(s: &str) -> (r: Result<Self, AppError>)
        ensures
            match uuid_parse(s@) {
                Some(v) => r == Ok::<ConversationId, AppError>(ConversationId(v)),
                None => r matches Err(AppError::InvalidArgument(m)) && m@ == "invalid ConversationId id"@,
            },
    {
        match uuid_parse_str(s) {
            Some(v) => Ok(ConversationId(v)),
            None => Err(AppError::InvalidArgument("invalid ConversationId id".to_owned())),
        }
    }

    /// The UUID as a 128-bit number.
    pub fn as_uuid(&self) -> (v: u128)
        ensures
            v == self.0,
    {
        self.0
    }

    /// The stable string form: the hyphenated lowercase UUID.
    pub fn to_string(&self) -> (s: String)
        ensures
            s@ == uuid_text(self.0),
            s@.len() == 36,
            uuid_parse(s@) == Some(self.0),
    {
        uuid_to_string(self.0)
    }
}

impl Default for ConversationId {
    fn default() -> (id: Self)
        ensures
            is_v4(id.0),
    {
        ConversationId::new()
    }
}

/// Identifies a single message within a conversation.
#[derive(Debug, Clone, Copy, PartialEq, Eq, Hash, Structural)]
pub struct MessageId(pub u128);

impl MessageId {
    /// A fresh random id.
    pub fn new() -> (id: Self)
        ensures
            is_v4(id.0),
    {
        MessageId(uuid_new_v4())
    }

    /// Parse the stable string form; anything that is not a UUID is
    /// refused with an error that says no more than the id's kind.
    pub fn parse(s: &str) -> (r: Result<Self, AppError>)
        ensures
            match uuid_parse(s@) {
                Some(v) => r == Ok::<MessageId, AppError>(MessageId(v)),
                None => r matches Err(AppError::InvalidArgument(m)) && m@ == "invalid MessageId id"@,
            },
    {
        match uuid_parse_str(s) {
            Some(v) => Ok(MessageId(v)),
            None => Err(AppError::InvalidArgument("invalid MessageId id".to_owned())),
        }
    }

    /// The UUID as a 128-bit number.
    pub fn as_uuid(&self) -> (v: u128)
        ensures
            v == self.0,
    {
        self.0
    }

    /// The stable string form: the hyphenated lowercase UUID.
    pub fn to_string(&self) -> (s: String)
        ensures
            s@ == uuid_text(self.0),
            s@.len() == 36,
            uuid_parse(s@) == Some(self.0),
    {
        uuid_to_string(self.0)
    }
}

impl Default for MessageId {
    fn default() -> (id: Self)
        ensures
            is_v4(id.0),
    {
        MessageId::new()
    }
}

/// Identifies a memory candidate awaiting review.
#[derive(Debug, Clone, Copy, PartialEq, Eq, Hash, Structural)]
pub struct MemoryCandidateId(pub u128);

impl MemoryCandidateId {
    /// A fresh random id.
    pub fn new() -> (id: Self)
        ensures
            is_v4(id.0),
    {
        MemoryCandidateId(uuid_new_v4())
    }

    /// Parse the stable string form; anything that is not a UUID is
    /// refused with an error that says no more than the id's kind.
    pub fn parse(s: &str) -> (r: Result<Self, AppError>)
        ensures
            match uuid_parse(s@) {
                Some(v) => r == Ok::<MemoryCandidateId, AppError>(MemoryCandidateId(v)),
                None => r matches Err(AppError::InvalidArgument(m)) && m@ == "invalid MemoryCandidateId id"@,
            },
    {
        match uuid_parse_str(s) {
            Some(v) => Ok(MemoryCandidateId(v)),
            None => Err(AppError::InvalidArgument("invalid MemoryCandidateId id".to_owned())),
        }
    }

    /// The UUID as a 128-bit number.
    pub fn as_uuid(&self) -> (v: u128)
        ensures
            v == self.0,
    {
        self.0
    }

    /// The stable string form: the hyphenated lowercase UUID.
    pub fn to_string(&self) -> (s: String)
        ensures
            s@ == uuid_text(self.0),
            s@.len() == 36,
            uuid_parse(s@) == Some(self.0),
    {
        uuid_to_string(self.0)
    }
}

impl Default for MemoryCandidateId {
    fn default() -> (id: Self)
        ensures
            is_v4(id.0),
    {
        MemoryCandidateId::new()
    }
}

/// Identifies an audit event.
#[derive(Debug, Clone, Copy, PartialEq, Eq, Hash, Structural)]
pub struct AuditEventId(pub u128);

impl AuditEventId {
    /// A fresh random id.
    pub fn new() -> (id: Self)
        ensures
            is_v4(id.0),
    {
        AuditEventId(uuid_new_v4())
    }

    /// Parse the stable string form; anything that is not a UUID is
    /// refused with an error that says no more than the id's kind.
    pub fn parse(s: &str) -> (r: Result<Self, AppError>)
        ensures
            match uuid_parse(s@) {
                Some(v) => r == Ok::<AuditEventId, AppError>(AuditEventId(v)),
                None => r matches Err(AppError::InvalidArgument(m)) && m@ == "invalid AuditEventId id"@,
            },
    {
        match uuid_parse_str(s) {
            Some(v) => Ok(AuditEventId(v)),
            None => Err(AppError::InvalidArgument("invalid AuditEventId id".to_owned())),
        }
    }

    /// The UUID as a 128-bit number.
    pub fn as_uuid(&self) -> (v: u128)
        ensures
            v == self.0,
    {
        self.0
    }

    /// The stable string form: the hyphenated lowercase UUID.
    pub fn to_string(&self) -> (s: String)
        ensures
            s@ == uuid_text(self.0),
            s@.len() == 36,
            uuid_parse(s@) == Some(self.0),
    {
        uuid_to_string(self.0)
    }
}

impl Default for AuditEventId {
    fn default() -> (id: Self)
        ensures
            is_v4(id.0),
    {
        AuditEventId::new()
    }
}

} // verus!
