//! The ledger: accounts, stream registrations and access grants, the
//! commands that change them and the events that report the changes.

use vstd::prelude::*;
use crate::integration::StreamQualityMetrics;
use crate::string_map::{string_views, view_values, StringMap};
use crate::time::Timestamp;

pub mod engine;
pub mod laws;
pub mod model;

verus! {

/// Configuration of the ledger.
#[derive(Debug, Clone, PartialEq, Eq)]
pub struct BlockchainConfig {
    pub port: u16,
    pub is_validator: bool,
    pub data_dir: String,
}

/// Events emitted by the ledger.
#[derive(Debug, Clone, PartialEq, Eq)]
pub enum BlockchainEvent {
    /// A stream was registered.
    StreamRegistered { stream_id: String, creator: String },
    /// A viewer paid for access to a stream.
    PaymentProcessed { stream_id: String, viewer: String, amount: u64 },
    /// A viewer holds a grant that has not run out.
    AccessGranted { stream_id: String, viewer: String },
    /// A viewer holds no grant, or one that has run out.
    AccessRevoked { stream_id: String, viewer: String, reason: String },
    /// The block producer made a block.
    BlockProduced { block_number: u64, block_hash: String },
    /// The node caught up with, or fell behind, the chain.
    SyncStatusChanged { is_synced: bool, best_block: u64 },
}

/// Commands accepted by the ledger.
#[derive(Debug, Clone, PartialEq, Eq)]
pub enum BlockchainCommand {
    /// Register a stream under its creator.
    RegisterStream {
        stream_id: String,
        creator: String,
        title: String,
        description: Option<String>,
        price_per_minute: u64,
    },
    /// Pay a stream's creator for access.
    ProcessPayment { stream_id: String, viewer: String, amount: u64 },
    /// Ask whether a viewer may watch a stream.
    CheckAccess { stream_id: String, viewer: String },
    /// Note that a stream went live.
    RecordStreamStart { stream_id: String, timestamp: Timestamp },
    /// Note that a stream ended.
    RecordStreamEnd { stream_id: String, timestamp: Timestamp, duration_seconds: u64 },
    /// Report quality figures of a stream.
    ReportStreamQuality { stream_id: String, metrics: StreamQualityMetrics },
    /// Move value from one account to another.
    Transfer { from: String, to: String, amount: u64 },
}

/// Why the ledger did not apply a command.
#[derive(Debug, Clone, PartialEq, Eq)]
pub enum LedgerError {
    /// No stream is registered under this id.
    StreamNotFound { stream_id: String },
    /// No account exists under this address.
    AccountNotFound { address: String },
    /// The sender is unknown or holds less than the amount to be moved.
    InsufficientBalance,
    /// A stream cannot be registered at a price of zero per minute.
    ZeroPrice { stream_id: String },
}

impl LedgerError {
    /// Whether the error reports a stream or an account that does not exist.
    pub open spec fn spec_is_not_found(&self) -> bool {
        self is StreamNotFound || self is AccountNotFound
    }

    /// Whether the error reports a stream or an account that does not exist.
    #[verifier::when_used_as_spec(spec_is_not_found)]
    pub fn is_not_found(&self) -> (b: bool)
        ensures
            b == self.spec_is_not_found(),
    {
        match self {
            LedgerError::StreamNotFound { .. } => true,
            LedgerError::AccountNotFound { .. } => true,
            _ => false,
        }
    }

    /// The text of the error, as it is logged.
    pub open spec fn spec_message(&self) -> Seq<char> {
        match self {
            LedgerError::StreamNotFound { stream_id } => "Stream "@ + stream_id@ + " not found"@,
            LedgerError::AccountNotFound { address } => "Account "@ + address@ + " not found"@,
            LedgerError::InsufficientBalance => "Insufficient balance"@,
            LedgerError::ZeroPrice { stream_id } => "Stream "@ + stream_id@
                + " cannot be priced at zero"@,
        }
    }

    /// The text of the error, as it is logged.
    pub fn message(&self) -> (text: String)
        ensures
            text@ == self.spec_message(),
    {
        match self {
            LedgerError::StreamNotFound { stream_id } => {
                String::from_str("Stream ").concat(stream_id.as_str()).concat(" not found")
            },
            LedgerError::AccountNotFound { address } => {
                String::from_str("Account ").concat(address.as_str()).concat(" not found")
            },
            LedgerError::InsufficientBalance => String::from_str("Insufficient balance"),
            LedgerError::ZeroPrice { stream_id } => {
                String::from_str("Stream ").concat(stream_id.as_str()).concat(
                    " cannot be priced at zero",
                )
            },
        }
    }
}

/// A viewer's grant of access to one stream.
#[derive(Debug, Clone, PartialEq, Eq)]
pub struct StreamAccess {
    pub stream_id: String,
    /// Access is valid strictly before this instant.
    pub paid_until: Timestamp,
    /// Everything the viewer has paid for this stream.
    pub total_paid: u64,
    /// When the latest payment was made.
    pub access_granted_at: Timestamp,
}

/// The mathematical content of a [`StreamAccess`].
pub struct StreamAccessView {
    pub paid_until: int,
    pub total_paid: int,
    pub access_granted_at: int,
}

impl View for StreamAccess {
    type V = StreamAccessView;

    open spec fn view(&self) -> StreamAccessView {
        StreamAccessView {
            paid_until: self.paid_until@,
            total_paid: self.total_paid as int,
            access_granted_at: self.access_granted_at@,
        }
    }
}

/// An account: its balance, and what it has bought and created.
#[derive(Debug, Clone, PartialEq, Eq)]
pub struct Account {
    pub address: String,
    pub balance: u64,
    /// Counts the account's outgoing transfers and payments.
    pub nonce: u64,
    /// The account's grants, by stream id.
    pub stream_access: StringMap<StreamAccess>,
    /// The ids of the streams the account registered, oldest first.
    pub created_streams: Vec<String>,
}

/// The mathematical content of an [`Account`].
#[verifier::ext_equal]
pub struct AccountView {
    pub balance: int,
    pub nonce: int,
    pub stream_access: Map<Seq<char>, StreamAccessView>,
    pub created_streams: Seq<Seq<char>>,
}

impl View for Account {
    type V = AccountView;

    open spec fn view(&self) -> AccountView {
        AccountView {
            balance: self.balance as int,
            nonce: self.nonce as int,
            stream_access: view_values(self.stream_access@),
            created_streams: string_views(self.created_streams@),
        }
    }
}

impl Account {
    /// The grants are a well-formed map, and each is filed under the id of
    /// its own stream.
    pub open spec fn wf(&self) -> bool {
        &&& self.stream_access.wf()
        &&& forall|i: int|
            0 <= i < self.stream_access.key_seq().len()
                ==> (#[trigger] self.stream_access.value_seq()[i]).stream_id@
                == self.stream_access.key_seq()[i]
    }

    /// A fresh account: no value, no grants, no streams.
    pub fn new(address: String) -> (account: Account)
        ensures
            account.wf(),
            account.address == address,
            account@ == AccountView::empty(),
    {
        let account = Account {
            address,
            balance: 0,
            nonce: 0,
            stream_access: StringMap::new(),
            created_streams: Vec::new(),
        };
        account
    }

    /// Whether the account may watch `stream_id` at `now`.
    pub fn has_access(&self, stream_id: &String, now: Timestamp) -> (granted: bool)
        requires
            self.wf(),
        ensures
            granted == self@.has_access(stream_id@, now@),
    {
        match self.stream_access.get(stream_id) {
            Some(grant) => grant.paid_until.is_after(&now),
            None => false,
        }
    }

    /// Records a payment of `amount`, made at `now`, that buys access to
    /// `stream_id` until `until`. A grant that exists is extended.
    pub fn record_grant(&mut self, stream_id: String, amount: u64, until: Timestamp, now: Timestamp)
        requires
            old(self).wf(),
            old(self)@.stream_access.contains_key(stream_id@) ==> old(
                self,
            )@.stream_access[stream_id@].total_paid + amount <= u64::MAX,
        ensures
            final(self).wf(),
            final(self)@ == old(self)@.with_grant(stream_id@, amount as int, until@, now@),
            final(self).address == old(self).address,
            final(self).balance == old(self).balance,
            final(self).nonce == old(self).nonce,
    {
        match self.stream_access.position(&stream_id) {
            Some(i) => {
                {
                    let grant = self.stream_access.value_at_mut(i);
                    grant.paid_until = Timestamp::later_of(grant.paid_until, until);
                    grant.total_paid = grant.total_paid + amount;
                    grant.access_granted_at = now;
                }
            },
            None => {
                let grant = StreamAccess {
                    stream_id: stream_id.clone(),
                    paid_until: until,
                    total_paid: amount,
                    access_granted_at: now,
                };
                self.stream_access.push_new(stream_id, grant);
            },
        }
    }
}

/// A registered stream.
#[derive(Debug, Clone, PartialEq, Eq)]
pub struct StreamRegistration {
    pub stream_id: String,
    pub creator: String,
    pub title: String,
    pub description: Option<String>,
    /// Never zero in a well-formed ledger.
    pub price_per_minute: u64,
    pub created_at: Timestamp,
    pub is_active: bool,
    pub total_earnings: u64,
    pub total_viewers: u32,
    pub total_duration_minutes: u64,
}

/// The mathematical content of a [`StreamRegistration`].
pub struct StreamRegistrationView {
    pub creator: Seq<char>,
    pub title: Seq<char>,
    pub description: Option<Seq<char>>,
    pub price_per_minute: int,
    pub created_at: int,
    pub is_active: bool,
    pub total_earnings: int,
    pub total_viewers: int,
    pub total_duration_minutes: int,
}

impl View for StreamRegistration {
    type V = StreamRegistrationView;

    open spec fn view(&self) -> StreamRegistrationView {
        StreamRegistrationView {
            creator: self.creator@,
            title: self.title@,
            description: match self.description {
                Some(text) => Some(text@),
                None => None,
            },
            price_per_minute: self.price_per_minute as int,
            created_at: self.created_at@,
            is_active: self.is_active,
            total_earnings: self.total_earnings as int,
            total_viewers: self.total_viewers as int,
            total_duration_minutes: self.total_duration_minutes as int,
        }
    }
}

/// The kinds of transaction that a block can carry.
#[derive(Debug, Clone, PartialEq, Eq)]
pub enum Transaction {
    /// Move value between accounts.
    Transfer { from: String, to: String, amount: u64, nonce: u64, signature: String },
    /// Register a stream.
    RegisterStream { creator: String, stream_data: StreamRegistration, signature: String },
    /// Buy access to a stream.
    PurchaseAccess {
        viewer: String,
        stream_id: String,
        amount: u64,
        duration_minutes: u64,
        signature: String,
    },
    /// Report quality figures (validators only).
    ReportQuality {
        validator: String,
        stream_id: String,
        metrics: StreamQualityMetrics,
        signature: String,
    },
}

/// A block of the chain.
#[derive(Debug, Clone, PartialEq, Eq)]
pub struct Block {
    pub number: u64,
    pub parent_hash: String,
    pub hash: String,
    pub timestamp: Timestamp,
    pub transactions: Vec<Transaction>,
    pub state_root: String,
    pub validator: String,
    pub signature: String,
}

impl AccountView {
    /// The content of an account that was just created.
    pub open spec fn empty() -> AccountView {
        AccountView {
            balance: 0,
            nonce: 0,
            stream_access: Map::empty(),
            created_streams: Seq::empty(),
        }
    }
}

} // verus!
