//! The ledger as a mathematical object: what each command does to the
//! accounts, the streams and the chain height.

use vstd::prelude::*;
use super::{
    AccountView, BlockchainCommand, BlockchainEvent, LedgerError, StreamAccessView,
    StreamRegistrationView,
};
use crate::text::decimal;
use crate::time::minutes_after;

verus! {

/// The address of the account that holds the whole supply at the start.
pub open spec fn genesis_address() -> Seq<char> {
    "genesis"@
}

/// The supply that the genesis account starts with.
pub const GENESIS_SUPPLY: u64 = 1_000_000_000;

/// The view of an optional string.
pub open spec fn option_view(text: Option<String>) -> Option<Seq<char>> {
    match text {
        Some(t) => Some(t@),
        None => None,
    }
}

impl AccountView {
    /// The account after it paid `amount`: its nonce counts the payment.
    pub open spec fn debit(self, amount: int) -> AccountView {
        AccountView { balance: self.balance - amount, nonce: self.nonce + 1, ..self }
    }

    /// The account after it received `amount`.
    pub open spec fn credit(self, amount: int) -> AccountView {
        AccountView { balance: self.balance + amount, ..self }
    }

    /// The account after it registered the stream `stream_id`.
    pub open spec fn with_created(self, stream_id: Seq<char>) -> AccountView {
        AccountView { created_streams: self.created_streams.push(stream_id), ..self }
    }

    /// The grant for `stream_id` after a payment of `amount` made at `now`
    /// that buys access until `until`. An existing grant is extended: its
    /// end never moves back, and its total grows by the amount.
    pub open spec fn grant_after(self, stream_id: Seq<char>, amount: int, until: int, now: int)
        -> StreamAccessView {
        if self.stream_access.contains_key(stream_id) {
            let held = self.stream_access[stream_id];
            StreamAccessView {
                paid_until: if held.paid_until >= until {
                    held.paid_until
                } else {
                    until
                },
                total_paid: held.total_paid + amount,
                access_granted_at: now,
            }
        } else {
            StreamAccessView { paid_until: until, total_paid: amount, access_granted_at: now }
        }
    }

    /// The account after that payment.
    pub open spec fn with_grant(self, stream_id: Seq<char>, amount: int, until: int, now: int)
        -> AccountView {
        AccountView {
            stream_access: self.stream_access.insert(
                stream_id,
                self.grant_after(stream_id, amount, until, now),
            ),
            ..self
        }
    }

    /// Whether the account may watch `stream_id` at `now`: it holds a grant
    /// that ends strictly later.
    pub open spec fn has_access(self, stream_id: Seq<char>, now: int) -> bool {
        self.stream_access.contains_key(stream_id) && self.stream_access[stream_id].paid_until
            > now
    }

    /// Nothing is negative, and every grant is for a stream in `streams`.
    pub open spec fn valid_for(self, streams: Set<Seq<char>>) -> bool {
        &&& self.balance >= 0
        &&& self.nonce >= 0
        &&& forall|s: Seq<char>| #[trigger]
            self.stream_access.contains_key(s) ==> streams.contains(s)
                && self.stream_access[s].total_paid >= 0
    }
}

impl StreamRegistrationView {
    /// A stream as it is right after registration.
    pub open spec fn fresh(
        creator: Seq<char>,
        title: Seq<char>,
        description: Option<Seq<char>>,
        price_per_minute: int,
        now: int,
    ) -> StreamRegistrationView {
        StreamRegistrationView {
            creator,
            title,
            description,
            price_per_minute,
            created_at: now,
            is_active: false,
            total_earnings: 0,
            total_viewers: 0,
            total_duration_minutes: 0,
        }
    }

    /// The stream after it earned `amount`.
    pub open spec fn earn(self, amount: int) -> StreamRegistrationView {
        StreamRegistrationView { total_earnings: self.total_earnings + amount, ..self }
    }

    /// The stream, marked as live.
    pub open spec fn started(self) -> StreamRegistrationView {
        StreamRegistrationView { is_active: true, ..self }
    }
}

/// The mathematical content of the ledger.
#[verifier::ext_equal]
pub struct LedgerView {
    /// The accounts, by address.
    pub accounts: Map<Seq<char>, AccountView>,
    /// The registered streams, by id.
    pub streams: Map<Seq<char>, StreamRegistrationView>,
    /// The number of the newest block.
    pub best_block: int,
    /// The number of the newest block that is final.
    pub finalized_block: int,
}

/// The accounts after `amount` moved from `from` to `to`. The receiving
/// account is created if it does not exist.
pub open spec fn move_value(
    accounts: Map<Seq<char>, AccountView>,
    from: Seq<char>,
    to: Seq<char>,
    amount: int,
) -> Map<Seq<char>, AccountView> {
    let debited = accounts.insert(from, accounts[from].debit(amount));
    let receiver = if debited.contains_key(to) {
        debited[to]
    } else {
        AccountView::empty()
    };
    debited.insert(to, receiver.credit(amount))
}

impl LedgerView {
    /// The ledger before any command: the genesis account holds the supply.
    pub open spec fn genesis() -> LedgerView {
        LedgerView {
            accounts: Map::<Seq<char>, AccountView>::empty().insert(
                genesis_address(),
                AccountView::empty().credit(GENESIS_SUPPLY as int),
            ),
            streams: Map::empty(),
            best_block: 0,
            finalized_block: 0,
        }
    }

    /// The account at `address`, or a fresh one if there is none.
    pub open spec fn account(self, address: Seq<char>) -> AccountView {
        if self.accounts.contains_key(address) {
            self.accounts[address]
        } else {
            AccountView::empty()
        }
    }

    /// What holds of every ledger that commands can produce: no balance is
    /// negative, every grant refers to a registered stream, every stream has
    /// a price, and finality does not run ahead of the tip.
    pub open spec fn valid(self) -> bool {
        &&& 0 <= self.finalized_block <= self.best_block
        &&& forall|a: Seq<char>| #[trigger]
            self.accounts.contains_key(a) ==> self.accounts[a].valid_for(self.streams.dom())
        &&& forall|s: Seq<char>| #[trigger]
            self.streams.contains_key(s) ==> self.streams[s].price_per_minute > 0
                && self.streams[s].total_earnings >= 0
    }

    /// Whether a registration takes effect: the id is new and the price is
    /// not zero.
    pub open spec fn registration_accepted(self, stream_id: Seq<char>, price_per_minute: int)
        -> bool {
        !self.streams.contains_key(stream_id) && price_per_minute > 0
    }

    /// The ledger after a `RegisterStream` command.
    pub open spec fn register_stream(
        self,
        stream_id: Seq<char>,
        creator: Seq<char>,
        title: Seq<char>,
        description: Option<Seq<char>>,
        price_per_minute: int,
        now: int,
    ) -> LedgerView {
        if self.registration_accepted(stream_id, price_per_minute) {
            LedgerView {
                streams: self.streams.insert(
                    stream_id,
                    StreamRegistrationView::fresh(
                        creator,
                        title,
                        description,
                        price_per_minute,
                        now,
                    ),
                ),
                accounts: self.accounts.insert(
                    creator,
                    self.account(creator).with_created(stream_id),
                ),
                ..self
            }
        } else {
            self
        }
    }

    /// Whether a payment takes effect: the stream and the viewer exist and
    /// the viewer can afford the amount.
    pub open spec fn payment_accepted(self, stream_id: Seq<char>, viewer: Seq<char>, amount: int)
        -> bool {
        &&& self.streams.contains_key(stream_id)
        &&& self.accounts.contains_key(viewer)
        &&& self.accounts[viewer].balance >= amount
    }

    /// The instant until which a payment of `amount` made at `now` buys
    /// access to `stream_id`: one minute for each whole price paid.
    pub open spec fn paid_window_end(self, stream_id: Seq<char>, amount: int, now: int) -> int {
        minutes_after(now, amount / self.streams[stream_id].price_per_minute)
    }

    /// The ledger after a `ProcessPayment` command. A payment that is not
    /// accepted changes nothing.
    pub open spec fn process_payment(
        self,
        stream_id: Seq<char>,
        viewer: Seq<char>,
        amount: int,
        now: int,
    ) -> LedgerView {
        if self.payment_accepted(stream_id, viewer, amount) {
            let stream = self.streams[stream_id];
            let moved = move_value(self.accounts, viewer, stream.creator, amount);
            let until = self.paid_window_end(stream_id, amount, now);
            LedgerView {
                accounts: moved.insert(
                    viewer,
                    moved[viewer].with_grant(stream_id, amount, until, now),
                ),
                streams: self.streams.insert(stream_id, stream.earn(amount)),
                ..self
            }
        } else {
            self
        }
    }

    /// Whether `viewer` may watch `stream_id` at `now`.
    pub open spec fn has_access(self, stream_id: Seq<char>, viewer: Seq<char>, now: int) -> bool {
        self.accounts.contains_key(viewer) && self.accounts[viewer].has_access(stream_id, now)
    }

    /// The ledger after a `RecordStreamStart` command.
    pub open spec fn record_stream_start(self, stream_id: Seq<char>) -> LedgerView {
        if self.streams.contains_key(stream_id) {
            LedgerView {
                streams: self.streams.insert(stream_id, self.streams[stream_id].started()),
                ..self
            }
        } else {
            self
        }
    }

    /// Whether a transfer takes effect: the sender exists and can afford it.
    pub open spec fn transfer_accepted(self, from: Seq<char>, amount: int) -> bool {
        self.accounts.contains_key(from) && self.accounts[from].balance >= amount
    }

    /// The ledger after a `Transfer` command.
    pub open spec fn transfer(self, from: Seq<char>, to: Seq<char>, amount: int) -> LedgerView {
        if self.transfer_accepted(from, amount) {
            LedgerView { accounts: move_value(self.accounts, from, to, amount), ..self }
        } else {
            self
        }
    }

    /// The ledger after block `block_number` was produced: it is the tip, and
    /// finality trails it by one block.
    pub open spec fn produce_block(self, block_number: int) -> LedgerView {
        LedgerView {
            best_block: block_number,
            finalized_block: if block_number >= 1 {
                block_number - 1
            } else {
                0
            },
            ..self
        }
    }

    /// The ledger after `command`, handled at `now`.
    pub open spec fn apply(self, command: BlockchainCommand, now: int) -> LedgerView {
        match command {
            BlockchainCommand::RegisterStream {
                stream_id,
                creator,
                title,
                description,
                price_per_minute,
            } => self.register_stream(
                stream_id@,
                creator@,
                title@,
                option_view(description),
                price_per_minute as int,
                now,
            ),
            BlockchainCommand::ProcessPayment { stream_id, viewer, amount } => self.process_payment(
                stream_id@,
                viewer@,
                amount as int,
                now,
            ),
            BlockchainCommand::CheckAccess { .. } => self,
            BlockchainCommand::RecordStreamStart { stream_id, .. } => self.record_stream_start(
                stream_id@,
            ),
            BlockchainCommand::RecordStreamEnd { .. } => self,
            BlockchainCommand::ReportStreamQuality { .. } => self,
            BlockchainCommand::Transfer { from, to, amount } => self.transfer(
                from@,
                to@,
                amount as int,
            ),
        }
    }

    /// The ledger after each of `commands` in turn, each handled at the
    /// instant that comes with it.
    pub open spec fn apply_all(self, commands: Seq<(BlockchainCommand, int)>) -> LedgerView
        decreases commands.len(),
    {
        if commands.len() == 0 {
            self
        } else {
            self.apply_all(commands.drop_last()).apply(commands.last().0, commands.last().1)
        }
    }

    /// The ledger after `ticks` blocks were produced, numbered from 1.
    pub open spec fn after_ticks(self, ticks: nat) -> LedgerView
        decreases ticks,
    {
        if ticks == 0 {
            self
        } else {
            self.after_ticks((ticks - 1) as nat).produce_block(ticks as int)
        }
    }
}

} // verus!

verus! {

impl LedgerView {
    /// Whether a payment stays within what the ledger's counters can hold:
    /// the viewer's nonce, the stream's earnings, the grant's total and the
    /// end of the paid window. A payment that is not accepted always does.
    pub open spec fn payment_fits(self, stream_id: Seq<char>, viewer: Seq<char>, amount: int, now: int)
        -> bool {
        self.payment_accepted(stream_id, viewer, amount) ==> {
            &&& self.accounts[viewer].nonce < u64::MAX
            &&& self.streams[stream_id].total_earnings + amount <= u64::MAX
            &&& self.paid_window_end(stream_id, amount, now) <= i64::MAX
            &&& self.accounts[viewer].stream_access.contains_key(stream_id)
                ==> self.accounts[viewer].stream_access[stream_id].total_paid + amount
                <= u64::MAX
        }
    }

    /// Whether a transfer stays within what the sender's nonce can hold. A
    /// transfer that is not accepted always does.
    pub open spec fn transfer_fits(self, from: Seq<char>, amount: int) -> bool {
        self.transfer_accepted(from, amount) ==> self.accounts[from].nonce < u64::MAX
    }

    /// Whether `command`, handled at `now`, stays within what the ledger's
    /// counters can hold.
    pub open spec fn command_fits(self, command: BlockchainCommand, now: int) -> bool {
        match command {
            BlockchainCommand::ProcessPayment { stream_id, viewer, amount } => self.payment_fits(
                stream_id@,
                viewer@,
                amount as int,
                now,
            ),
            BlockchainCommand::Transfer { from, to, amount } => self.transfer_fits(
                from@,
                amount as int,
            ),
            _ => true,
        }
    }
}

} // verus!

verus! {

/// The label under which block `block_number` is announced.
pub open spec fn block_label(block_number: nat) -> Seq<char> {
    "block_"@ + decimal(block_number)
}

/// The reason given when access is refused.
pub open spec fn payment_required() -> Seq<char> {
    "payment required"@
}

/// Whether `event` reports that `viewer` may (`granted`) or may not watch
/// `stream_id`.
pub open spec fn reports_access(
    event: BlockchainEvent,
    stream_id: String,
    viewer: String,
    granted: bool,
) -> bool {
    if granted {
        event == (BlockchainEvent::AccessGranted { stream_id, viewer })
    } else {
        &&& event matches BlockchainEvent::AccessRevoked { stream_id: s, viewer: v, reason }
        &&& s == stream_id
        &&& v == viewer
        &&& reason@ == payment_required()
    }
}

/// Whether `event` announces block `block_number` under its label.
pub open spec fn announces_block(event: BlockchainEvent, block_number: int) -> bool {
    &&& event matches BlockchainEvent::BlockProduced { block_number: n, block_hash }
    &&& n == block_number
    &&& block_hash@ == block_label(block_number as nat)
}

/// The outcome of a command that succeeds without an event.
pub open spec fn without_event(outcome: Result<(), LedgerError>) -> Result<
    Option<BlockchainEvent>,
    LedgerError,
> {
    match outcome {
        Ok(()) => Ok(None),
        Err(e) => Err(e),
    }
}

impl LedgerView {
    /// What a `RegisterStream` command returns: nothing if the id is taken,
    /// an error if the price is zero, else the event that reports the new
    /// stream.
    pub open spec fn registration_outcome(self, stream_id: String, creator: String, price_per_minute: u64)
        -> Result<Option<BlockchainEvent>, LedgerError> {
        if self.streams.contains_key(stream_id@) {
            Ok(None)
        } else if price_per_minute == 0 {
            Err(LedgerError::ZeroPrice { stream_id })
        } else {
            Ok(Some(BlockchainEvent::StreamRegistered { stream_id, creator }))
        }
    }

    /// What a `ProcessPayment` command returns: an error if the stream or the
    /// viewer is unknown, nothing if the viewer cannot afford the amount,
    /// else the event that reports the payment.
    pub open spec fn payment_outcome(self, stream_id: String, viewer: String, amount: u64) -> Result<
        Option<BlockchainEvent>,
        LedgerError,
    > {
        if !self.streams.contains_key(stream_id@) {
            Err(LedgerError::StreamNotFound { stream_id })
        } else if !self.accounts.contains_key(viewer@) {
            Err(LedgerError::AccountNotFound { address: viewer })
        } else if self.accounts[viewer@].balance < amount {
            Ok(None)
        } else {
            Ok(Some(BlockchainEvent::PaymentProcessed { stream_id, viewer, amount }))
        }
    }

    /// What a `Transfer` command returns: an error if the sender is unknown
    /// or cannot afford the amount.
    pub open spec fn transfer_outcome(self, from: Seq<char>, amount: int) -> Result<(), LedgerError> {
        if self.transfer_accepted(from, amount) {
            Ok(())
        } else {
            Err(LedgerError::InsufficientBalance)
        }
    }

    /// Whether `outcome` is what handling `command` at `now` returns.
    pub open spec fn answers(
        self,
        command: BlockchainCommand,
        now: int,
        outcome: Result<Option<BlockchainEvent>, LedgerError>,
    ) -> bool {
        match command {
            BlockchainCommand::RegisterStream { stream_id, creator, price_per_minute, .. } => outcome
                == self.registration_outcome(stream_id, creator, price_per_minute),
            BlockchainCommand::ProcessPayment { stream_id, viewer, amount } => outcome
                == self.payment_outcome(stream_id, viewer, amount),
            BlockchainCommand::CheckAccess { stream_id, viewer } => {
                &&& outcome matches Ok(Some(event))
                &&& reports_access(
                    event,
                    stream_id,
                    viewer,
                    self.has_access(stream_id@, viewer@, now),
                )
            },
            BlockchainCommand::Transfer { from, to, amount } => outcome == without_event(
                self.transfer_outcome(from@, amount as int),
            ),
            _ => outcome == Ok::<Option<BlockchainEvent>, LedgerError>(None),
        }
    }
}

} // verus!
