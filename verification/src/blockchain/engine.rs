//! The ledger's engine: it owns the state and applies one command at a time.

use vstd::prelude::*;
use super::model::{
    announces_block, move_value, option_view, reports_access, LedgerView, GENESIS_SUPPLY,
};
use super::{
    Account, BlockchainCommand, BlockchainConfig, BlockchainEvent, LedgerError,
    StreamRegistration, Transaction,
};
use crate::integration::StreamQualityMetrics;
use crate::string_map::{lemma_view_values_insert, view_values, StringMap};
use crate::text::decimal_string;
use crate::time::{current_time, Timestamp};

verus! {

/// Everything the ledger records.
#[derive(Debug, Clone, PartialEq, Eq)]
pub struct BlockchainState {
    /// The accounts, by address.
    pub accounts: StringMap<Account>,
    /// The registered streams, by id.
    pub streams: StringMap<StreamRegistration>,
    /// The number of the newest block.
    pub best_block: u64,
    /// The number of the newest block that is final.
    pub finalized_block: u64,
    pub chain_id: String,
    /// Transactions waiting for a block.
    pub pending_transactions: Vec<Transaction>,
}

impl View for BlockchainState {
    type V = LedgerView;

    open spec fn view(&self) -> LedgerView {
        LedgerView {
            accounts: view_values(self.accounts@),
            streams: view_values(self.streams@),
            best_block: self.best_block as int,
            finalized_block: self.finalized_block as int,
        }
    }
}

/// The sum of the balances of `accounts`.
pub open spec fn total_balance(accounts: Seq<Account>) -> int
    decreases accounts.len(),
{
    if accounts.len() == 0 {
        0
    } else {
        total_balance(accounts.drop_last()) + accounts.last().balance
    }
}

/// A total of balances is never negative.
pub proof fn lemma_total_not_negative(accounts: Seq<Account>)
    ensures
        total_balance(accounts) >= 0,
    decreases accounts.len(),
{
    if accounts.len() > 0 {
        lemma_total_not_negative(accounts.drop_last());
    }
}

/// No account holds more than all accounts together.
pub proof fn lemma_balance_within_total(accounts: Seq<Account>, i: int)
    requires
        0 <= i < accounts.len(),
    ensures
        accounts[i].balance <= total_balance(accounts),
    decreases accounts.len(),
{
    lemma_total_not_negative(accounts.drop_last());
    if i < accounts.len() - 1 {
        lemma_balance_within_total(accounts.drop_last(), i);
    }
}

/// Replacing one account changes the total by the difference of the two
/// balances.
pub proof fn lemma_total_after_update(accounts: Seq<Account>, i: int, account: Account)
    requires
        0 <= i < accounts.len(),
    ensures
        total_balance(accounts.update(i, account)) == total_balance(accounts) - accounts[i].balance
            + account.balance,
    decreases accounts.len(),
{
    let after = accounts.update(i, account);
    if i == accounts.len() - 1 {
        assert(after.drop_last() =~= accounts.drop_last());
    } else {
        assert(after.drop_last() =~= accounts.drop_last().update(i, account));
        lemma_total_after_update(accounts.drop_last(), i, account);
    }
}

/// Appending an account adds its balance to the total.
pub proof fn lemma_total_after_push(accounts: Seq<Account>, account: Account)
    ensures
        total_balance(accounts.push(account)) == total_balance(accounts) + account.balance,
{
    assert(accounts.push(account).drop_last() =~= accounts);
}

impl BlockchainState {
    /// The sum of all balances.
    pub open spec fn total_supply(&self) -> int {
        total_balance(self.accounts.value_seq())
    }

    /// The two maps are well formed and every record is filed under its own
    /// key.
    pub open spec fn filed_by_key(&self) -> bool {
        &&& self.accounts.wf()
        &&& self.streams.wf()
        &&& forall|i: int|
            0 <= i < self.accounts.key_seq().len() ==> {
                let account = #[trigger] self.accounts.value_seq()[i];
                account.wf() && account.address@ == self.accounts.key_seq()[i]
            }
        &&& forall|i: int|
            0 <= i < self.streams.key_seq().len() ==> (#[trigger] self.streams.value_seq()[
                i
            ]).stream_id@ == self.streams.key_seq()[i]
    }

    /// The state is well formed: records are filed by key, the supply fits
    /// in 64 bits, and the ledger it stands for is valid.
    pub open spec fn wf(&self) -> bool {
        &&& self.filed_by_key()
        &&& self.total_supply() <= u64::MAX
        &&& self@.valid()
    }

    /// The state before any command: the genesis account holds the supply.
    pub fn new() -> (state: BlockchainState)
        ensures
            state.wf(),
            state@ == LedgerView::genesis(),
            state.total_supply() == GENESIS_SUPPLY,
            state.chain_id@ == "sutantra-testnet"@,
            state.pending_transactions@.len() == 0,
    {
        let mut genesis = Account::new(String::from_str("genesis"));
        genesis.balance = GENESIS_SUPPLY;
        let mut accounts: StringMap<Account> = StringMap::new();
        accounts.push_new(String::from_str("genesis"), genesis);
        let state = BlockchainState {
            accounts,
            streams: StringMap::new(),
            best_block: 0,
            finalized_block: 0,
            chain_id: String::from_str("sutantra-testnet"),
            pending_transactions: Vec::new(),
        };
        proof {
            lemma_total_after_push(Seq::empty(), genesis);
        }
        state
    }

    /// Moves `amount` from the account at position `from` to the account at
    /// address `to`, which is created if it does not exist. The sender's
    /// nonce counts the move.
    fn move_funds(&mut self, from: usize, to: &String, amount: u64)
        requires
            old(self).filed_by_key(),
            old(self).total_supply() <= u64::MAX,
            from < old(self).accounts.key_seq().len(),
            old(self).accounts.value_seq()[from as int].balance >= amount,
            old(self).accounts.value_seq()[from as int].nonce < u64::MAX,
        ensures
            final(self).filed_by_key(),
            final(self).total_supply() == old(self).total_supply(),
            view_values(final(self).accounts@) == move_value(
                view_values(old(self).accounts@),
                old(self).accounts.key_seq()[from as int],
                to@,
                amount as int,
            ),
            final(self).accounts.key_seq().len() >= old(self).accounts.key_seq().len(),
            forall|i: int|
                0 <= i < old(self).accounts.key_seq().len() ==> final(self).accounts.key_seq()[i]
                    == old(self).accounts.key_seq()[i],
            final(self).streams == old(self).streams,
            final(self).best_block == old(self).best_block,
            final(self).finalized_block == old(self).finalized_block,
            final(self).chain_id == old(self).chain_id,
            final(self).pending_transactions == old(self).pending_transactions,
    {
        let ghost before = *self;
        {
            let sender = self.accounts.value_at_mut(from);
            sender.balance = sender.balance - amount;
            sender.nonce = sender.nonce + 1;
        }
        let ghost debited = *self;
        proof {
            let sender = debited.accounts.value_seq()[from as int];
            lemma_total_after_update(before.accounts.value_seq(), from as int, sender);
        }
        match self.accounts.position(to) {
            Some(j) => {
                proof {
                    lemma_balance_within_total(debited.accounts.value_seq(), j as int);
                }
                {
                    let receiver = self.accounts.value_at_mut(j);
                    receiver.balance = receiver.balance + amount;
                }
                proof {
                    let receiver = self.accounts.value_seq()[j as int];
                    lemma_total_after_update(debited.accounts.value_seq(), j as int, receiver);
                }
            },
            None => {
                let mut receiver = Account::new(to.clone());
                receiver.balance = amount;
                proof {
                    lemma_total_after_push(debited.accounts.value_seq(), receiver);
                }
                self.accounts.push_new(to.clone(), receiver);
            },
        }
    }
}

/// The time between two blocks, in seconds.
pub const BLOCK_INTERVAL_SECONDS: u64 = 6;

/// The ledger's engine: its configuration, its state, and the number of the
/// block it produced last.
#[derive(Debug, Clone, PartialEq, Eq)]
pub struct BlockchainEngine {
    pub config: BlockchainConfig,
    pub state: BlockchainState,
    /// Whether this node produces blocks.
    pub is_validator: bool,
    /// The number of the block produced last; 0 before the first.
    pub current_block: u64,
}

impl View for BlockchainEngine {
    type V = LedgerView;

    open spec fn view(&self) -> LedgerView {
        self.state@
    }
}

impl BlockchainEngine {
    /// The state is well formed, and the engine's block counter agrees with
    /// the tip it recorded.
    pub open spec fn wf(&self) -> bool {
        &&& self.state.wf()
        &&& self.current_block == self.state.best_block
    }

    /// Whether `after` differs from `self` in nothing but the state.
    pub open spec fn same_setup(&self, after: &BlockchainEngine) -> bool {
        &&& after.config == self.config
        &&& after.is_validator == self.is_validator
        &&& after.current_block == self.current_block
        &&& after.state.chain_id == self.state.chain_id
        &&& after.state.pending_transactions == self.state.pending_transactions
    }

    /// An engine over the genesis state.
    pub fn new(config: BlockchainConfig) -> (engine: BlockchainEngine)
        ensures
            engine.wf(),
            engine@ == LedgerView::genesis(),
            engine.state.total_supply() == GENESIS_SUPPLY,
            engine.config == config,
            engine.is_validator == config.is_validator,
            engine.current_block == 0,
            engine.state.chain_id@ == "sutantra-testnet"@,
            engine.state.pending_transactions@.len() == 0,
    {
        let is_validator = config.is_validator;
        BlockchainEngine { config, state: BlockchainState::new(), is_validator, current_block: 0 }
    }

    /// The tip, the final block and the number of waiting transactions.
    pub fn get_status(&self) -> (status: (u64, u64, u32))
        ensures
            status.0 == self@.best_block,
            status.1 == self@.finalized_block,
            status.2 == (self.state.pending_transactions@.len() as u32),
    {
        (
            self.state.best_block,
            self.state.finalized_block,
            #[verifier::truncate]
            (self.state.pending_transactions.len() as u32),
        )
    }

    /// Handles `RecordStreamStart`: marks the stream as live. An unknown
    /// stream is ignored.
    pub fn record_stream_start(&mut self, stream_id: String, timestamp: Timestamp)
        requires
            old(self).wf(),
        ensures
            final(self).wf(),
            final(self)@ == old(self)@.record_stream_start(stream_id@),
            !old(self)@.streams.contains_key(stream_id@) ==> *final(self) == *old(self),
            final(self).state.total_supply() == old(self).state.total_supply(),
            old(self).same_setup(final(self)),
    {
        let ghost before = *self;
        match self.state.streams.position(&stream_id) {
            Some(i) => {
                {
                    let stream = self.state.streams.value_at_mut(i);
                    stream.is_active = true;
                }
                proof {
                    let stream = self.state.streams.value_seq()[i as int];
                    before.state.streams.lemma_update(&self.state.streams, i as int);
                    lemma_view_values_insert(before.state.streams@, stream_id@, stream);
                }
            },
            None => {},
        }
    }

    /// Handles `ReportStreamQuality`: the figures are accepted and dropped.
    pub fn record_stream_quality(&self, stream_id: String, metrics: StreamQualityMetrics) {
    }

    /// Handles `CheckAccess`: reports whether `viewer` holds a grant for
    /// `stream_id` that ends strictly after `now`.
    pub fn check_access(&self, stream_id: String, viewer: String, now: Timestamp) -> (event:
        BlockchainEvent)
        requires
            self.wf(),
        ensures
            reports_access(event, stream_id, viewer, self@.has_access(stream_id@, viewer@, now@)),
    {
        let has_access = match self.state.accounts.position(&viewer) {
            Some(i) => {
                self.state.accounts.value_at(i).has_access(&stream_id, now)
            },
            None => false,
        };
        if has_access {
            BlockchainEvent::AccessGranted { stream_id, viewer }
        } else {
            BlockchainEvent::AccessRevoked {
                stream_id,
                viewer,
                reason: String::from_str("payment required"),
            }
        }
    }

    /// Handles `Transfer`: moves `amount` from `from` to `to`, creating the
    /// receiving account if need be. Fails, and changes nothing, if the
    /// sender is unknown or cannot afford the amount.
    pub fn transfer_tokens(&mut self, from: String, to: String, amount: u64) -> (outcome: Result<
        (),
        LedgerError,
    >)
        requires
            old(self).wf(),
            old(self)@.transfer_fits(from@, amount as int),
        ensures
            final(self).wf(),
            final(self)@ == old(self)@.transfer(from@, to@, amount as int),
            outcome == old(self)@.transfer_outcome(from@, amount as int),
            !old(self)@.transfer_accepted(from@, amount as int) ==> *final(self) == *old(self),
            final(self).state.total_supply() == old(self).state.total_supply(),
            old(self).same_setup(final(self)),
    {
        let sender = match self.state.accounts.position(&from) {
            Some(i) => i,
            None => {
                return Err(LedgerError::InsufficientBalance);
            },
        };
        if self.state.accounts.value_at(sender).balance < amount {
            return Err(LedgerError::InsufficientBalance);
        }
        self.state.move_funds(sender, &to, amount);
        Ok(())
    }

    /// Handles `RegisterStream`. A stream whose id is taken is left as it
    /// is; a price of zero is refused. Otherwise the stream is recorded and
    /// listed among its creator's streams, and the creator's account is
    /// created if need be.
    pub fn register_stream(
        &mut self,
        stream_id: String,
        creator: String,
        title: String,
        description: Option<String>,
        price_per_minute: u64,
        now: Timestamp,
    ) -> (outcome: Result<Option<BlockchainEvent>, LedgerError>)
        requires
            old(self).wf(),
        ensures
            final(self).wf(),
            final(self)@ == old(self)@.register_stream(
                stream_id@,
                creator@,
                title@,
                option_view(description),
                price_per_minute as int,
                now@,
            ),
            outcome == old(self)@.registration_outcome(stream_id, creator, price_per_minute),
            !old(self)@.registration_accepted(stream_id@, price_per_minute as int) ==> *final(self)
                == *old(self),
            final(self).state.total_supply() == old(self).state.total_supply(),
            old(self).same_setup(final(self)),
    {
        let ghost before = *self;
        if self.state.streams.contains_key(&stream_id) {
            return Ok(None);
        }
        if price_per_minute == 0 {
            return Err(LedgerError::ZeroPrice { stream_id });
        }
        let registration = StreamRegistration {
            stream_id: stream_id.clone(),
            creator: creator.clone(),
            title,
            description,
            price_per_minute,
            created_at: now,
            is_active: false,
            total_earnings: 0,
            total_viewers: 0,
            total_duration_minutes: 0,
        };
        self.state.streams.push_new(stream_id.clone(), registration);
        match self.state.accounts.position(&creator) {
            Some(i) => {
                {
                    let account = self.state.accounts.value_at_mut(i);
                    account.created_streams.push(stream_id.clone());
                }
                proof {
                    let account = self.state.accounts.value_seq()[i as int];
                    lemma_total_after_update(before.state.accounts.value_seq(), i as int, account);
                }
            },
            None => {
                let mut account = Account::new(creator.clone());
                account.created_streams.push(stream_id.clone());
                proof {
                    lemma_total_after_push(before.state.accounts.value_seq(), account);
                }
                self.state.accounts.push_new(creator.clone(), account);
            },
        }
        proof {
            assert(self@ =~~= before@.register_stream(
                stream_id@,
                creator@,
                title@,
                option_view(description),
                price_per_minute as int,
                now@,
            ));
        }
        Ok(Some(BlockchainEvent::StreamRegistered { stream_id, creator }))
    }

    /// Handles `ProcessPayment`. Fails if the stream or the viewer is
    /// unknown. A viewer who cannot afford the amount pays nothing and gets
    /// nothing. Otherwise the amount moves from the viewer to the stream's
    /// creator, the viewer's grant is created or extended by one minute for
    /// each whole price paid, and the stream's earnings grow by the amount.
    pub fn process_payment(&mut self, stream_id: String, viewer: String, amount: u64, now: Timestamp)
        -> (outcome: Result<Option<BlockchainEvent>, LedgerError>)
        requires
            old(self).wf(),
            old(self)@.payment_fits(stream_id@, viewer@, amount as int, now@),
        ensures
            final(self).wf(),
            final(self)@ == old(self)@.process_payment(stream_id@, viewer@, amount as int, now@),
            outcome == old(self)@.payment_outcome(stream_id, viewer, amount),
            !old(self)@.payment_accepted(stream_id@, viewer@, amount as int) ==> *final(self)
                == *old(self),
            final(self).state.total_supply() == old(self).state.total_supply(),
            old(self).same_setup(final(self)),
    {
        let stream_at = match self.state.streams.position(&stream_id) {
            Some(i) => i,
            None => {
                return Err(LedgerError::StreamNotFound { stream_id });
            },
        };
        let creator = self.state.streams.value_at(stream_at).creator.clone();
        let price_per_minute = self.state.streams.value_at(stream_at).price_per_minute;
        let viewer_at = match self.state.accounts.position(&viewer) {
            Some(i) => i,
            None => {
                return Err(LedgerError::AccountNotFound { address: viewer });
            },
        };
        if self.state.accounts.value_at(viewer_at).balance < amount {
            return Ok(None);
        }
        self.state.move_funds(viewer_at, &creator, amount);
        let ghost moved = *self;
        let until = now.plus_minutes(amount / price_per_minute);
        {
            let account = self.state.accounts.value_at_mut(viewer_at);
            account.record_grant(stream_id.clone(), amount, until, now);
        }
        let ghost granted = *self;
        proof {
            let account = granted.state.accounts.value_seq()[viewer_at as int];
            moved.state.accounts.lemma_update(&granted.state.accounts, viewer_at as int);
            lemma_total_after_update(moved.state.accounts.value_seq(), viewer_at as int, account);
            lemma_view_values_insert(moved.state.accounts@, viewer@, account);
        }
        {
            let stream = self.state.streams.value_at_mut(stream_at);
            stream.total_earnings = stream.total_earnings + amount;
        }
        Ok(Some(BlockchainEvent::PaymentProcessed { stream_id, viewer, amount }))
    }

    /// Whether a payment stays within what the ledger's counters can hold.
    pub fn payment_within_limits(
        &self,
        stream_id: &String,
        viewer: &String,
        amount: u64,
        now: Timestamp,
    ) -> (fits: bool)
        requires
            self.wf(),
        ensures
            fits == self@.payment_fits(stream_id@, viewer@, amount as int, now@),
    {
        let stream = match self.state.streams.get(stream_id) {
            Some(stream) => stream,
            None => {
                return true;
            },
        };
        let account = match self.state.accounts.position(viewer) {
            Some(i) => self.state.accounts.value_at(i),
            None => {
                return true;
            },
        };
        if account.balance < amount {
            return true;
        }
        assert(self@.streams.contains_key(stream_id@));
        if account.nonce == u64::MAX {
            return false;
        }
        if stream.total_earnings > u64::MAX - amount {
            return false;
        }
        if !now.can_add_minutes(amount / stream.price_per_minute) {
            return false;
        }
        match account.stream_access.get(stream_id) {
            Some(grant) => grant.total_paid <= u64::MAX - amount,
            None => true,
        }
    }

    /// Whether a transfer stays within what the sender's nonce can hold.
    pub fn transfer_within_limits(&self, from: &String, amount: u64) -> (fits: bool)
        requires
            self.wf(),
        ensures
            fits == self@.transfer_fits(from@, amount as int),
    {
        match self.state.accounts.get(from) {
            Some(account) => account.balance < amount || account.nonce < u64::MAX,
            None => true,
        }
    }

    /// Whether `command`, handled at `now`, stays within what the ledger's
    /// counters can hold.
    pub fn within_limits(&self, command: &BlockchainCommand, now: Timestamp) -> (fits: bool)
        requires
            self.wf(),
        ensures
            fits == self@.command_fits(*command, now@),
    {
        match command {
            BlockchainCommand::ProcessPayment { stream_id, viewer, amount } => {
                self.payment_within_limits(stream_id, viewer, *amount, now)
            },
            BlockchainCommand::Transfer { from, to, amount } => {
                self.transfer_within_limits(from, *amount)
            },
            _ => true,
        }
    }

    /// Handles one command at the instant `now`: applies it to the state and
    /// returns the event to publish, if there is one, or the reason why the
    /// command was not applied.
    pub fn handle_command(&mut self, command: BlockchainCommand, now: Timestamp) -> (outcome: Result<
        Option<BlockchainEvent>,
        LedgerError,
    >)
        requires
            old(self).wf(),
            old(self)@.command_fits(command, now@),
        ensures
            final(self).wf(),
            final(self)@ == old(self)@.apply(command, now@),
            old(self)@.answers(command, now@, outcome),
            final(self).state.total_supply() == old(self).state.total_supply(),
            old(self).same_setup(final(self)),
    {
        match command {
            BlockchainCommand::RegisterStream {
                stream_id,
                creator,
                title,
                description,
                price_per_minute,
            } => self.register_stream(stream_id, creator, title, description, price_per_minute, now),
            BlockchainCommand::ProcessPayment { stream_id, viewer, amount } => self.process_payment(
                stream_id,
                viewer,
                amount,
                now,
            ),
            BlockchainCommand::CheckAccess { stream_id, viewer } => Ok(
                Some(self.check_access(stream_id, viewer, now)),
            ),
            BlockchainCommand::RecordStreamStart { stream_id, timestamp } => {
                self.record_stream_start(stream_id, timestamp);
                Ok(None)
            },
            BlockchainCommand::ReportStreamQuality { stream_id, metrics } => {
                self.record_stream_quality(stream_id, metrics);
                Ok(None)
            },
            BlockchainCommand::Transfer { from, to, amount } => {
                match self.transfer_tokens(from, to, amount) {
                    Ok(()) => Ok(None),
                    Err(e) => Err(e),
                }
            },
            BlockchainCommand::RecordStreamEnd { .. } => Ok(None),
        }
    }

    /// One turn of the engine's command loop. `received` is what the mailbox
    /// gave: a command, or nothing once the mailbox is closed, which ends
    /// the loop. A command is handled at the instant the clock shows, unless
    /// it would take a counter beyond its range: then it is set aside and
    /// the state stays as it is.
    pub fn step(&mut self, received: Option<BlockchainCommand>) -> (step: EngineStep)
        requires
            old(self).wf(),
        ensures
            final(self).wf(),
            exists|now: int| old(self).stepped(received, now, final(self), step),
    {
        match received {
            None => {
                assert(self.stepped(received, 0, self, EngineStep::Stopped));
                EngineStep::Stopped
            },
            Some(command) => {
                let now = current_time();
                if self.within_limits(&command, now) {
                    let ghost before = *self;
                    let outcome = self.handle_command(command, now);
                    assert(before.stepped(received, now@, self, EngineStep::Handled { outcome }));
                    EngineStep::Handled { outcome }
                } else {
                    assert(self.stepped(received, now@, self, EngineStep::BeyondLimits));
                    EngineStep::BeyondLimits
                }
            },
        }
    }

    /// Whether this engine runs the block producer: only a validator does.
    pub fn produces_blocks(&self) -> (yes: bool)
        ensures
            yes == self.is_validator,
    {
        self.is_validator
    }

    /// Produces the next block: it becomes the tip, finality trails it by
    /// one block, and the event announces it under its label.
    pub fn produce_block(&mut self) -> (event: BlockchainEvent)
        requires
            old(self).wf(),
            old(self).current_block < u64::MAX,
        ensures
            final(self).wf(),
            final(self)@ == old(self)@.produce_block(old(self).current_block + 1),
            final(self).current_block == old(self).current_block + 1,
            announces_block(event, old(self).current_block + 1),
            final(self).state.total_supply() == old(self).state.total_supply(),
            final(self).config == old(self).config,
            final(self).is_validator == old(self).is_validator,
    {
        let ghost before = *self;
        let block_number = self.current_block + 1;
        let block_hash = String::from_str("block_").concat(
            decimal_string(block_number).as_str(),
        );
        self.state.best_block = block_number;
        self.state.finalized_block = block_number - 1;
        self.current_block = block_number;
        proof {
            assert(self@ =~~= before@.produce_block(block_number as int));
        }
        BlockchainEvent::BlockProduced { block_number, block_hash }
    }

    /// One turn of the block producer's loop, taken when its timer fires.
    /// `published` says whether the event of the turn before reached the
    /// mailbox (`true` before the first turn). The loop ends, with `None`,
    /// when it did not, and also when the block counter is used up;
    /// otherwise the next block is produced.
    pub fn production_step(&mut self, published: bool) -> (event: Option<BlockchainEvent>)
        requires
            old(self).wf(),
        ensures
            final(self).wf(),
            match event {
                Some(e) => {
                    &&& published
                    &&& old(self).current_block < u64::MAX
                    &&& final(self)@ == old(self)@.produce_block(old(self).current_block + 1)
                    &&& final(self).current_block == old(self).current_block + 1
                    &&& announces_block(e, old(self).current_block + 1)
                },
                None => {
                    &&& !published || old(self).current_block == u64::MAX
                    &&& *final(self) == *old(self)
                },
            },
    {
        if published && self.current_block < u64::MAX {
            Some(self.produce_block())
        } else {
            None
        }
    }
}

/// What one turn of the command loop came to.
#[derive(Debug, PartialEq, Eq)]
pub enum EngineStep {
    /// The command was handled, with this outcome.
    Handled { outcome: Result<Option<BlockchainEvent>, LedgerError> },
    /// The command would have taken a counter beyond its range.
    BeyondLimits,
    /// The mailbox is closed: the loop ends.
    Stopped,
}

impl BlockchainEngine {
    /// Whether a turn of the command loop that found `received` in the
    /// mailbox and read `now` from the clock leads from `self` to `after`
    /// and comes to `step`.
    pub open spec fn stepped(
        &self,
        received: Option<BlockchainCommand>,
        now: int,
        after: &BlockchainEngine,
        step: EngineStep,
    ) -> bool {
        match received {
            None => step is Stopped && *after == *self,
            Some(command) => if self@.command_fits(command, now) {
                &&& after@ == self@.apply(command, now)
                &&& self.same_setup(after)
                &&& step matches EngineStep::Handled { outcome }
                &&& self@.answers(command, now, outcome)
            } else {
                step is BeyondLimits && *after == *self
            },
        }
    }
}

} // verus!
