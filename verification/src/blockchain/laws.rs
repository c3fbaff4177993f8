//! What holds of the ledger whatever commands it is given.

use vstd::prelude::*;
use super::model::LedgerView;
use super::BlockchainCommand;

verus! {

/// A valid ledger stays valid under every command.
pub proof fn lemma_apply_valid(pre: LedgerView, command: BlockchainCommand, now: int)
    requires
        pre.valid(),
    ensures
        pre.apply(command, now).valid(),
{
}

/// Whatever commands a valid ledger is given, at whatever instants, it
/// stays valid: in particular no balance is ever negative.
pub proof fn lemma_balances_never_negative(
    pre: LedgerView,
    commands: Seq<(BlockchainCommand, int)>,
)
    requires
        pre.valid(),
    ensures
        pre.apply_all(commands).valid(),
        forall|a: Seq<char>| #[trigger]
            pre.apply_all(commands).accounts.contains_key(a) ==> pre.apply_all(
                commands,
            ).accounts[a].balance >= 0,
    decreases commands.len(),
{
    if commands.len() > 0 {
        lemma_balances_never_negative(pre, commands.drop_last());
    }
}

/// The ledger before any command is valid.
pub proof fn lemma_genesis_valid()
    ensures
        LedgerView::genesis().valid(),
{
}

/// Starting from the genesis ledger, no sequence of commands ever leads to
/// a negative balance, nor to a grant for a stream that is not registered,
/// nor to finality ahead of the tip.
pub proof fn lemma_reachable_ledgers_are_valid(commands: Seq<(BlockchainCommand, int)>)
    ensures
        LedgerView::genesis().apply_all(commands).valid(),
        forall|a: Seq<char>| #[trigger]
            LedgerView::genesis().apply_all(commands).accounts.contains_key(a)
                ==> LedgerView::genesis().apply_all(commands).accounts[a].balance >= 0,
{
    lemma_balances_never_negative(LedgerView::genesis(), commands);
}

/// A payment that the viewer cannot afford, or that names a stream or a
/// viewer that does not exist, changes nothing: no balance, no grant, no
/// earnings.
pub proof fn lemma_refused_payment_changes_nothing(
    pre: LedgerView,
    stream_id: Seq<char>,
    viewer: Seq<char>,
    amount: int,
    now: int,
)
    requires
        !pre.streams.contains_key(stream_id) || !pre.accounts.contains_key(viewer)
            || pre.accounts[viewer].balance < amount,
    ensures
        pre.process_payment(stream_id, viewer, amount, now) == pre,
{
}

/// Once a stream is registered, registering its id again changes nothing,
/// whatever else the command says.
pub proof fn lemma_registered_id_is_kept(
    pre: LedgerView,
    stream_id: Seq<char>,
    creator: Seq<char>,
    title: Seq<char>,
    description: Option<Seq<char>>,
    price_per_minute: int,
    now: int,
)
    requires
        pre.streams.contains_key(stream_id),
    ensures
        pre.register_stream(stream_id, creator, title, description, price_per_minute, now) == pre,
{
}

/// The ledger after the same `RegisterStream` command was handled `times`
/// times, the `k`-th time at the instant `instants(k)`.
pub open spec fn registered_times(
    pre: LedgerView,
    times: nat,
    stream_id: Seq<char>,
    creator: Seq<char>,
    title: Seq<char>,
    description: Option<Seq<char>>,
    price_per_minute: int,
    first: int,
    later: spec_fn(nat) -> int,
) -> LedgerView
    decreases times,
{
    if times == 0 {
        pre
    } else if times == 1 {
        pre.register_stream(stream_id, creator, title, description, price_per_minute, first)
    } else {
        registered_times(
            pre,
            (times - 1) as nat,
            stream_id,
            creator,
            title,
            description,
            price_per_minute,
            first,
            later,
        ).register_stream(stream_id, creator, title, description, price_per_minute, later(times))
    }
}

/// Registration is idempotent: handling the same `RegisterStream` command
/// any number of times, at whatever instants, leaves the ledger as the
/// first handling left it.
pub proof fn lemma_registration_idempotent(
    pre: LedgerView,
    times: nat,
    stream_id: Seq<char>,
    creator: Seq<char>,
    title: Seq<char>,
    description: Option<Seq<char>>,
    price_per_minute: int,
    first: int,
    later: spec_fn(nat) -> int,
)
    requires
        times >= 1,
    ensures
        registered_times(
            pre,
            times,
            stream_id,
            creator,
            title,
            description,
            price_per_minute,
            first,
            later,
        ) == pre.register_stream(stream_id, creator, title, description, price_per_minute, first),
    decreases times,
{
    if times > 1 {
        lemma_registration_idempotent(
            pre,
            (times - 1) as nat,
            stream_id,
            creator,
            title,
            description,
            price_per_minute,
            first,
            later,
        );
    }
}

/// After a payment that was accepted the viewer holds a grant that runs at
/// least to the end of the window just paid for, and access is granted at
/// an instant exactly if the grant ends strictly after it.
pub proof fn lemma_access_follows_payment(
    pre: LedgerView,
    stream_id: Seq<char>,
    viewer: Seq<char>,
    amount: int,
    now: int,
    check: int,
)
    requires
        pre.payment_accepted(stream_id, viewer, amount),
    ensures
        ({
            let post = pre.process_payment(stream_id, viewer, amount, now);
            &&& post.accounts.contains_key(viewer)
            &&& post.accounts[viewer].stream_access.contains_key(stream_id)
            &&& post.accounts[viewer].stream_access[stream_id].paid_until >= pre.paid_window_end(
                stream_id,
                amount,
                now,
            )
            &&& post.has_access(stream_id, viewer, check)
                <==> post.accounts[viewer].stream_access[stream_id].paid_until > check
        }),
{
}

/// A grant is never withdrawn and its end never moves back, whatever
/// command the ledger handles: successive payments extend it monotonically.
pub proof fn lemma_paid_until_never_moves_back(
    pre: LedgerView,
    command: BlockchainCommand,
    now: int,
    stream_id: Seq<char>,
    viewer: Seq<char>,
)
    requires
        pre.accounts.contains_key(viewer),
        pre.accounts[viewer].stream_access.contains_key(stream_id),
    ensures
        ({
            let post = pre.apply(command, now);
            &&& post.accounts.contains_key(viewer)
            &&& post.accounts[viewer].stream_access.contains_key(stream_id)
            &&& post.accounts[viewer].stream_access[stream_id].paid_until
                >= pre.accounts[viewer].stream_access[stream_id].paid_until
        }),
{
}

/// Of two payments in a row for the same stream by the same viewer, the
/// first of which was accepted, the second never leaves the grant ending
/// earlier than the first left it, whatever its amount and whenever it is
/// made.
pub proof fn lemma_successive_payments_extend(
    pre: LedgerView,
    stream_id: Seq<char>,
    viewer: Seq<char>,
    first_amount: int,
    first_now: int,
    second_amount: int,
    second_now: int,
)
    requires
        pre.payment_accepted(stream_id, viewer, first_amount),
    ensures
        ({
            let first = pre.process_payment(stream_id, viewer, first_amount, first_now);
            let second = first.process_payment(stream_id, viewer, second_amount, second_now);
            &&& first.accounts[viewer].stream_access.contains_key(stream_id)
            &&& second.accounts[viewer].stream_access.contains_key(stream_id)
            &&& second.accounts[viewer].stream_access[stream_id].paid_until
                >= first.accounts[viewer].stream_access[stream_id].paid_until
        }),
{
}

/// Only an accepted payment by `viewer` for `stream_id` changes the end of
/// the viewer's grant for that stream.
pub proof fn lemma_paid_until_changes_only_by_payment(
    pre: LedgerView,
    command: BlockchainCommand,
    now: int,
    stream_id: Seq<char>,
    viewer: Seq<char>,
)
    requires
        pre.accounts.contains_key(viewer),
        pre.accounts[viewer].stream_access.contains_key(stream_id),
        !(command matches BlockchainCommand::ProcessPayment { stream_id: s, viewer: v, amount }
            && s@ == stream_id && v@ == viewer && pre.payment_accepted(
            stream_id,
            viewer,
            amount as int,
        )),
    ensures
        pre.apply(command, now).accounts[viewer].stream_access[stream_id].paid_until
            == pre.accounts[viewer].stream_access[stream_id].paid_until,
{
}

/// After `ticks` blocks were produced on a ledger that had none, the tip is
/// `ticks` and finality trails it by one block (and is 0 while there is no
/// block). Accounts and streams are as they were.
pub proof fn lemma_height_after_ticks(pre: LedgerView, ticks: nat)
    requires
        pre.best_block == 0,
        pre.finalized_block == 0,
    ensures
        pre.after_ticks(ticks).best_block == ticks,
        pre.after_ticks(ticks).finalized_block == if ticks == 0 {
            0
        } else {
            ticks - 1
        },
        pre.after_ticks(ticks).accounts == pre.accounts,
        pre.after_ticks(ticks).streams == pre.streams,
    decreases ticks,
{
    if ticks > 0 {
        lemma_height_after_ticks(pre, (ticks - 1) as nat);
    }
}

/// Producing a block keeps a valid ledger valid.
pub proof fn lemma_produce_block_valid(pre: LedgerView, block_number: int)
    requires
        pre.valid(),
        block_number >= 0,
    ensures
        pre.produce_block(block_number).valid(),
{
}

} // verus!
