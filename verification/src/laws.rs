use vstd::prelude::*;
use crate::address::{
    address_at, derive_post, find_from, found_seeds_fit, on_curve, same_bytes_same_address,
    Address,
};
use crate::error::TokenSaleError;
use crate::escrow::EscrowView;
use crate::ledger::{balance_after, balance_after_one, LedgerInstruction};
use crate::sale::{
    cancel_post, emitted, exchange_post, fresh_record, granted_for, initialize_post,
    record_address, record_after, record_after_exchange, sale_address, sale_seeds,
    supply_falls_short, Cancel, Exchange, Initialize, Step,
};

verus! {

/// Derivation is a function of its inputs: two searches over the same seeds,
/// program and starting bump return the same address and bump, or both fail.
pub proof fn derivation_is_deterministic(
    seeds: Seq<Seq<u8>>,
    program_id: Seq<u8>,
    start_bump: u8,
    first: Result<(Address, u8), TokenSaleError>,
    second: Result<(Address, u8), TokenSaleError>,
)
    requires
        derive_post(seeds, program_id, start_bump, first),
        derive_post(seeds, program_id, start_bump, second),
    ensures
        first == second,
{
    match (first, second) {
        (Ok(a), Ok(b)) => {
            same_bytes_same_address(a.0, b.0);
        },
        _ => {},
    }
}

/// A derived address belongs to no key: it is no point of the curve, and so it
/// differs from every identity that is one, as the public key of every key
/// pair is.
pub proof fn derived_address_has_no_key(
    seeds: Seq<Seq<u8>>,
    program_id: Seq<u8>,
    start_bump: u8,
    derived: Result<(Address, u8), TokenSaleError>,
    signer: Address,
)
    requires
        derive_post(seeds, program_id, start_bump, derived),
        derived.is_ok(),
    ensures
        !on_curve(derived.unwrap().0@),
        on_curve(signer@) ==> signer != derived.unwrap().0,
{
}

/// Initialize puts the holding account under the sale's own address, and that
/// address belongs to no key: no identity that is a point of the curve, the
/// administrator included, is the holding account's authority.
pub proof fn holding_account_answers_to_no_key(
    ctx: Initialize,
    amount: u64,
    rate: u64,
    name: Seq<char>,
    result: Result<Step, TokenSaleError>,
    signer: Address,
)
    requires
        initialize_post(ctx, amount, rate, name, result),
        result.is_ok(),
    ensures
        emitted(result)[2] == (LedgerInstruction::SetAuthority {
            account: ctx.sale_token_account,
            new_authority: result.unwrap().escrow,
        }),
        !on_curve(result.unwrap().escrow@),
        on_curve(signer@) ==> signer != result.unwrap().escrow,
{
}

/// The search returns the greatest bump, not above the start, at which the
/// seeds have an address; it fails exactly when no bump up to the start has
/// one.
pub proof fn derivation_takes_first_bump(seeds: Seq<Seq<u8>>, program_id: Seq<u8>, start: u8)
    ensures
        match find_from(seeds, program_id, start) {
            Some(found) => {
                &&& found.1 <= start
                &&& address_at(seeds, program_id, found.1) == Some(found.0)
                &&& forall|bump: u8|
                    found.1 < bump <= start ==> (#[trigger] address_at(
                        seeds,
                        program_id,
                        bump,
                    )).is_none()
            },
            None => forall|bump: u8|
                bump <= start ==> (#[trigger] address_at(seeds, program_id, bump)).is_none(),
        },
    decreases start,
{
    if address_at(seeds, program_id, start).is_none() && start > 0 {
        derivation_takes_first_bump(seeds, program_id, (start - 1) as u8);
    }
}

/// A record's address can always be derived again from the tag, the name and
/// the bump that the record keeps: the address that Initialize found is the
/// address of the sale's seeds at the stored bump.
pub proof fn record_address_is_reproducible(
    ctx: Initialize,
    amount: u64,
    rate: u64,
    name: Seq<char>,
    result: Result<Step, TokenSaleError>,
)
    requires
        initialize_post(ctx, amount, rate, name, result),
        result.is_ok(),
    ensures
        sale_address(ctx.program_id@, name) == Some(
            (result.unwrap().escrow@, result.unwrap().record.unwrap().bump),
        ),
        address_at(sale_seeds(name), ctx.program_id@, result.unwrap().record.unwrap().bump)
            == Some(result.unwrap().escrow@),
{
    found_seeds_fit(sale_seeds(name), ctx.program_id@, crate::address::START_BUMP);
}

/// One attempt to buy: the payment, and whether everything but the supply
/// allowed it.
pub struct Trade {
    pub payment: u64,
    pub admitted: bool,
}

/// An attempt is served when it was admitted and the sale holds enough.
pub open spec fn served(record: EscrowView, trade: Trade) -> bool {
    trade.admitted && !supply_falls_short(record, trade.payment)
}

/// The record after a run of attempts, each served or refused in turn.
pub open spec fn record_after_trades(record: EscrowView, trades: Seq<Trade>) -> EscrowView
    decreases trades.len(),
{
    if trades.len() == 0 {
        record
    } else {
        let so_far = record_after_trades(record, trades.drop_last());
        if served(so_far, trades.last()) {
            record_after_exchange(so_far, trades.last().payment)
        } else {
            so_far
        }
    }
}

/// The sum of what the served attempts of a run were granted.
pub open spec fn granted_in_trades(record: EscrowView, trades: Seq<Trade>) -> int
    decreases trades.len(),
{
    if trades.len() == 0 {
        0
    } else {
        let so_far = record_after_trades(record, trades.drop_last());
        granted_in_trades(record, trades.drop_last()) + if served(so_far, trades.last()) {
            granted_for(so_far.rate, trades.last().payment)
        } else {
            0
        }
    }
}

/// Supply is conserved: after any run of exchanges what remains is what there
/// was less the sum of what was granted, it never grows, and the deposit, the
/// rate and the rest of the record stay as they were. For a sale fresh from
/// Initialize, what remains is the deposit less the sum granted.
pub proof fn supply_is_conserved(record: EscrowView, trades: Seq<Trade>)
    requires
        record.well_formed(),
    ensures
        record_after_trades(record, trades).well_formed(),
        record_after_trades(record, trades).remaining_supply == record.remaining_supply
            - granted_in_trades(record, trades),
        granted_in_trades(record, trades) >= 0,
        record_after_trades(record, trades) == (EscrowView {
            remaining_supply: record_after_trades(record, trades).remaining_supply,
            ..record
        }),
        record.remaining_supply == record.total_supply ==> record_after_trades(
            record,
            trades,
        ).remaining_supply == record.total_supply - granted_in_trades(record, trades),
    decreases trades.len(),
{
    if trades.len() > 0 {
        supply_is_conserved(record, trades.drop_last());
        let so_far = record_after_trades(record, trades.drop_last());
        let payment = trades.last().payment;
        if served(so_far, trades.last()) {
            assert(granted_for(so_far.rate, payment) >= 0) by (nonlinear_arith)
                requires
                    granted_for(so_far.rate, payment) == payment * so_far.rate,
            ;
        }
    }
}

/// From Initialize through any run of exchanges, what remains is the deposit
/// less the sum of what was granted; that is what Cancel then returns.
pub proof fn fresh_sale_conserves_supply(
    ctx: Initialize,
    amount: u64,
    rate: u64,
    name: Seq<char>,
    created: Result<Step, TokenSaleError>,
    trades: Seq<Trade>,
)
    requires
        initialize_post(ctx, amount, rate, name, created),
        created.is_ok(),
    ensures
        record_after_trades(created.unwrap().record.unwrap()@, trades).total_supply == amount,
        record_after_trades(created.unwrap().record.unwrap()@, trades).remaining_supply == amount
            - granted_in_trades(created.unwrap().record.unwrap()@, trades),
{
    supply_is_conserved(created.unwrap().record.unwrap()@, trades);
}

/// What Exchange does to a record is one step of such a run: an accepted
/// exchange had enough supply and leaves the record that the run's step
/// gives, with no more remaining than before; a refused one leaves the record
/// as it was.
pub proof fn exchange_is_one_trade(
    ctx: Exchange,
    name: Seq<char>,
    payment: u64,
    result: Result<Step, TokenSaleError>,
)
    requires
        exchange_post(ctx, name, payment, result),
    ensures
        result.is_ok() ==> {
            &&& ctx.escrow_pda.is_some()
            &&& served(ctx.escrow_pda.unwrap()@, Trade { payment, admitted: true })
            &&& record_after(ctx.escrow_pda, result).unwrap()@ == record_after_trades(
                ctx.escrow_pda.unwrap()@,
                seq![Trade { payment, admitted: true }],
            )
            &&& record_after(ctx.escrow_pda, result).unwrap().remaining_supply
                == ctx.escrow_pda.unwrap().remaining_supply - result.unwrap().granted
        },
        result.is_err() ==> record_after(ctx.escrow_pda, result) == ctx.escrow_pda,
{
    if result.is_ok() {
        let before = ctx.escrow_pda.unwrap()@;
        let trades = seq![Trade { payment, admitted: true }];
        assert(trades.drop_last() =~= Seq::<Trade>::empty());
        assert(record_after_trades(before, trades.drop_last()) == before);
        assert(trades.last() == Trade { payment, admitted: true });
    }
}

/// After Initialize the holding account holds exactly what the record says
/// remains, whatever stood at its address before.
pub proof fn initialize_fills_holding_account(
    ctx: Initialize,
    amount: u64,
    rate: u64,
    name: Seq<char>,
    result: Result<Step, TokenSaleError>,
    balance: u64,
)
    requires
        initialize_post(ctx, amount, rate, name, result),
        result.is_ok(),
    ensures
        balance_after(emitted(result), ctx.sale_token_account@, balance) == Some(
            record_after(ctx.escrow_pda, result).unwrap().remaining_supply,
        ),
{
    let instructions = emitted(result);
    let holding = ctx.sale_token_account@;
    let rest1 = instructions.drop_first();
    let rest2 = rest1.drop_first();
    let rest3 = rest2.drop_first();
    assert(rest3.drop_first().len() == 0);
    let b1 = balance_after_one(instructions[0], holding, balance).unwrap();
    assert(balance_after(rest3.drop_first(), holding, amount) == Some(amount));
    assert(balance_after(rest3, holding, 0) == Some(amount));
    assert(balance_after(rest2, holding, 0) == Some(amount));
    assert(balance_after(rest1, holding, b1) == Some(amount));
}

/// An accepted Exchange keeps the holding account's balance equal to what the
/// record says remains.
pub proof fn exchange_keeps_holding_balance(
    ctx: Exchange,
    name: Seq<char>,
    payment: u64,
    result: Result<Step, TokenSaleError>,
)
    requires
        exchange_post(ctx, name, payment, result),
        result.is_ok(),
        ctx.escrow_pda.unwrap().well_formed(),
    ensures
        balance_after(
            emitted(result),
            ctx.escrow_pda.unwrap().holding_account@,
            ctx.escrow_pda.unwrap().remaining_supply,
        ) == Some(record_after(ctx.escrow_pda, result).unwrap().remaining_supply),
{
    let record = ctx.escrow_pda.unwrap();
    let instructions = emitted(result);
    let holding = record.holding_account@;
    let rest1 = instructions.drop_first();
    let left = record_after(ctx.escrow_pda, result).unwrap().remaining_supply;
    assert(rest1.drop_first().len() == 0);
    assert(balance_after(rest1.drop_first(), holding, left) == Some(left));
    assert(balance_after(rest1, holding, record.remaining_supply) == Some(left));
}

/// An accepted Cancel returns all that remains and leaves nothing behind: the
/// holding account ends empty and closed, and no record is left.
pub proof fn cancel_empties_holding_account(
    ctx: Cancel,
    name: Seq<char>,
    result: Result<Step, TokenSaleError>,
)
    requires
        cancel_post(ctx, name, result),
        result.is_ok(),
    ensures
        record_after(ctx.escrow_pda, result).is_none(),
        emitted(result)[0] matches LedgerInstruction::Transfer { from, to, amount, .. } && from
            == ctx.escrow_pda.unwrap().holding_account && to == ctx.admin_token_account && amount
            == ctx.escrow_pda.unwrap().remaining_supply,
        balance_after(
            emitted(result),
            ctx.escrow_pda.unwrap().holding_account@,
            ctx.escrow_pda.unwrap().remaining_supply,
        ) == Some(0u64),
{
    let record = ctx.escrow_pda.unwrap();
    let instructions = emitted(result);
    let holding = record.holding_account@;
    let rest1 = instructions.drop_first();
    let rest2 = rest1.drop_first();
    assert(rest2.drop_first().len() == 0);
    let b2 = balance_after_one(rest2[0], holding, 0).unwrap();
    assert(b2 == 0);
    assert(balance_after(rest2.drop_first(), holding, 0) == Some(0u64));
    assert(balance_after(rest2, holding, 0) == Some(0u64));
    assert(balance_after(rest1, holding, 0) == Some(0u64));
}

/// An accepted Cancel adds all that remained to the administrator's account,
/// where that account is not the sale's own address and can hold the sum.
pub proof fn cancel_refunds_the_administrator(
    ctx: Cancel,
    name: Seq<char>,
    result: Result<Step, TokenSaleError>,
    balance: u64,
)
    requires
        cancel_post(ctx, name, result),
        result.is_ok(),
        ctx.admin_token_account@ != result.unwrap().escrow@,
        balance + ctx.escrow_pda.unwrap().remaining_supply <= u64::MAX,
    ensures
        balance_after(emitted(result), ctx.admin_token_account@, balance) == Some(
            (balance + ctx.escrow_pda.unwrap().remaining_supply) as u64,
        ),
{
    let instructions = emitted(result);
    let account = ctx.admin_token_account@;
    let refunded = (balance + ctx.escrow_pda.unwrap().remaining_supply) as u64;
    let rest1 = instructions.drop_first();
    let rest2 = rest1.drop_first();
    assert(rest2.drop_first().len() == 0);
    assert(balance_after(rest2.drop_first(), account, refunded) == Some(refunded));
    assert(balance_after(rest2, account, refunded) == Some(refunded));
    assert(balance_after(rest1, account, refunded) == Some(refunded));
}

/// Initialize under a name that has no address fails with
/// `DerivationFailed`, whatever else it was given.
pub proof fn initialize_without_address_is_refused(
    ctx: Initialize,
    amount: u64,
    rate: u64,
    name: Seq<char>,
    result: Result<Step, TokenSaleError>,
)
    requires
        initialize_post(ctx, amount, rate, name, result),
        sale_address(ctx.program_id@, name).is_none(),
    ensures
        result == Err::<Step, TokenSaleError>(TokenSaleError::DerivationFailed),
{
}

/// Initialize under the name of an active sale fails with `AlreadyExists`,
/// whatever the rate, the supply and the balance, and overwrites nothing: the
/// record stays as it was and the ledger is told nothing.
pub proof fn initialize_on_active_sale_is_refused(
    ctx: Initialize,
    amount: u64,
    rate: u64,
    name: Seq<char>,
    result: Result<Step, TokenSaleError>,
)
    requires
        initialize_post(ctx, amount, rate, name, result),
        ctx.escrow_pda.is_some(),
        record_address(ctx.program_id@, name, ctx.escrow_pda).is_some(),
    ensures
        result == Err::<Step, TokenSaleError>(TokenSaleError::AlreadyExists),
        record_after(ctx.escrow_pda, result) == ctx.escrow_pda,
        emitted(result).len() == 0,
{
    derivation_takes_first_bump(sale_seeds(name), ctx.program_id@, crate::address::START_BUMP);
}

/// An accepted Initialize takes exactly the supply out of the source account,
/// where that account does not sit at the sale's own address.
pub proof fn initialize_debits_the_source(
    ctx: Initialize,
    amount: u64,
    rate: u64,
    name: Seq<char>,
    result: Result<Step, TokenSaleError>,
)
    requires
        initialize_post(ctx, amount, rate, name, result),
        result.is_ok(),
        ctx.admin_token_account.address@ != result.unwrap().escrow@,
    ensures
        ctx.admin_token_account.amount >= amount,
        balance_after(
            emitted(result),
            ctx.admin_token_account.address@,
            ctx.admin_token_account.amount,
        ) == Some((ctx.admin_token_account.amount - amount) as u64),
{
    let instructions = emitted(result);
    let source = ctx.admin_token_account.address@;
    let held = ctx.admin_token_account.amount;
    let left = (held - amount) as u64;
    let rest1 = instructions.drop_first();
    let rest2 = rest1.drop_first();
    let rest3 = rest2.drop_first();
    assert(rest3.drop_first().len() == 0);
    assert(balance_after(rest3.drop_first(), source, left) == Some(left));
    assert(balance_after(rest3, source, held) == Some(left));
    assert(balance_after(rest2, source, held) == Some(left));
    assert(balance_after(rest1, source, held) == Some(left));
}

/// Exchange is owed to any buyer: against a sale under the name that has
/// something left and enough for the payment, by a buyer who holds the payment
/// and does not name the holding account as their own, it is accepted and
/// grants the payment times the rate.
pub proof fn covered_exchange_is_accepted(
    ctx: Exchange,
    name: Seq<char>,
    payment: u64,
    result: Result<Step, TokenSaleError>,
)
    requires
        exchange_post(ctx, name, payment, result),
        ctx.escrow_pda.is_some(),
        ctx.escrow_pda.unwrap().name@ == name,
        record_address(ctx.program_id@, name, ctx.escrow_pda).is_some(),
        !supply_falls_short(ctx.escrow_pda.unwrap()@, payment),
        ctx.user_balance >= payment,
        ctx.user@ != ctx.escrow_pda.unwrap().holding_account@,
        ctx.user_token_account@ != ctx.escrow_pda.unwrap().holding_account@,
    ensures
        result.is_ok(),
        result.unwrap().granted == payment * ctx.escrow_pda.unwrap().rate,
        result.unwrap().record.unwrap().remaining_supply
            == ctx.escrow_pda.unwrap().remaining_supply - payment * ctx.escrow_pda.unwrap().rate,
{
}

/// An accepted Exchange adds what was granted to the buyer's asset account,
/// where that account is neither the buyer's nor the administrator's payment
/// account and can hold the sum.
pub proof fn exchange_credits_the_buyer(
    ctx: Exchange,
    name: Seq<char>,
    payment: u64,
    result: Result<Step, TokenSaleError>,
    balance: u64,
)
    requires
        exchange_post(ctx, name, payment, result),
        result.is_ok(),
        ctx.user_token_account@ != ctx.user@,
        ctx.user_token_account@ != ctx.escrow_pda.unwrap().admin@,
        balance + result.unwrap().granted <= u64::MAX,
    ensures
        balance_after(emitted(result), ctx.user_token_account@, balance) == Some(
            (balance + result.unwrap().granted) as u64,
        ),
{
    let instructions = emitted(result);
    let account = ctx.user_token_account@;
    let credited = (balance + result.unwrap().granted) as u64;
    let rest1 = instructions.drop_first();
    assert(rest1.drop_first().len() == 0);
    assert(balance_after(rest1.drop_first(), account, credited) == Some(credited));
    assert(balance_after(rest1, account, balance) == Some(credited));
}

/// Over a whole sale: after Initialize and any run of exchanges, Cancel by the
/// administrator, with a refund account other than the holding account, is
/// accepted and hands back the deposit less the sum of what was granted, which
/// is what the record says remains.
pub proof fn whole_sale_refunds_what_is_left(
    first: Initialize,
    amount: u64,
    rate: u64,
    name: Seq<char>,
    created: Result<Step, TokenSaleError>,
    trades: Seq<Trade>,
    closing: Cancel,
    closed: Result<Step, TokenSaleError>,
)
    requires
        initialize_post(first, amount, rate, name, created),
        created.is_ok(),
        closing.program_id@ == first.program_id@,
        closing.escrow_pda.is_some(),
        closing.escrow_pda.unwrap()@ == record_after_trades(
            created.unwrap().record.unwrap()@,
            trades,
        ),
        closing.admin@ == first.admin@,
        closing.admin_token_account@ != first.sale_token_account@,
        cancel_post(closing, name, closed),
    ensures
        closed.is_ok(),
        closed.unwrap().escrow == created.unwrap().escrow,
        closing.escrow_pda.unwrap().remaining_supply == amount - granted_in_trades(
            created.unwrap().record.unwrap()@,
            trades,
        ),
        emitted(closed)[0] matches LedgerInstruction::Transfer { from, to, amount: refund, .. }
            && from@ == first.sale_token_account@ && to == closing.admin_token_account && refund
            == amount - granted_in_trades(created.unwrap().record.unwrap()@, trades),
{
    let start = created.unwrap().record.unwrap()@;
    supply_is_conserved(start, trades);
    found_seeds_fit(sale_seeds(name), first.program_id@, crate::address::START_BUMP);
    same_bytes_same_address(closed.unwrap().escrow, created.unwrap().escrow);
}

/// An Exchange that the sale cannot cover fails with `InsufficientSupply`,
/// whoever the buyer, and a refused Exchange changes nothing: the record stays
/// as it was and the ledger is told nothing, so every balance stays as it was.
pub proof fn refused_exchange_changes_nothing(
    ctx: Exchange,
    name: Seq<char>,
    payment: u64,
    result: Result<Step, TokenSaleError>,
    account: Seq<u8>,
    balance: u64,
)
    requires
        exchange_post(ctx, name, payment, result),
    ensures
        ctx.escrow_pda.is_some() && ctx.escrow_pda.unwrap().name@ == name && supply_falls_short(
            ctx.escrow_pda.unwrap()@,
            payment,
        ) ==> result == Err::<Step, TokenSaleError>(TokenSaleError::InsufficientSupply),
        result.is_err() ==> {
            &&& record_after(ctx.escrow_pda, result) == ctx.escrow_pda
            &&& emitted(result).len() == 0
            &&& balance_after(emitted(result), account, balance) == Some(balance)
        },
{
}

/// Only the administrator cancels: Cancel signed by anyone else fails with
/// `Unauthorized`, leaves the record as it was and tells the ledger nothing.
pub proof fn cancel_by_stranger_is_refused(
    ctx: Cancel,
    name: Seq<char>,
    result: Result<Step, TokenSaleError>,
)
    requires
        cancel_post(ctx, name, result),
        ctx.escrow_pda.is_some(),
        ctx.escrow_pda.unwrap().name@ == name,
        ctx.admin@ != ctx.escrow_pda.unwrap().admin@,
    ensures
        result == Err::<Step, TokenSaleError>(TokenSaleError::Unauthorized),
        record_after(ctx.escrow_pda, result) == ctx.escrow_pda,
        emitted(result).len() == 0,
{
}

/// A name is free again once its sale is cancelled: Cancel signs with the very
/// address that Initialize derived, and a later Initialize under the same name
/// and program, with a positive rate, a funded source and an unused holding
/// address, is accepted, derives that address and bump once more, and stores
/// the new supply and rate and nothing of the closed sale.
pub proof fn name_is_free_after_cancel(
    first: Initialize,
    first_amount: u64,
    first_rate: u64,
    name: Seq<char>,
    created: Result<Step, TokenSaleError>,
    closing: Cancel,
    closed: Result<Step, TokenSaleError>,
    second: Initialize,
    second_amount: u64,
    second_rate: u64,
    recreated: Result<Step, TokenSaleError>,
)
    requires
        initialize_post(first, first_amount, first_rate, name, created),
        created.is_ok(),
        closing.program_id@ == first.program_id@,
        closing.escrow_pda == record_after(first.escrow_pda, created),
        cancel_post(closing, name, closed),
        closed.is_ok(),
        second.program_id@ == first.program_id@,
        second.escrow_pda == record_after(closing.escrow_pda, closed),
        second_rate > 0,
        second.admin_token_account.amount >= second_amount,
        second.sale_token_account@ != created.unwrap().escrow@,
        second.sale_token_account@ != second.admin@,
        second.sale_token_account@ != second.admin_token_account.address@,
        initialize_post(second, second_amount, second_rate, name, recreated),
    ensures
        closed.unwrap().escrow == created.unwrap().escrow,
        recreated.is_ok(),
        recreated.unwrap().escrow == created.unwrap().escrow,
        recreated.unwrap().record.unwrap()@ == fresh_record(
            second,
            second_amount,
            second_rate,
            name,
            created.unwrap().record.unwrap().bump,
        ),
{
    found_seeds_fit(sale_seeds(name), first.program_id@, crate::address::START_BUMP);
    same_bytes_same_address(closed.unwrap().escrow, created.unwrap().escrow);
    same_bytes_same_address(recreated.unwrap().escrow, created.unwrap().escrow);
}

} // verus!
