use vstd::prelude::*;
use crate::address::{
    address_at, address_with_bump, derive_address, escrow_tag, escrow_tag_bytes, find_from,
    found_seeds_fit, found_view, on_curve, seeds_view, Address, START_BUMP,
};
use crate::error::TokenSaleError;
use crate::escrow::{name_bytes, EscrowAccount, EscrowView};
use crate::ledger::{Authority, LedgerInstruction, HOLDING_ACCOUNT_SPACE};

verus! {

/// A ledger account of some asset, as the controller sees it.
#[derive(Clone, Copy, Debug, PartialEq, Eq)]
pub struct TokenAccount {
    pub address: Address,
    pub mint: Address,
    pub amount: u64,
}

/// What Initialize is given: the program that owns the sale, what the sale's
/// address holds now, the administrator who signed, the asset, the account the
/// supply comes from and the address of the holding account to open.
#[derive(Clone, Debug, PartialEq, Eq)]
pub struct Initialize {
    pub program_id: Address,
    pub escrow_pda: Option<EscrowAccount>,
    pub admin: Address,
    pub mint: Address,
    pub admin_token_account: TokenAccount,
    pub sale_token_account: Address,
}

/// What Cancel is given: the program, the identity that signed, what the
/// sale's address holds now and the account that takes the unsold supply.
#[derive(Clone, Debug, PartialEq, Eq)]
pub struct Cancel {
    pub program_id: Address,
    pub admin: Address,
    pub escrow_pda: Option<EscrowAccount>,
    pub admin_token_account: Address,
}

/// What Exchange is given: the program, the buyer who signed and what the
/// buyer holds of the payment asset, what the sale's address holds now and the
/// account that takes what is bought.
#[derive(Clone, Debug, PartialEq, Eq)]
pub struct Exchange {
    pub program_id: Address,
    pub user: Address,
    pub user_balance: u64,
    pub escrow_pda: Option<EscrowAccount>,
    pub user_token_account: Address,
}

/// What an accepted operation asks for: the sale's address, the record that
/// its address holds afterwards (`None`: closed), the units granted to a buyer
/// and the instructions that the ledger must carry out as one unit.
#[derive(Clone, Debug, PartialEq, Eq)]
pub struct Step {
    pub escrow: Address,
    pub record: Option<EscrowAccount>,
    pub granted: u64,
    pub instructions: Vec<LedgerInstruction>,
}

/// The record at the sale's address after an operation that has not been
/// rejected by the ledger: the step's record, or the record as it was where
/// the operation was refused.
pub open spec fn record_after(before: Option<EscrowAccount>, result: Result<Step, TokenSaleError>)
    -> Option<EscrowAccount> {
    match result {
        Ok(step) => step.record,
        Err(_) => before,
    }
}

/// The instructions that an operation hands to the ledger: none where it was
/// refused.
pub open spec fn emitted(result: Result<Step, TokenSaleError>) -> Seq<LedgerInstruction> {
    match result {
        Ok(step) => step.instructions@,
        Err(_) => Seq::empty(),
    }
}

/// The seeds of a sale: the escrow tag, then the name's bytes.
pub open spec fn sale_seeds(name: Seq<char>) -> Seq<Seq<u8>> {
    seq![escrow_tag_bytes(), name_bytes(name)]
}

/// The address and bump of the sale called `name` under a program, if the
/// search finds one.
pub open spec fn sale_address(program_id: Seq<u8>, name: Seq<char>) -> Option<(Seq<u8>, u8)> {
    find_from(sale_seeds(name), program_id, START_BUMP)
}

/// What the ledger is told when a sale is created: allocate the record at the
/// sale's address, allocate the holding account, put it under the sale's
/// address, and move the supply into it on the administrator's signature.
pub open spec fn initialize_instructions(ctx: Initialize, escrow: Address, amount: u64) -> Seq<
    LedgerInstruction,
> {
    seq![
        LedgerInstruction::CreateAccount {
            payer: ctx.admin,
            new_address: escrow,
            size_bytes: 229usize,
        },
        LedgerInstruction::CreateAccount {
            payer: ctx.admin,
            new_address: ctx.sale_token_account,
            size_bytes: HOLDING_ACCOUNT_SPACE,
        },
        LedgerInstruction::SetAuthority { account: ctx.sale_token_account, new_authority: escrow },
        LedgerInstruction::Transfer {
            from: ctx.admin_token_account.address,
            to: ctx.sale_token_account,
            authority: Authority::Signer(ctx.admin),
            amount,
        },
    ]
}

/// Why Initialize is refused, given what the search for the sale's address
/// found. In this order: no address; a record already at the sale's address,
/// or a holding address that is already in use; a rate of zero; a source
/// account that holds less than the supply.
pub open spec fn initialize_refusal_at(
    ctx: Initialize,
    amount: u64,
    rate: u64,
    found: Option<(Seq<u8>, u8)>,
) -> Option<TokenSaleError> {
    match found {
        None => Some(TokenSaleError::DerivationFailed),
        Some(found) => if ctx.escrow_pda.is_some() || ctx.sale_token_account@ == found.0
            || ctx.sale_token_account@ == ctx.admin@ || ctx.sale_token_account@
            == ctx.admin_token_account.address@ {
            Some(TokenSaleError::AlreadyExists)
        } else if rate == 0 {
            Some(TokenSaleError::InvalidRate)
        } else if ctx.admin_token_account.amount < amount {
            Some(TokenSaleError::InsufficientBalance)
        } else {
            None
        },
    }
}

/// Why Initialize is refused, if it is. The name has no address where the
/// search finds none, as for every name longer than a seed may be.
pub open spec fn initialize_refusal(ctx: Initialize, amount: u64, rate: u64, name: Seq<char>)
    -> Option<TokenSaleError> {
    initialize_refusal_at(ctx, amount, rate, sale_address(ctx.program_id@, name))
}

/// The record of a sale that has just been created.
pub open spec fn fresh_record(ctx: Initialize, amount: u64, rate: u64, name: Seq<char>, bump: u8)
    -> EscrowView {
    EscrowView {
        admin: ctx.admin@,
        holding_account: ctx.sale_token_account@,
        name,
        rate,
        total_supply: amount,
        remaining_supply: amount,
        bump,
    }
}

/// What `initialize_at` returns on each input.
pub open spec fn initialize_at_post(
    ctx: Initialize,
    amount: u64,
    rate: u64,
    name: Seq<char>,
    found: Option<(Address, u8)>,
    result: Result<Step, TokenSaleError>,
) -> bool {
    match result {
        Err(e) => initialize_refusal_at(ctx, amount, rate, found_view(found)) == Some(e),
        Ok(step) => {
            &&& initialize_refusal_at(ctx, amount, rate, found_view(found)).is_none()
            &&& found.is_some()
            &&& step.escrow == found.unwrap().0
            &&& step.granted == 0
            &&& step.record.is_some()
            &&& step.record.unwrap()@ == fresh_record(ctx, amount, rate, name, found.unwrap().1)
            &&& step.instructions@ == initialize_instructions(ctx, step.escrow, amount)
        },
    }
}

/// What Initialize returns on each input.
pub open spec fn initialize_post(
    ctx: Initialize,
    amount: u64,
    rate: u64,
    name: Seq<char>,
    result: Result<Step, TokenSaleError>,
) -> bool {
    match result {
        Err(e) => initialize_refusal(ctx, amount, rate, name) == Some(e),
        Ok(step) => {
            &&& initialize_refusal(ctx, amount, rate, name).is_none()
            &&& sale_address(ctx.program_id@, name).is_some()
            &&& step.escrow@ == sale_address(ctx.program_id@, name).unwrap().0
            &&& !on_curve(step.escrow@)
            &&& step.granted == 0
            &&& step.record.is_some()
            &&& step.record.unwrap()@ == fresh_record(
                ctx,
                amount,
                rate,
                name,
                sale_address(ctx.program_id@, name).unwrap().1,
            )
            &&& step.record.unwrap().well_formed()
            &&& step.instructions@ == initialize_instructions(ctx, step.escrow, amount)
        },
    }
}

/// The seeds of a sale as byte strings.
fn sale_seed_list(name: &String) -> (seeds: Vec<Vec<u8>>)
    ensures
        seeds_view(&seeds) == sale_seeds(name@),
{
    let mut seeds: Vec<Vec<u8>> = Vec::new();
    seeds.push(escrow_tag());
    seeds.push(vstd::slice::slice_to_vec(name.as_str().as_bytes()));
    assert(seeds_view(&seeds) =~= sale_seeds(name@));
    seeds
}

/// Creates the sale called `name` at the address that the search found, or
/// refuses where it found none: `amount` units at `rate` units per unit of
/// payment.
pub fn initialize_at(
    ctx: &Initialize,
    amount: u64,
    rate: u64,
    name: String,
    found: Option<(Address, u8)>,
) -> (result: Result<Step, TokenSaleError>)
    ensures
        initialize_at_post(*ctx, amount, rate, name@, found, result),
{
    let (escrow, bump) = match found {
        Some(found) => found,
        None => {
            return Err(TokenSaleError::DerivationFailed);
        },
    };
    if ctx.escrow_pda.is_some() || ctx.sale_token_account.same(&escrow)
        || ctx.sale_token_account.same(&ctx.admin) || ctx.sale_token_account.same(
        &ctx.admin_token_account.address,
    ) {
        return Err(TokenSaleError::AlreadyExists);
    }
    if rate == 0 {
        return Err(TokenSaleError::InvalidRate);
    }
    if ctx.admin_token_account.amount < amount {
        return Err(TokenSaleError::InsufficientBalance);
    }
    let mut instructions: Vec<LedgerInstruction> = Vec::new();
    instructions.push(
        LedgerInstruction::CreateAccount {
            payer: ctx.admin,
            new_address: escrow,
            size_bytes: EscrowAccount::space(),
        },
    );
    instructions.push(
        LedgerInstruction::CreateAccount {
            payer: ctx.admin,
            new_address: ctx.sale_token_account,
            size_bytes: HOLDING_ACCOUNT_SPACE,
        },
    );
    instructions.push(
        LedgerInstruction::SetAuthority { account: ctx.sale_token_account, new_authority: escrow },
    );
    instructions.push(
        LedgerInstruction::Transfer {
            from: ctx.admin_token_account.address,
            to: ctx.sale_token_account,
            authority: Authority::Signer(ctx.admin),
            amount,
        },
    );
    assert(instructions@ =~= initialize_instructions(*ctx, escrow, amount));
    let record = EscrowAccount {
        admin: ctx.admin,
        holding_account: ctx.sale_token_account,
        name,
        rate,
        total_supply: amount,
        remaining_supply: amount,
        bump,
    };
    Ok(Step { escrow, record: Some(record), granted: 0, instructions })
}

/// Creates the sale called `name`: `amount` units at `rate` units per unit of
/// payment, at the address that the search from the highest bump finds.
/// Decides only; the caller has the ledger carry out the step.
pub fn initialize(ctx: &Initialize, amount: u64, rate: u64, name: String) -> (result: Result<
    Step,
    TokenSaleError,
>)
    ensures
        initialize_post(*ctx, amount, rate, name@, result),
{
    let found = match derive_address(sale_seed_list(&name), &ctx.program_id, START_BUMP) {
        Ok(found) => Some(found),
        Err(_) => None,
    };
    proof {
        if found.is_some() {
            found_seeds_fit(sale_seeds(name@), ctx.program_id@, START_BUMP);
            assert(sale_seeds(name@)[1] == name_bytes(name@));
        }
    }
    initialize_at(ctx, amount, rate, name, found)
}

/// The units that a payment buys at a rate.
pub open spec fn granted_for(rate: u64, payment: u64) -> int {
    payment * rate
}

/// The sale holds nothing, or less than the payment would buy.
pub open spec fn supply_falls_short(record: EscrowView, payment: u64) -> bool {
    record.remaining_supply == 0 || granted_for(record.rate, payment) > record.remaining_supply
}

/// The record once a payment has been served: the supply that remains goes
/// down by what was granted, and nothing else changes.
pub open spec fn record_after_exchange(record: EscrowView, payment: u64) -> EscrowView {
    EscrowView {
        remaining_supply: (record.remaining_supply - granted_for(record.rate, payment)) as u64,
        ..record
    }
}

/// The authority of a sale over its holding account.
pub open spec fn sale_authority(escrow: Address, record: EscrowAccount) -> Authority {
    Authority::Derived { address: escrow, bump: record.bump }
}

/// What the ledger is told when a payment is served: move the payment from
/// the buyer to the administrator on the buyer's signature, and move what was
/// granted from the holding account to the buyer on the sale's own authority.
pub open spec fn exchange_instructions(
    ctx: Exchange,
    record: EscrowAccount,
    escrow: Address,
    payment: u64,
) -> Seq<LedgerInstruction> {
    seq![
        LedgerInstruction::Transfer {
            from: ctx.user,
            to: record.admin,
            authority: Authority::Signer(ctx.user),
            amount: payment,
        },
        LedgerInstruction::Transfer {
            from: record.holding_account,
            to: ctx.user_token_account,
            authority: sale_authority(escrow, record),
            amount: granted_for(record.rate, payment) as u64,
        },
    ]
}

/// Why Exchange is refused, given the address that the record's bump gives
/// the sale. In this order: no sale under the name; too little left in the
/// sale, whoever the buyer; a buyer who names the holding account as their
/// own; too little payment held by the buyer; no address at the record's
/// bump.
pub open spec fn exchange_refusal_at(
    ctx: Exchange,
    name: Seq<char>,
    payment: u64,
    escrow: Option<Seq<u8>>,
) -> Option<TokenSaleError> {
    match ctx.escrow_pda {
        None => Some(TokenSaleError::NotFound),
        Some(record) => if record.name@ != name {
            Some(TokenSaleError::NotFound)
        } else if supply_falls_short(record@, payment) {
            Some(TokenSaleError::InsufficientSupply)
        } else if ctx.user@ == record.holding_account@ || ctx.user_token_account@
            == record.holding_account@ {
            Some(TokenSaleError::Unauthorized)
        } else if ctx.user_balance < payment {
            Some(TokenSaleError::InsufficientBalance)
        } else if escrow.is_none() {
            Some(TokenSaleError::DerivationFailed)
        } else {
            None
        },
    }
}

/// The address of the sale that a record stands for, derived again from the
/// tag, the name and the record's bump.
pub open spec fn record_address(
    program_id: Seq<u8>,
    name: Seq<char>,
    record: Option<EscrowAccount>,
) -> Option<Seq<u8>> {
    match record {
        Some(record) => address_at(sale_seeds(name), program_id, record.bump),
        None => None,
    }
}

/// Why Exchange is refused, if it is.
pub open spec fn exchange_refusal(ctx: Exchange, name: Seq<char>, payment: u64) -> Option<
    TokenSaleError,
> {
    exchange_refusal_at(
        ctx,
        name,
        payment,
        record_address(ctx.program_id@, name, ctx.escrow_pda),
    )
}

/// An address as plain bytes, if there is one.
pub open spec fn address_view(address: Option<Address>) -> Option<Seq<u8>> {
    match address {
        Some(address) => Some(address@),
        None => None,
    }
}

/// What `exchange_at` returns on each input.
pub open spec fn exchange_at_post(
    ctx: Exchange,
    name: Seq<char>,
    payment: u64,
    escrow: Option<Address>,
    result: Result<Step, TokenSaleError>,
) -> bool {
    match result {
        Err(e) => exchange_refusal_at(ctx, name, payment, address_view(escrow)) == Some(e),
        Ok(step) => {
            &&& exchange_refusal_at(ctx, name, payment, address_view(escrow)).is_none()
            &&& ctx.escrow_pda.is_some()
            &&& Some(step.escrow) == escrow
            &&& step.granted == granted_for(ctx.escrow_pda.unwrap().rate, payment)
            &&& step.record.is_some()
            &&& step.record.unwrap()@ == record_after_exchange(ctx.escrow_pda.unwrap()@, payment)
            &&& step.instructions@ == exchange_instructions(
                ctx,
                ctx.escrow_pda.unwrap(),
                step.escrow,
                payment,
            )
        },
    }
}

/// What Exchange returns on each input.
pub open spec fn exchange_post(
    ctx: Exchange,
    name: Seq<char>,
    payment: u64,
    result: Result<Step, TokenSaleError>,
) -> bool {
    match result {
        Err(e) => exchange_refusal(ctx, name, payment) == Some(e),
        Ok(step) => {
            &&& exchange_refusal(ctx, name, payment).is_none()
            &&& !on_curve(step.escrow@)
            &&& ctx.escrow_pda.is_some()
            &&& Some(step.escrow@) == address_at(
                sale_seeds(name),
                ctx.program_id@,
                ctx.escrow_pda.unwrap().bump,
            )
            &&& step.granted == granted_for(ctx.escrow_pda.unwrap().rate, payment)
            &&& step.record.is_some()
            &&& step.record.unwrap()@ == record_after_exchange(ctx.escrow_pda.unwrap()@, payment)
            &&& step.instructions@ == exchange_instructions(
                ctx,
                ctx.escrow_pda.unwrap(),
                step.escrow,
                payment,
            )
        },
    }
}

/// Serves a payment of `payment` units against the sale called `name`, whose
/// address at the record's bump is `escrow`: grants `payment` times the rate,
/// out of what remains.
pub fn exchange_at(ctx: &Exchange, name: String, payment: u64, escrow: Option<Address>) -> (result:
    Result<Step, TokenSaleError>)
    ensures
        exchange_at_post(*ctx, name@, payment, escrow, result),
{
    let record = match &ctx.escrow_pda {
        Some(record) => record,
        None => {
            return Err(TokenSaleError::NotFound);
        },
    };
    if record.name != name {
        return Err(TokenSaleError::NotFound);
    }
    if record.remaining_supply == 0 {
        return Err(TokenSaleError::InsufficientSupply);
    }
    let granted: u64 = match payment.checked_mul(record.rate) {
        Some(granted) => granted,
        None => {
            return Err(TokenSaleError::InsufficientSupply);
        },
    };
    if granted > record.remaining_supply {
        return Err(TokenSaleError::InsufficientSupply);
    }
    if ctx.user.same(&record.holding_account) || ctx.user_token_account.same(
        &record.holding_account,
    ) {
        return Err(TokenSaleError::Unauthorized);
    }
    if ctx.user_balance < payment {
        return Err(TokenSaleError::InsufficientBalance);
    }
    let escrow = match escrow {
        Some(escrow) => escrow,
        None => {
            return Err(TokenSaleError::DerivationFailed);
        },
    };
    let mut instructions: Vec<LedgerInstruction> = Vec::new();
    instructions.push(
        LedgerInstruction::Transfer {
            from: ctx.user,
            to: record.admin,
            authority: Authority::Signer(ctx.user),
            amount: payment,
        },
    );
    instructions.push(
        LedgerInstruction::Transfer {
            from: record.holding_account,
            to: ctx.user_token_account,
            authority: Authority::Derived { address: escrow, bump: record.bump },
            amount: granted,
        },
    );
    assert(instructions@ =~= exchange_instructions(*ctx, *record, escrow, payment));
    let next = EscrowAccount {
        admin: record.admin,
        holding_account: record.holding_account,
        name,
        rate: record.rate,
        total_supply: record.total_supply,
        remaining_supply: record.remaining_supply - granted,
        bump: record.bump,
    };
    Ok(Step { escrow, record: Some(next), granted, instructions })
}

/// The address that a record's bump gives the sale called `name`, if the
/// context holds a record and the bump gives one.
fn rederive(program_id: &Address, name: &String, record: &Option<EscrowAccount>) -> (escrow:
    Option<Address>)
    ensures
        address_view(escrow) == record_address(program_id@, name@, *record),
        escrow.is_some() ==> !on_curve(escrow.unwrap()@),
{
    match record {
        Some(record) => address_with_bump(sale_seed_list(name), program_id, record.bump),
        None => None,
    }
}

/// Serves a payment of `payment` units against the sale called `name`: grants
/// `payment` times the rate, out of what remains. Decides only; the caller has
/// the ledger carry out the step.
pub fn exchange(ctx: &Exchange, name: String, payment: u64) -> (result: Result<
    Step,
    TokenSaleError,
>)
    ensures
        exchange_post(*ctx, name@, payment, result),
{
    let escrow = rederive(&ctx.program_id, &name, &ctx.escrow_pda);
    exchange_at(ctx, name, payment, escrow)
}

/// What the ledger is told when a sale is cancelled: move all that remains
/// back to the administrator's account, close the holding account, and close
/// the record, each on the sale's own authority; what the two accounts leased
/// goes to the administrator.
pub open spec fn cancel_instructions(ctx: Cancel, record: EscrowAccount, escrow: Address) -> Seq<
    LedgerInstruction,
> {
    seq![
        LedgerInstruction::Transfer {
            from: record.holding_account,
            to: ctx.admin_token_account,
            authority: sale_authority(escrow, record),
            amount: record.remaining_supply,
        },
        LedgerInstruction::CloseAccount {
            account: record.holding_account,
            destination: ctx.admin,
            authority: sale_authority(escrow, record),
        },
        LedgerInstruction::CloseAccount {
            account: escrow,
            destination: ctx.admin,
            authority: sale_authority(escrow, record),
        },
    ]
}

/// Why Cancel is refused, given the address that the record's bump gives the
/// sale: no sale under the name; a signer who is not the sale's administrator,
/// or who names the holding account as the account to refund; no address at
/// the record's bump.
pub open spec fn cancel_refusal_at(ctx: Cancel, name: Seq<char>, escrow: Option<Seq<u8>>)
    -> Option<TokenSaleError> {
    match ctx.escrow_pda {
        None => Some(TokenSaleError::NotFound),
        Some(record) => if record.name@ != name {
            Some(TokenSaleError::NotFound)
        } else if ctx.admin@ != record.admin@ || ctx.admin_token_account@
            == record.holding_account@ {
            Some(TokenSaleError::Unauthorized)
        } else if escrow.is_none() {
            Some(TokenSaleError::DerivationFailed)
        } else {
            None
        },
    }
}

/// Why Cancel is refused, if it is.
pub open spec fn cancel_refusal(ctx: Cancel, name: Seq<char>) -> Option<TokenSaleError> {
    cancel_refusal_at(ctx, name, record_address(ctx.program_id@, name, ctx.escrow_pda))
}

/// What `cancel_at` returns on each input.
pub open spec fn cancel_at_post(
    ctx: Cancel,
    name: Seq<char>,
    escrow: Option<Address>,
    result: Result<Step, TokenSaleError>,
) -> bool {
    match result {
        Err(e) => cancel_refusal_at(ctx, name, address_view(escrow)) == Some(e),
        Ok(step) => {
            &&& cancel_refusal_at(ctx, name, address_view(escrow)).is_none()
            &&& ctx.escrow_pda.is_some()
            &&& Some(step.escrow) == escrow
            &&& step.granted == 0
            &&& step.record.is_none()
            &&& step.instructions@ == cancel_instructions(
                ctx,
                ctx.escrow_pda.unwrap(),
                step.escrow,
            )
        },
    }
}

/// What Cancel returns on each input.
pub open spec fn cancel_post(ctx: Cancel, name: Seq<char>, result: Result<Step, TokenSaleError>)
    -> bool {
    match result {
        Err(e) => cancel_refusal(ctx, name) == Some(e),
        Ok(step) => {
            &&& cancel_refusal(ctx, name).is_none()
            &&& !on_curve(step.escrow@)
            &&& ctx.escrow_pda.is_some()
            &&& Some(step.escrow@) == address_at(
                sale_seeds(name),
                ctx.program_id@,
                ctx.escrow_pda.unwrap().bump,
            )
            &&& step.granted == 0
            &&& step.record.is_none()
            &&& step.instructions@ == cancel_instructions(
                ctx,
                ctx.escrow_pda.unwrap(),
                step.escrow,
            )
        },
    }
}

/// Cancels the sale called `name`, whose address at the record's bump is
/// `escrow`, for its administrator: what remains goes back, and the holding
/// account and the record are closed in the same step.
pub fn cancel_at(ctx: &Cancel, name: String, escrow: Option<Address>) -> (result: Result<
    Step,
    TokenSaleError,
>)
    ensures
        cancel_at_post(*ctx, name@, escrow, result),
{
    let record = match &ctx.escrow_pda {
        Some(record) => record,
        None => {
            return Err(TokenSaleError::NotFound);
        },
    };
    if record.name != name {
        return Err(TokenSaleError::NotFound);
    }
    if !ctx.admin.same(&record.admin) || ctx.admin_token_account.same(&record.holding_account) {
        return Err(TokenSaleError::Unauthorized);
    }
    let escrow = match escrow {
        Some(escrow) => escrow,
        None => {
            return Err(TokenSaleError::DerivationFailed);
        },
    };
    let authority = Authority::Derived { address: escrow, bump: record.bump };
    let mut instructions: Vec<LedgerInstruction> = Vec::new();
    instructions.push(
        LedgerInstruction::Transfer {
            from: record.holding_account,
            to: ctx.admin_token_account,
            authority,
            amount: record.remaining_supply,
        },
    );
    instructions.push(
        LedgerInstruction::CloseAccount {
            account: record.holding_account,
            destination: ctx.admin,
            authority,
        },
    );
    instructions.push(
        LedgerInstruction::CloseAccount { account: escrow, destination: ctx.admin, authority },
    );
    assert(instructions@ =~= cancel_instructions(*ctx, *record, escrow));
    Ok(Step { escrow, record: None, granted: 0, instructions })
}

/// Cancels the sale called `name` for its administrator: what remains goes
/// back, and the holding account and the record are closed in the same step.
/// Decides only; the caller has the ledger carry out the step.
pub fn cancel(ctx: &Cancel, name: String) -> (result: Result<Step, TokenSaleError>)
    ensures
        cancel_post(*ctx, name@, result),
{
    let escrow = rederive(&ctx.program_id, &name, &ctx.escrow_pda);
    cancel_at(ctx, name, escrow)
}

/// The record at a sale's address once the ledger has answered: the step's
/// record where the ledger carried out every instruction, and the record as it
/// was, with `LedgerTransferFailed`, where it rejected one.
pub fn commit(before: Option<EscrowAccount>, step: Step, accepted: bool) -> (outcome: (
    Option<EscrowAccount>,
    Result<(), TokenSaleError>,
))
    ensures
        accepted ==> outcome.0 == step.record && outcome.1 == Ok::<(), TokenSaleError>(()),
        !accepted ==> outcome.0 == before && outcome.1 == Err::<(), TokenSaleError>(
            TokenSaleError::LedgerTransferFailed,
        ),
{
    if accepted {
        (step.record, Ok(()))
    } else {
        (before, Err(TokenSaleError::LedgerTransferFailed))
    }
}

} // verus!
