use token_sale::escrow::MAX_NAME_LEN;
use token_sale::{
    apply_to_balance, settle_balance, Address, Authority, EscrowAccount, LedgerInstruction,
    TokenSaleError,
};

fn addr(byte: u8) -> Address {
    Address { bytes: [byte; 32] }
}

fn record(name: &str) -> EscrowAccount {
    EscrowAccount {
        admin: addr(1),
        holding_account: addr(3),
        name: name.to_string(),
        rate: 10,
        total_supply: 1000,
        remaining_supply: 950,
        bump: 254,
    }
}

fn transfer(from: u8, to: u8, amount: u64) -> LedgerInstruction {
    LedgerInstruction::Transfer {
        from: addr(from),
        to: addr(to),
        authority: Authority::Signer(addr(from)),
        amount,
    }
}

#[test]
fn space_is_the_exact_size_of_the_longest_record() {
    assert_eq!(EscrowAccount::space(), 229);
    assert_eq!(EscrowAccount::space(), 8 + 32 + 32 + 4 + 128 + 8 + 8 + 8 + 1);
    assert_eq!(MAX_NAME_LEN, 128);
}

#[test]
fn stored_length_grows_with_the_name() {
    assert_eq!(record("").stored_len(), 101);
    assert_eq!(record("sale1").stored_len(), 106);
    assert_eq!(record(&"x".repeat(128)).stored_len(), EscrowAccount::space());
    // a name is measured in bytes
    assert_eq!(record("é").stored_len(), 103);
}

#[test]
fn stored_length_asks_only_for_a_name_that_fits() {
    let mut odd = record("sale1");
    odd.rate = 0;
    odd.remaining_supply = 2000;
    odd.holding_account = odd.admin;
    assert!(!odd.is_well_formed());
    assert_eq!(odd.stored_len(), 106);
}

#[test]
fn well_formed_records() {
    assert!(record("sale1").is_well_formed());
    assert!(record(&"x".repeat(128)).is_well_formed());
    assert!(!record(&"x".repeat(129)).is_well_formed());
    let mut zero_rate = record("sale1");
    zero_rate.rate = 0;
    assert!(!zero_rate.is_well_formed());
    let mut over = record("sale1");
    over.remaining_supply = 1001;
    assert!(!over.is_well_formed());
    let mut own = record("sale1");
    own.holding_account = own.admin;
    assert!(!own.is_well_formed());
}

#[test]
fn transfer_moves_between_two_accounts() {
    let t = transfer(1, 2, 30);
    assert_eq!(apply_to_balance(&t, &addr(1), 100), Some(70));
    assert_eq!(apply_to_balance(&t, &addr(2), 100), Some(130));
    assert_eq!(apply_to_balance(&t, &addr(3), 100), Some(100));
}

#[test]
fn transfer_of_more_than_held_is_rejected() {
    assert_eq!(apply_to_balance(&transfer(1, 2, 101), &addr(1), 100), None);
    assert_eq!(apply_to_balance(&transfer(1, 2, 100), &addr(1), 100), Some(0));
    assert_eq!(apply_to_balance(&transfer(1, 1, 101), &addr(1), 100), None);
}

#[test]
fn transfer_past_the_largest_balance_is_rejected() {
    assert_eq!(apply_to_balance(&transfer(1, 2, 1), &addr(2), u64::MAX), None);
    assert_eq!(apply_to_balance(&transfer(1, 2, 1), &addr(2), u64::MAX - 1), Some(u64::MAX));
}

#[test]
fn transfer_to_itself_moves_nothing() {
    assert_eq!(apply_to_balance(&transfer(1, 1, 30), &addr(1), 100), Some(100));
}

#[test]
fn created_and_closed_accounts_hold_nothing() {
    let create =
        LedgerInstruction::CreateAccount { payer: addr(1), new_address: addr(2), size_bytes: 165 };
    assert_eq!(apply_to_balance(&create, &addr(2), 9), Some(0));
    assert_eq!(apply_to_balance(&create, &addr(1), 9), Some(9));
    let close = LedgerInstruction::CloseAccount {
        account: addr(2),
        destination: addr(1),
        authority: Authority::Derived { address: addr(5), bump: 255 },
    };
    assert_eq!(apply_to_balance(&close, &addr(2), 9), Some(0));
    assert_eq!(apply_to_balance(&close, &addr(1), 9), Some(9));
    let set = LedgerInstruction::SetAuthority { account: addr(2), new_authority: addr(5) };
    assert_eq!(apply_to_balance(&set, &addr(2), 9), Some(9));
}

#[test]
fn instructions_settle_in_order() {
    let list = vec![transfer(1, 2, 30), transfer(2, 3, 40), transfer(3, 1, 5)];
    assert_eq!(settle_balance(&list, &addr(1), 100), Some(75));
    assert_eq!(settle_balance(&list, &addr(2), 10), Some(0));
    assert_eq!(settle_balance(&list, &addr(2), 9), None);
    assert_eq!(settle_balance(&list, &addr(3), 0), Some(35));
    assert_eq!(settle_balance(&Vec::new(), &addr(3), 12), Some(12));
}

#[test]
fn every_error_has_its_message() {
    assert_eq!(TokenSaleError::DerivationFailed.message(), "Unable to get escrow bump");
    assert_eq!(TokenSaleError::InsufficientBalance.message(), "Insufficient balance");
    assert_eq!(TokenSaleError::InsufficientSupply.message(), "Insufficient remaining supply");
    assert_eq!(TokenSaleError::Unauthorized.message(), "Signer is not authorized");
    assert_eq!(TokenSaleError::AlreadyExists.message(), "Sale already exists");
    assert_eq!(TokenSaleError::NotFound.message(), "Sale not found");
    assert_eq!(TokenSaleError::InvalidRate.message(), "Exchange rate must be positive");
    assert_eq!(TokenSaleError::LedgerTransferFailed.message(), "Ledger rejected the instruction");
}

#[test]
fn holding_account_space_is_the_size_of_a_token_account() {
    assert_eq!(
        token_sale::ledger::HOLDING_ACCOUNT_SPACE,
        anchor_spl::token::TokenAccount::LEN
    );
}
