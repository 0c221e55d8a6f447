use my_user_card::card::{
    price_for, AccountStatus, CardType, ErrorCode, UserCardAccount, BRONZE_PRICE, GOLD_PRICE,
    PLATINUM_PRICE, SILVER_PRICE,
};
use my_user_card::key::Key;
use my_user_card::program::{
    deactivate, initialize_user_card, upgrade_card, withdraw_funds, InitializeUserCard,
    UserCardProgram, Wallet, WithdrawFunds,
};

const ADMIN_BYTES: [u8; 32] = [
    3, 207, 132, 230, 129, 58, 172, 33, 122, 8, 38, 166, 25, 70, 76, 254, 173, 16, 86, 40, 227,
    225, 48, 219, 1, 139, 10, 135, 92, 64, 155, 105,
];

fn key(b: u8) -> Key {
    Key::new([b; 32])
}

fn admin() -> Key {
    Key::new(ADMIN_BYTES)
}

fn buyer(b: u8, lamports: u64) -> InitializeUserCard {
    InitializeUserCard { authority: Wallet { key: key(b), lamports, tokens: 0 } }
}

fn program_with_card(owner: u8, card_type: CardType, paid: u64) -> UserCardProgram {
    let mut p = UserCardProgram::new(admin());
    let mut ctx = buyer(owner, paid);
    assert_eq!(initialize_user_card(&mut p, &mut ctx, card_type, paid), Ok(()));
    p
}

#[test]
fn prices_of_each_tier() {
    assert_eq!(price_for(CardType::Bronze), 125_000_000);
    assert_eq!(price_for(CardType::Silver), 250_000_000);
    assert_eq!(price_for(CardType::Gold), 500_000_000);
    assert_eq!(price_for(CardType::Platinum), 1_000_000_000);
    assert_eq!(BRONZE_PRICE + SILVER_PRICE + GOLD_PRICE, 875_000_000);
    assert_eq!(PLATINUM_PRICE, 1_000_000_000);
}

#[test]
fn record_space() {
    assert_eq!(UserCardAccount::SPACE, 58);
}

#[test]
fn gold_one_lamport_short_fails() {
    let mut p = UserCardProgram::new(admin());
    let mut ctx = buyer(1, 1_000_000_000);
    let r = initialize_user_card(&mut p, &mut ctx, CardType::Gold, 499_999_999);
    assert_eq!(r, Err(ErrorCode::InsufficientPayment));
    assert!(p.card(&key(1)).is_none());
    assert_eq!(ctx.authority.lamports, 1_000_000_000);
    assert_eq!(ctx.authority.tokens, 0);
}

#[test]
fn gold_at_price_succeeds() {
    let mut p = UserCardProgram::new(admin());
    let mut ctx = buyer(1, 1_000_000_000);
    let r = initialize_user_card(&mut p, &mut ctx, CardType::Gold, 500_000_000);
    assert_eq!(r, Ok(()));
    let e = p.card(&key(1)).unwrap();
    assert_eq!(e.account.card_type, CardType::Gold);
    assert_eq!(e.account.owner, key(1));
}

#[test]
fn every_tier_at_and_below_price() {
    let tiers = [CardType::Bronze, CardType::Silver, CardType::Gold, CardType::Platinum];
    for (i, t) in tiers.iter().enumerate() {
        let price = price_for(*t);
        let mut p = UserCardProgram::new(admin());
        let mut short = buyer(i as u8, price);
        assert_eq!(
            initialize_user_card(&mut p, &mut short, *t, price - 1),
            Err(ErrorCode::InsufficientPayment)
        );
        let mut exact = buyer(i as u8, price);
        assert_eq!(initialize_user_card(&mut p, &mut exact, *t, price), Ok(()));
    }
}

#[test]
fn purchase_mints_one_to_one_and_holds_payment() {
    let mut p = UserCardProgram::new(admin());
    let mut ctx = buyer(2, 2_000_000_000);
    ctx.authority.tokens = 7;
    assert_eq!(initialize_user_card(&mut p, &mut ctx, CardType::Silver, 300_000_000), Ok(()));
    let e = p.card(&key(2)).unwrap();
    assert_eq!(e.account.amount_paid, 300_000_000);
    assert_eq!(e.account.tokens_minted, 300_000_000);
    assert_eq!(e.lamports, 300_000_000);
    assert_eq!(e.account.status, AccountStatus::Active);
    assert_eq!(ctx.authority.lamports, 1_700_000_000);
    assert_eq!(ctx.authority.tokens, 300_000_007);
}

#[test]
fn second_purchase_by_same_owner_is_duplicate() {
    let mut p = UserCardProgram::new(admin());
    let mut first = buyer(3, 5_000_000_000);
    assert_eq!(initialize_user_card(&mut p, &mut first, CardType::Bronze, 125_000_000), Ok(()));
    let mut again = buyer(3, 5_000_000_000);
    assert_eq!(
        initialize_user_card(&mut p, &mut again, CardType::Platinum, 1_000_000_000),
        Err(ErrorCode::DuplicateAccount)
    );
    assert_eq!(again.authority.lamports, 5_000_000_000);
    assert_eq!(p.card(&key(3)).unwrap().account.card_type, CardType::Bronze);
}

#[test]
fn other_owner_can_still_buy() {
    let mut p = program_with_card(4, CardType::Gold, 500_000_000);
    let mut other = buyer(5, 500_000_000);
    assert_eq!(initialize_user_card(&mut p, &mut other, CardType::Gold, 500_000_000), Ok(()));
    assert!(p.card(&key(4)).is_some());
    assert!(p.card(&key(5)).is_some());
}

#[test]
fn purchase_without_enough_lamports_fails() {
    let mut p = UserCardProgram::new(admin());
    let mut ctx = buyer(6, 124_999_999);
    assert_eq!(
        initialize_user_card(&mut p, &mut ctx, CardType::Bronze, 125_000_000),
        Err(ErrorCode::InsufficientFunds)
    );
    assert!(p.card(&key(6)).is_none());
}

#[test]
fn purchase_overflowing_token_balance_fails() {
    let mut p = UserCardProgram::new(admin());
    let mut ctx = buyer(7, 1_000_000_000);
    ctx.authority.tokens = u64::MAX - 10;
    assert_eq!(
        initialize_user_card(&mut p, &mut ctx, CardType::Bronze, 125_000_000),
        Err(ErrorCode::ArithmeticError)
    );
    assert_eq!(ctx.authority.lamports, 1_000_000_000);
    assert_eq!(ctx.authority.tokens, u64::MAX - 10);
    assert!(p.card(&key(7)).is_none());
}

#[test]
fn upgrade_by_owner_changes_tier_without_charge() {
    let mut p = program_with_card(8, CardType::Bronze, 125_000_000);
    assert_eq!(upgrade_card(&mut p, &key(8), &key(8), CardType::Platinum), Ok(()));
    let e = p.card(&key(8)).unwrap();
    assert_eq!(e.account.card_type, CardType::Platinum);
    assert_eq!(e.account.amount_paid, 125_000_000);
    assert_eq!(e.lamports, 125_000_000);
}

#[test]
fn upgrade_by_stranger_is_unauthorized() {
    let mut p = program_with_card(9, CardType::Bronze, 125_000_000);
    assert_eq!(
        upgrade_card(&mut p, &key(9), &key(10), CardType::Gold),
        Err(ErrorCode::Unauthorized)
    );
    assert_eq!(
        upgrade_card(&mut p, &key(9), &admin(), CardType::Gold),
        Err(ErrorCode::Unauthorized)
    );
    assert_eq!(p.card(&key(9)).unwrap().account.card_type, CardType::Bronze);
}

#[test]
fn deactivate_by_stranger_is_unauthorized() {
    let mut p = program_with_card(11, CardType::Silver, 250_000_000);
    assert_eq!(deactivate(&mut p, &key(11), &key(12)), Err(ErrorCode::Unauthorized));
    assert_eq!(p.card(&key(11)).unwrap().account.status, AccountStatus::Active);
}

#[test]
fn deactivate_twice_is_a_no_op_success() {
    let mut p = program_with_card(13, CardType::Silver, 250_000_000);
    assert_eq!(deactivate(&mut p, &key(13), &key(13)), Ok(()));
    let once = p.card(&key(13)).unwrap();
    assert_eq!(once.account.status, AccountStatus::Inactive);
    assert_eq!(deactivate(&mut p, &key(13), &key(13)), Ok(()));
    let twice = p.card(&key(13)).unwrap();
    assert_eq!(twice.account.status, AccountStatus::Inactive);
    assert_eq!(twice.account.card_type, once.account.card_type);
    assert_eq!(twice.lamports, once.lamports);
}

#[test]
fn edit_of_missing_card_fails() {
    let mut p = UserCardProgram::new(admin());
    assert_eq!(
        upgrade_card(&mut p, &key(14), &key(14), CardType::Gold),
        Err(ErrorCode::AccountNotInitialized)
    );
    assert_eq!(deactivate(&mut p, &key(14), &key(14)), Err(ErrorCode::AccountNotInitialized));
}

#[test]
fn record_edits_check_owner() {
    let mut a = UserCardAccount {
        owner: key(15),
        card_type: CardType::Bronze,
        amount_paid: 1,
        tokens_minted: 1,
        status: AccountStatus::Active,
    };
    assert_eq!(a.upgrade(&key(16), CardType::Gold), Err(ErrorCode::Unauthorized));
    assert_eq!(a.deactivate(&key(16)), Err(ErrorCode::Unauthorized));
    assert_eq!(a.upgrade(&key(15), CardType::Gold), Ok(()));
    assert_eq!(a.card_type, CardType::Gold);
    assert_eq!(a.deactivate(&key(15)), Ok(()));
    assert_eq!(a.status, AccountStatus::Inactive);
}

#[test]
fn withdraw_by_non_admin_is_unauthorized() {
    let mut p = program_with_card(17, CardType::Gold, 600_000_000);
    for amount in [0u64, 1, 600_000_000, u64::MAX] {
        let mut ctx = WithdrawFunds {
            user_card: key(17),
            admin: Wallet { key: key(17), lamports: 0, tokens: 0 },
        };
        assert_eq!(withdraw_funds(&mut p, &mut ctx, amount), Err(ErrorCode::Unauthorized));
        assert_eq!(ctx.admin.lamports, 0);
    }
    assert_eq!(p.card(&key(17)).unwrap().lamports, 600_000_000);
}

#[test]
fn withdraw_more_than_custody_fails() {
    let mut p = program_with_card(18, CardType::Gold, 500_000_000);
    let mut ctx = WithdrawFunds { user_card: key(18), admin: Wallet { key: admin(), lamports: 5, tokens: 0 } };
    assert_eq!(withdraw_funds(&mut p, &mut ctx, 500_000_001), Err(ErrorCode::InsufficientFunds));
    assert_eq!(ctx.admin.lamports, 5);
    assert_eq!(p.card(&key(18)).unwrap().lamports, 500_000_000);
}

#[test]
fn withdraw_moves_exactly_the_amount() {
    let mut p = program_with_card(19, CardType::Platinum, 1_000_000_000);
    let mut ctx = WithdrawFunds { user_card: key(19), admin: Wallet { key: admin(), lamports: 42, tokens: 0 } };
    assert_eq!(withdraw_funds(&mut p, &mut ctx, 400_000_000), Ok(()));
    let e = p.card(&key(19)).unwrap();
    assert_eq!(e.lamports, 600_000_000);
    assert_eq!(ctx.admin.lamports, 400_000_042);
    assert_eq!(e.lamports + ctx.admin.lamports, 1_000_000_000 + 42);
    // The audit fields keep the purchase figures after a withdrawal.
    assert_eq!(e.account.amount_paid, 1_000_000_000);
    assert_eq!(e.account.tokens_minted, 1_000_000_000);
}

#[test]
fn withdraw_whole_custody() {
    let mut p = program_with_card(20, CardType::Bronze, 125_000_000);
    let mut ctx = WithdrawFunds { user_card: key(20), admin: Wallet { key: admin(), lamports: 0, tokens: 0 } };
    assert_eq!(withdraw_funds(&mut p, &mut ctx, 125_000_000), Ok(()));
    assert_eq!(p.card(&key(20)).unwrap().lamports, 0);
    assert_eq!(ctx.admin.lamports, 125_000_000);
    assert_eq!(withdraw_funds(&mut p, &mut ctx, 1), Err(ErrorCode::InsufficientFunds));
}

#[test]
fn withdraw_overflowing_admin_balance_fails() {
    let mut p = program_with_card(21, CardType::Gold, 500_000_000);
    let mut ctx = WithdrawFunds {
        user_card: key(21),
        admin: Wallet { key: admin(), lamports: u64::MAX - 100, tokens: 0 },
    };
    assert_eq!(withdraw_funds(&mut p, &mut ctx, 101), Err(ErrorCode::ArithmeticError));
    assert_eq!(ctx.admin.lamports, u64::MAX - 100);
    assert_eq!(p.card(&key(21)).unwrap().lamports, 500_000_000);
    assert_eq!(withdraw_funds(&mut p, &mut ctx, 100), Ok(()));
    assert_eq!(ctx.admin.lamports, u64::MAX);
}

#[test]
fn withdraw_from_missing_card_fails() {
    let mut p = UserCardProgram::new(admin());
    let mut ctx = WithdrawFunds { user_card: key(22), admin: Wallet { key: admin(), lamports: 0, tokens: 0 } };
    assert_eq!(withdraw_funds(&mut p, &mut ctx, 1), Err(ErrorCode::AccountNotInitialized));
}

#[test]
fn deployed_program_has_the_parsed_admin() {
    let p = UserCardProgram::deployed().unwrap();
    assert_eq!(p.admin(), admin());
    assert_eq!(p.admin().bytes, ADMIN_BYTES);
    assert!(p.card(&admin()).is_none());
}

#[test]
fn deployed_admin_can_withdraw() {
    let mut p = UserCardProgram::deployed().unwrap();
    let mut b = buyer(23, 125_000_000);
    assert_eq!(initialize_user_card(&mut p, &mut b, CardType::Bronze, 125_000_000), Ok(()));
    let mut ctx = WithdrawFunds { user_card: key(23), admin: Wallet { key: admin(), lamports: 0, tokens: 0 } };
    assert_eq!(withdraw_funds(&mut p, &mut ctx, 25_000_000), Ok(()));
    assert_eq!(ctx.admin.lamports, 25_000_000);
}

#[test]
fn keys_compare_by_every_byte() {
    let a = key(1);
    let mut bytes = [1u8; 32];
    bytes[31] = 2;
    assert_ne!(a, Key::new(bytes));
    assert_eq!(a, Key::new([1u8; 32]));
}

#[test]
fn load_existing_card_then_withdraw() {
    let mut p = UserCardProgram::new(admin());
    let entry = my_user_card::program::CardEntry {
        account: UserCardAccount {
            owner: key(24),
            card_type: CardType::Gold,
            amount_paid: 500_000_000,
            tokens_minted: 500_000_000,
            status: AccountStatus::Active,
        },
        lamports: 502_000_000,
    };
    assert_eq!(p.load(entry), Ok(()));
    assert_eq!(p.load(entry), Err(ErrorCode::DuplicateAccount));
    let mut ctx = WithdrawFunds { user_card: key(24), admin: Wallet { key: admin(), lamports: 0, tokens: 0 } };
    assert_eq!(withdraw_funds(&mut p, &mut ctx, 502_000_000), Ok(()));
    assert_eq!(p.card(&key(24)).unwrap().lamports, 0);
}
