use vstd::prelude::*;
use crate::card::{AccountStatus, CardType, ErrorCode, price_of};
use crate::key::Key;
use crate::program::{
    CardEntry, Wallet, deactivate_outcome, drawn_cards, paid_wallet, purchase_error, purchased_entry, upgrade_outcome,
    withdraw_error,
};

verus! {

/// For every tier, a buyer who has no card yet, can pay, and whose token
/// balance has room is sold the card exactly when the payment reaches the
/// tier's price; below it the purchase fails with `InsufficientPayment`.
pub proof fn purchase_succeeds_iff_price_met(
    cards: Map<Seq<u8>, CardEntry>,
    authority: Wallet,
    card_type: CardType,
    amount_paid: u64,
)
    requires
        !cards.contains_key(authority.key@),
        authority.lamports >= amount_paid,
        authority.tokens + amount_paid <= u64::MAX,
    ensures
        purchase_error(cards, authority, card_type, amount_paid) is None <==> amount_paid >= price_of(card_type),
        amount_paid < price_of(card_type) ==> purchase_error(cards, authority, card_type, amount_paid)
            == Some(ErrorCode::InsufficientPayment),
{
}

/// A successful purchase records as many minted tokens as lamports paid, the
/// new card account holds exactly the payment in custody, and the buyer's
/// lamports went down by that payment while the token balance went up by it.
pub proof fn purchase_mints_what_was_paid(
    cards: Map<Seq<u8>, CardEntry>,
    authority: Wallet,
    card_type: CardType,
    amount_paid: u64,
)
    requires
        purchase_error(cards, authority, card_type, amount_paid) is None,
    ensures
        ({
            let e = cards.insert(authority.key@, purchased_entry(authority.key, card_type, amount_paid))[authority.key@];
            &&& e.account.amount_paid == amount_paid
            &&& e.account.tokens_minted == amount_paid
            &&& e.lamports == amount_paid
            &&& e.account.owner@ == authority.key@
            &&& e.account.status == AccountStatus::Active
        }),
        paid_wallet(authority, amount_paid).lamports + amount_paid == authority.lamports,
        paid_wallet(authority, amount_paid).tokens == authority.tokens + amount_paid,
{
}

/// Once a purchase by an owner has succeeded, every later purchase by the
/// same owner fails with `DuplicateAccount`, whatever tier or payment.
pub proof fn second_purchase_is_duplicate(
    cards: Map<Seq<u8>, CardEntry>,
    first: Wallet,
    card_type: CardType,
    amount_paid: u64,
    second: Wallet,
    next_type: CardType,
    next_amount: u64,
)
    requires
        purchase_error(cards, first, card_type, amount_paid) is None,
        second.key@ == first.key@,
    ensures
        purchase_error(
            cards.insert(first.key@, purchased_entry(first.key, card_type, amount_paid)),
            second,
            next_type,
            next_amount,
        ) == Some(ErrorCode::DuplicateAccount),
{
}

/// On an existing card, an upgrade or a deactivation fails with
/// `Unauthorized` exactly when the caller is not the recorded owner, and
/// succeeds when it is.
pub proof fn only_owner_edits(cards: Map<Seq<u8>, CardEntry>, card: Key, caller: Key, new_type: CardType)
    requires
        cards.contains_key(card@),
    ensures
        upgrade_outcome(cards, card, caller, new_type) == Err::<Map<Seq<u8>, CardEntry>, ErrorCode>(
            ErrorCode::Unauthorized,
        ) <==> caller@ != cards[card@].account.owner@,
        deactivate_outcome(cards, card, caller) == Err::<Map<Seq<u8>, CardEntry>, ErrorCode>(
            ErrorCode::Unauthorized,
        ) <==> caller@ != cards[card@].account.owner@,
        caller@ == cards[card@].account.owner@ ==> upgrade_outcome(cards, card, caller, new_type) is Ok
            && deactivate_outcome(cards, card, caller) is Ok,
{
}

/// Deactivating a card a second time succeeds and changes nothing.
pub proof fn deactivate_is_idempotent(cards: Map<Seq<u8>, CardEntry>, card: Key, caller: Key)
    requires
        deactivate_outcome(cards, card, caller) is Ok,
    ensures
        deactivate_outcome(deactivate_outcome(cards, card, caller)->Ok_0, card, caller)
            == Ok::<Map<Seq<u8>, CardEntry>, ErrorCode>(deactivate_outcome(cards, card, caller)->Ok_0),
{
    let m = deactivate_outcome(cards, card, caller)->Ok_0;
    let again = deactivate_outcome(m, card, caller)->Ok_0;
    assert(again =~= m);
}

/// A withdrawal by anyone but the administrator fails with `Unauthorized`,
/// whatever the amount; one by the administrator of more than the card
/// account holds fails with `InsufficientFunds`; and a successful one moves
/// exactly `amount` from the custody balance to the administrator's, so that
/// their total is unchanged.
pub proof fn withdraw_guards_and_conserves(
    admin: Key,
    cards: Map<Seq<u8>, CardEntry>,
    card: Key,
    caller: Wallet,
    amount: u64,
)
    ensures
        caller.key@ != admin@ ==> withdraw_error(admin, cards, card, caller, amount) == Some(
            ErrorCode::Unauthorized,
        ),
        caller.key@ == admin@ && cards.contains_key(card@) && amount > cards[card@].lamports
            ==> withdraw_error(admin, cards, card, caller, amount) == Some(ErrorCode::InsufficientFunds),
        withdraw_error(admin, cards, card, caller, amount) is None ==> {
            let after = drawn_cards(cards, card, amount)[card@].lamports;
            &&& after == cards[card@].lamports - amount
            &&& after + (caller.lamports + amount) == cards[card@].lamports + caller.lamports
        },
{
}

/// A withdrawal by the administrator that the card account could cover, but
/// that would overflow the administrator's balance, fails with
/// `ArithmeticError`.
pub proof fn withdraw_overflow_fails(
    admin: Key,
    cards: Map<Seq<u8>, CardEntry>,
    card: Key,
    caller: Wallet,
    amount: u64,
)
    requires
        caller.key@ == admin@,
        cards.contains_key(card@),
        amount <= cards[card@].lamports,
        caller.lamports + amount > u64::MAX,
    ensures
        withdraw_error(admin, cards, card, caller, amount) == Some(ErrorCode::ArithmeticError),
{
}

} // verus!
