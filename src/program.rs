use vstd::prelude::*;
use crate::card::{AccountStatus, CardType, ErrorCode, UserCardAccount, price_for, price_of};
use crate::key::{Key, base58_key, parse_key};

verus! {

/// The administrator of the deployed program, as a base58 key.
pub const ADMIN_PUBKEY: &'static str = "Fskji1sm9H8QwZBGmuRTTie6B111RhCfLtbALMaNRkt";

/// A principal's own balances: lamports in the wallet and units of the card
/// token in the token account that receives what is minted.
#[derive(Clone, Copy, Debug)]
pub struct Wallet {
    pub key: Key,
    pub lamports: u64,
    pub tokens: u64,
}

/// A card account: the stored record, and the lamports the account holds in
/// custody.
#[derive(Clone, Copy, Debug)]
pub struct CardEntry {
    pub account: UserCardAccount,
    pub lamports: u64,
}

/// The accounts of a purchase: the buyer, who signs and pays.
#[derive(Clone, Copy, Debug)]
pub struct InitializeUserCard {
    pub authority: Wallet,
}

/// The accounts of a withdrawal: the address of the card account to draw
/// from, and the signer who receives the lamports.
#[derive(Clone, Copy, Debug)]
pub struct WithdrawFunds {
    pub user_card: Key,
    pub admin: Wallet,
}

/// The program's state: the fixed administrator, and one card account per
/// owner, keyed by the owner's identity.
pub struct UserCardProgram {
    admin: Key,
    entries: Vec<CardEntry>,
    index: Ghost<Map<Seq<u8>, CardEntry>>,
}

/// The right to mint on behalf of one card account. Only this module makes
/// one, and only for the account derived from the buyer.
struct MintAuthority {
    card: Key,
}

/// The card account that a purchase creates.
pub open spec fn purchased_entry(owner: Key, card_type: CardType, amount_paid: u64) -> CardEntry {
    CardEntry {
        account: UserCardAccount {
            owner,
            card_type,
            amount_paid,
            tokens_minted: amount_paid,
            status: AccountStatus::Active,
        },
        lamports: amount_paid,
    }
}

/// Why a purchase fails, checked in this order; `None` when it succeeds.
pub open spec fn purchase_error(
    cards: Map<Seq<u8>, CardEntry>,
    authority: Wallet,
    card_type: CardType,
    amount_paid: u64,
) -> Option<ErrorCode> {
    if cards.contains_key(authority.key@) {
        Some(ErrorCode::DuplicateAccount)
    } else if amount_paid < price_of(card_type) {
        Some(ErrorCode::InsufficientPayment)
    } else if authority.lamports < amount_paid {
        Some(ErrorCode::InsufficientFunds)
    } else if authority.tokens + amount_paid > u64::MAX {
        Some(ErrorCode::ArithmeticError)
    } else {
        None
    }
}

/// The buyer after a purchase: paid `amount_paid` lamports and was minted as
/// many tokens.
pub open spec fn paid_wallet(w: Wallet, amount_paid: u64) -> Wallet {
    Wallet { key: w.key, lamports: (w.lamports - amount_paid) as u64, tokens: (w.tokens + amount_paid) as u64 }
}

/// Why a withdrawal fails, checked in this order; `None` when it succeeds.
pub open spec fn withdraw_error(
    admin: Key,
    cards: Map<Seq<u8>, CardEntry>,
    card: Key,
    caller: Wallet,
    amount: u64,
) -> Option<ErrorCode> {
    if caller.key@ != admin@ {
        Some(ErrorCode::Unauthorized)
    } else if !cards.contains_key(card@) {
        Some(ErrorCode::AccountNotInitialized)
    } else if cards[card@].lamports < amount {
        Some(ErrorCode::InsufficientFunds)
    } else if caller.lamports + amount > u64::MAX {
        Some(ErrorCode::ArithmeticError)
    } else {
        None
    }
}

/// The cards after a successful withdrawal of `amount` from `card`.
pub open spec fn drawn_cards(cards: Map<Seq<u8>, CardEntry>, card: Key, amount: u64) -> Map<Seq<u8>, CardEntry> {
    cards.insert(card@, CardEntry { lamports: (cards[card@].lamports - amount) as u64, ..cards[card@] })
}

/// The outcome of an owner's edit of the card at `card`, given how it
/// changes the record.
pub open spec fn edited_cards(
    cards: Map<Seq<u8>, CardEntry>,
    card: Key,
    edit: Result<UserCardAccount, ErrorCode>,
) -> Result<Map<Seq<u8>, CardEntry>, ErrorCode> {
    if !cards.contains_key(card@) {
        Err(ErrorCode::AccountNotInitialized)
    } else {
        match edit {
            Ok(a) => Ok(cards.insert(card@, CardEntry { account: a, ..cards[card@] })),
            Err(e) => Err(e),
        }
    }
}

/// The outcome of `upgrade_card`.
pub open spec fn upgrade_outcome(
    cards: Map<Seq<u8>, CardEntry>,
    card: Key,
    caller: Key,
    new_type: CardType,
) -> Result<Map<Seq<u8>, CardEntry>, ErrorCode> {
    edited_cards(cards, card, cards[card@].account.upgrade_spec(caller, new_type))
}

/// The outcome of `deactivate`.
pub open spec fn deactivate_outcome(
    cards: Map<Seq<u8>, CardEntry>,
    card: Key,
    caller: Key,
) -> Result<Map<Seq<u8>, CardEntry>, ErrorCode> {
    edited_cards(cards, card, cards[card@].account.deactivate_spec(caller))
}

impl UserCardProgram {
    /// The administrator, the one identity that may withdraw.
    pub closed spec fn admin_key(&self) -> Key {
        self.admin
    }

    /// The card accounts, by owner identity.
    pub closed spec fn cards(&self) -> Map<Seq<u8>, CardEntry> {
        self.index@
    }

    /// The entries hold each owner once, and are exactly the map `cards`.
    pub closed spec fn wf(&self) -> bool {
        &&& forall|i: int|
            0 <= i < self.entries@.len() ==> self.index@.contains_key(#[trigger] self.entries@[i].account.owner@)
                && self.index@[self.entries@[i].account.owner@] == self.entries@[i]
        &&& forall|k: Seq<u8>|
            #[trigger] self.index@.contains_key(k) ==> exists|i: int|
                0 <= i < self.entries@.len() && #[trigger] self.entries@[i].account.owner@ == k
        &&& forall|i: int, j: int|
            0 <= i < j < self.entries@.len() ==> #[trigger] self.entries@[i].account.owner@
                != #[trigger] self.entries@[j].account.owner@
    }

    /// A program with no card accounts and the given administrator.
    pub fn new(admin: Key) -> (r: UserCardProgram)
        ensures
            r.wf(),
            r.admin_key() == admin,
            r.cards() == Map::<Seq<u8>, CardEntry>::empty(),
    {
        UserCardProgram { admin, entries: Vec::new(), index: Ghost(Map::empty()) }
    }

    /// The deployed program: no card accounts yet, and `ADMIN_PUBKEY` as its
    /// administrator; `None` if that text is not a key.
    pub fn deployed() -> (r: Option<UserCardProgram>)
        ensures
            match r {
                Some(p) => p.wf() && base58_key(ADMIN_PUBKEY@) == Some(p.admin_key()@) && p.cards()
                    == Map::<Seq<u8>, CardEntry>::empty(),
                None => base58_key(ADMIN_PUBKEY@) is None,
            },
    {
        match parse_key(ADMIN_PUBKEY) {
            Some(admin) => Some(UserCardProgram::new(admin)),
            None => None,
        }
    }

    /// Brings in a card account that already exists, such as one read back
    /// from storage. Fails with `DuplicateAccount` if its owner has one here.
    pub fn load(&mut self, entry: CardEntry) -> (r: Result<(), ErrorCode>)
        requires
            old(self).wf(),
        ensures
            final(self).wf(),
            final(self).admin_key() == old(self).admin_key(),
            old(self).cards().contains_key(entry.account.owner@) ==> r == Err::<(), ErrorCode>(
                ErrorCode::DuplicateAccount,
            ) && *final(self) == *old(self),
            !old(self).cards().contains_key(entry.account.owner@) ==> r == Ok::<(), ErrorCode>(())
                && final(self).cards() == old(self).cards().insert(entry.account.owner@, entry),
    {
        if self.find(&entry.account.owner).is_some() {
            return Err(ErrorCode::DuplicateAccount);
        }
        self.insert_new(entry);
        Ok(())
    }

    pub fn admin(&self) -> (r: Key)
        ensures
            r == self.admin_key(),
    {
        self.admin
    }

    /// The card account of `owner`, if one exists.
    pub fn card(&self, owner: &Key) -> (r: Option<CardEntry>)
        requires
            self.wf(),
        ensures
            match r {
                Some(e) => self.cards().contains_key(owner@) && e == self.cards()[owner@],
                None => !self.cards().contains_key(owner@),
            },
    {
        match self.find(owner) {
            Some(i) => Some(self.entries[i]),
            None => None,
        }
    }

    fn find(&self, owner: &Key) -> (r: Option<usize>)
        requires
            self.wf(),
        ensures
            match r {
                Some(i) => i < self.entries@.len() && self.entries@[i as int].account.owner@ == owner@
                    && self.cards().contains_key(owner@) && self.cards()[owner@] == self.entries@[i as int],
                None => !self.cards().contains_key(owner@),
            },
    {
        let mut i: usize = 0;
        while i < self.entries.len()
            invariant
                self.wf(),
                i <= self.entries@.len(),
                forall|j: int| 0 <= j < i ==> #[trigger] self.entries@[j].account.owner@ != owner@,
            decreases self.entries@.len() - i,
        {
            if self.entries[i].account.owner == *owner {
                return Some(i);
            }
            i = i + 1;
        }
        None
    }

    fn insert_new(&mut self, e: CardEntry)
        requires
            old(self).wf(),
            !old(self).cards().contains_key(e.account.owner@),
        ensures
            final(self).wf(),
            final(self).admin_key() == old(self).admin_key(),
            final(self).cards() == old(self).cards().insert(e.account.owner@, e),
    {
        self.entries.push(e);
        self.index = Ghost(self.index@.insert(e.account.owner@, e));
        assert forall|k: Seq<u8>| #[trigger] self.index@.contains_key(k) implies exists|i: int|
            0 <= i < self.entries@.len() && #[trigger] self.entries@[i].account.owner@ == k by {
            if k == e.account.owner@ {
                assert(self.entries@[self.entries@.len() - 1].account.owner@ == k);
            } else {
                assert(old(self).index@.contains_key(k));
                let j = choose|j: int| 0 <= j < old(self).entries@.len() && #[trigger] old(self).entries@[j].account.owner@ == k;
                assert(self.entries@[j].account.owner@ == k);
            }
        }
    }

    fn replace_at(&mut self, i: usize, e: CardEntry)
        requires
            old(self).wf(),
            i < old(self).entries@.len(),
            e.account.owner@ == old(self).entries@[i as int].account.owner@,
        ensures
            final(self).wf(),
            final(self).admin_key() == old(self).admin_key(),
            final(self).cards() == old(self).cards().insert(e.account.owner@, e),
    {
        self.entries[i] = e;
        self.index = Ghost(self.index@.insert(e.account.owner@, e));
        assert forall|k: Seq<u8>| #[trigger] self.index@.contains_key(k) implies exists|j: int|
            0 <= j < self.entries@.len() && #[trigger] self.entries@[j].account.owner@ == k by {
            if k != e.account.owner@ {
                assert(old(self).index@.contains_key(k));
                let j = choose|j: int| 0 <= j < old(self).entries@.len() && #[trigger] old(self).entries@[j].account.owner@ == k;
                assert(self.entries@[j].account.owner@ == k);
            } else {
                assert(self.entries@[i as int].account.owner@ == k);
            }
        }
    }
}

fn derive_mint_authority(owner: &Key) -> (r: MintAuthority)
    ensures
        r.card@ == owner@,
{
    MintAuthority { card: *owner }
}

/// Moves `amount` lamports from `from` to `to`, or fails and moves nothing.
fn transfer(from: &mut u64, to: &mut u64, amount: u64) -> (r: Result<(), ErrorCode>)
    ensures
        *old(from) < amount ==> r == Err::<(), ErrorCode>(ErrorCode::InsufficientFunds),
        *old(from) >= amount && *old(to) + amount > u64::MAX ==> r == Err::<(), ErrorCode>(ErrorCode::ArithmeticError),
        r is Ok <==> *old(from) >= amount && *old(to) + amount <= u64::MAX,
        r is Ok ==> *final(from) == *old(from) - amount && *final(to) == *old(to) + amount,
        r is Err ==> *final(from) == *old(from) && *final(to) == *old(to),
{
    if *from < amount {
        return Err(ErrorCode::InsufficientFunds);
    }
    match to.checked_add(amount) {
        Some(t) => {
            *from = *from - amount;
            *to = t;
            Ok(())
        },
        None => Err(ErrorCode::ArithmeticError),
    }
}

/// Mints `amount` tokens into `dest` under the card account's authority.
fn mint_to(authority: &MintAuthority, dest: &mut Wallet, amount: u64) -> (r: Result<(), ErrorCode>)
    requires
        authority.card@ == old(dest).key@,
    ensures
        r is Ok <==> old(dest).tokens + amount <= u64::MAX,
        r is Err ==> r == Err::<(), ErrorCode>(ErrorCode::ArithmeticError) && *final(dest) == *old(dest),
        r is Ok ==> *final(dest) == (Wallet { tokens: (old(dest).tokens + amount) as u64, ..*old(dest) }),
{
    match dest.tokens.checked_add(amount) {
        Some(t) => {
            dest.tokens = t;
            Ok(())
        },
        None => Err(ErrorCode::ArithmeticError),
    }
}

/// Sells a card of `card_type` to the signer in `ctx` for `amount_paid`
/// lamports: creates the signer's card account, moves the payment into its
/// custody and mints as many tokens as lamports were paid. Nothing changes
/// when it fails.
pub fn initialize_user_card(
    program: &mut UserCardProgram,
    ctx: &mut InitializeUserCard,
    card_type: CardType,
    amount_paid: u64,
) -> (r: Result<(), ErrorCode>)
    requires
        old(program).wf(),
    ensures
        final(program).wf(),
        final(program).admin_key() == old(program).admin_key(),
        match purchase_error(old(program).cards(), old(ctx).authority, card_type, amount_paid) {
            Some(e) => r == Err::<(), ErrorCode>(e) && *final(program) == *old(program) && *final(ctx) == *old(ctx),
            None => r == Ok::<(), ErrorCode>(()) && final(program).cards() == old(program).cards().insert(
                old(ctx).authority.key@,
                purchased_entry(old(ctx).authority.key, card_type, amount_paid),
            ) && final(ctx).authority == paid_wallet(old(ctx).authority, amount_paid),
        },
{
    let owner = ctx.authority.key;
    if program.find(&owner).is_some() {
        return Err(ErrorCode::DuplicateAccount);
    }
    let expected_price = price_for(card_type);
    if amount_paid < expected_price {
        return Err(ErrorCode::InsufficientPayment);
    }
    let tokens_to_mint: u64 = amount_paid;
    let mut payer = ctx.authority;
    let mut custody: u64 = 0;
    match transfer(&mut payer.lamports, &mut custody, amount_paid) {
        Ok(()) => {},
        Err(e) => return Err(e),
    }
    let authority = derive_mint_authority(&owner);
    match mint_to(&authority, &mut payer, tokens_to_mint) {
        Ok(()) => {},
        Err(e) => return Err(e),
    }
    let account = UserCardAccount {
        owner,
        card_type,
        amount_paid,
        tokens_minted: tokens_to_mint,
        status: AccountStatus::Active,
    };
    program.insert_new(CardEntry { account, lamports: custody });
    ctx.authority = payer;
    Ok(())
}

/// Moves `amount` lamports from the custody of the card account at
/// `ctx.user_card` to the administrator who signs. The stored record's
/// `amount_paid` and `tokens_minted` are left as they were. Nothing changes
/// when it fails.
pub fn withdraw_funds(program: &mut UserCardProgram, ctx: &mut WithdrawFunds, amount: u64) -> (r: Result<(), ErrorCode>)
    requires
        old(program).wf(),
    ensures
        final(program).wf(),
        final(program).admin_key() == old(program).admin_key(),
        final(ctx).user_card == old(ctx).user_card,
        match withdraw_error(old(program).admin_key(), old(program).cards(), old(ctx).user_card, old(ctx).admin, amount) {
            Some(e) => r == Err::<(), ErrorCode>(e) && *final(program) == *old(program) && *final(ctx) == *old(ctx),
            None => r == Ok::<(), ErrorCode>(()) && final(program).cards() == drawn_cards(
                old(program).cards(),
                old(ctx).user_card,
                amount,
            ) && final(ctx).admin == (Wallet { lamports: (old(ctx).admin.lamports + amount) as u64, ..old(ctx).admin }),
        },
{
    if ctx.admin.key != program.admin {
        return Err(ErrorCode::Unauthorized);
    }
    let i = match program.find(&ctx.user_card) {
        Some(i) => i,
        None => return Err(ErrorCode::AccountNotInitialized),
    };
    let entry = program.entries[i];
    let current_balance = entry.lamports;
    if current_balance < amount {
        return Err(ErrorCode::InsufficientFunds);
    }
    let new_user_balance = match current_balance.checked_sub(amount) {
        Some(b) => b,
        None => return Err(ErrorCode::InsufficientFunds),
    };
    let new_admin_balance = match ctx.admin.lamports.checked_add(amount) {
        Some(b) => b,
        None => return Err(ErrorCode::ArithmeticError),
    };
    program.replace_at(i, CardEntry { lamports: new_user_balance, ..entry });
    ctx.admin.lamports = new_admin_balance;
    Ok(())
}

fn edit_card(
    program: &mut UserCardProgram,
    user_card: &Key,
    caller: &Key,
    new_type: Option<CardType>,
) -> (r: Result<(), ErrorCode>)
    requires
        old(program).wf(),
    ensures
        final(program).wf(),
        final(program).admin_key() == old(program).admin_key(),
        match (match new_type {
            Some(t) => upgrade_outcome(old(program).cards(), *user_card, *caller, t),
            None => deactivate_outcome(old(program).cards(), *user_card, *caller),
        }) {
            Ok(m) => r == Ok::<(), ErrorCode>(()) && final(program).cards() == m,
            Err(e) => r == Err::<(), ErrorCode>(e) && *final(program) == *old(program),
        },
{
    let i = match program.find(user_card) {
        Some(i) => i,
        None => return Err(ErrorCode::AccountNotInitialized),
    };
    let mut entry = program.entries[i];
    let edited = match new_type {
        Some(t) => entry.account.upgrade(caller, t),
        None => entry.account.deactivate(caller),
    };
    match edited {
        Ok(()) => {
            program.replace_at(i, entry);
            Ok(())
        },
        Err(e) => Err(e),
    }
}

/// Sets the tier of the card account at `user_card`, if `caller` owns it.
/// No payment is taken for the new tier.
pub fn upgrade_card(
    program: &mut UserCardProgram,
    user_card: &Key,
    caller: &Key,
    new_type: CardType,
) -> (r: Result<(), ErrorCode>)
    requires
        old(program).wf(),
    ensures
        final(program).wf(),
        final(program).admin_key() == old(program).admin_key(),
        match upgrade_outcome(old(program).cards(), *user_card, *caller, new_type) {
            Ok(m) => r == Ok::<(), ErrorCode>(()) && final(program).cards() == m,
            Err(e) => r == Err::<(), ErrorCode>(e) && *final(program) == *old(program),
        },
{
    edit_card(program, user_card, caller, Some(new_type))
}

/// Marks the card account at `user_card` inactive, if `caller` owns it.
pub fn deactivate(program: &mut UserCardProgram, user_card: &Key, caller: &Key) -> (r: Result<(), ErrorCode>)
    requires
        old(program).wf(),
    ensures
        final(program).wf(),
        final(program).admin_key() == old(program).admin_key(),
        match deactivate_outcome(old(program).cards(), *user_card, *caller) {
            Ok(m) => r == Ok::<(), ErrorCode>(()) && final(program).cards() == m,
            Err(e) => r == Err::<(), ErrorCode>(e) && *final(program) == *old(program),
        },
{
    edit_card(program, user_card, caller, None)
}

} // verus!
