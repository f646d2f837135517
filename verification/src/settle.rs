//! Settlement records and the ledger the consume path mutates: the
//! underlying-token vault, token accounts, margin users' asset and debt
//! ledgers, and the split tickets and obligations written on fills.
use crate::keys::{i64_from_le_bytes, i64_to_le_bytes, spec_i64_to_le_bytes, AccountKey};
use crate::tag::OrderTag;
use crate::BondsError;
use vstd::bytes::*;
use vstd::pervasive::VecAdditionalExecFns;
use vstd::prelude::*;
use vstd::slice::*;

verus! {

/// Serialized length of a split ticket or an obligation.
pub const RECORD_LEN: usize = 112;

/// A staked lending position created on an auto-stake fill; redeemable at
/// maturation.
#[derive(Clone, Copy, Debug, PartialEq, Eq, Structural)]
pub struct SplitTicket {
    pub owner: AccountKey,
    pub bond_manager: AccountKey,
    pub order_tag: OrderTag,
    pub maturation_timestamp: i64,
    pub struck_timestamp: i64,
    pub principal: u64,
    pub interest: u64,
}

impl SplitTicket {
    /// The 112-byte form: owner, market, tag, the two timestamps, then the
    /// two amounts, little-endian.
    pub open spec fn spec_ser(self) -> Seq<u8> {
        self.owner.spec_bytes() + self.bond_manager.spec_bytes() + self.order_tag.spec_bytes()
            + spec_i64_to_le_bytes(self.maturation_timestamp) + spec_i64_to_le_bytes(
            self.struck_timestamp,
        ) + spec_u64_to_le_bytes(self.principal) + spec_u64_to_le_bytes(self.interest)
    }

    pub open spec fn spec_parse(b: Seq<u8>) -> SplitTicket {
        SplitTicket {
            owner: AccountKey::spec_of_bytes(b.subrange(0, 32)),
            bond_manager: AccountKey::spec_of_bytes(b.subrange(32, 64)),
            order_tag: OrderTag::spec_of_bytes(b.subrange(64, 80)),
            maturation_timestamp: spec_u64_from_le_bytes(b.subrange(80, 88)) as i64,
            struck_timestamp: spec_u64_from_le_bytes(b.subrange(88, 96)) as i64,
            principal: spec_u64_from_le_bytes(b.subrange(96, 104)),
            interest: spec_u64_from_le_bytes(b.subrange(104, 112)),
        }
    }

    pub fn to_bytes(&self) -> (r: Vec<u8>)
        ensures
            r@ == self.spec_ser(),
            r@.len() == RECORD_LEN,
    {
        proof {
            lemma_auto_spec_u64_to_from_le_bytes();
        }
        let mut r = self.owner.to_bytes();
        let mut manager = self.bond_manager.to_bytes();
        let mut tag = self.order_tag.bytes();
        let mut mat = i64_to_le_bytes(self.maturation_timestamp);
        let mut struck = i64_to_le_bytes(self.struck_timestamp);
        let mut principal = u64_to_le_bytes(self.principal);
        let mut interest = u64_to_le_bytes(self.interest);
        r.append(&mut manager);
        r.append(&mut tag);
        r.append(&mut mat);
        r.append(&mut struck);
        r.append(&mut principal);
        r.append(&mut interest);
        r
    }

    pub fn from_bytes(b: &[u8]) -> (r: SplitTicket)
        requires
            b@.len() == RECORD_LEN,
        ensures
            r == SplitTicket::spec_parse(b@),
    {
        SplitTicket {
            owner: AccountKey::from_bytes(slice_subrange(b, 0, 32)),
            bond_manager: AccountKey::from_bytes(slice_subrange(b, 32, 64)),
            order_tag: OrderTag::from_bytes(slice_subrange(b, 64, 80)),
            maturation_timestamp: i64_from_le_bytes(slice_subrange(b, 80, 88)),
            struck_timestamp: i64_from_le_bytes(slice_subrange(b, 88, 96)),
            principal: u64_from_le_bytes(slice_subrange(b, 96, 104)),
            interest: u64_from_le_bytes(slice_subrange(b, 104, 112)),
        }
    }
}

/// Parsing a serialized split ticket yields it back.
pub proof fn lemma_split_ticket_round_trip(t: SplitTicket)
    ensures
        SplitTicket::spec_parse(t.spec_ser()) == t,
{
    lemma_auto_spec_u64_to_from_le_bytes();
    let s = t.spec_ser();
    assert(s.subrange(0, 32) =~= t.owner.spec_bytes());
    assert(s.subrange(32, 64) =~= t.bond_manager.spec_bytes());
    assert(s.subrange(64, 80) =~= t.order_tag.spec_bytes());
    assert(s.subrange(80, 88) =~= spec_i64_to_le_bytes(t.maturation_timestamp));
    assert(s.subrange(88, 96) =~= spec_i64_to_le_bytes(t.struck_timestamp));
    assert(s.subrange(96, 104) =~= spec_u64_to_le_bytes(t.principal));
    assert(s.subrange(104, 112) =~= spec_u64_to_le_bytes(t.interest));
    crate::keys::lemma_key_of_bytes_round_trip(t.owner);
    crate::keys::lemma_key_of_bytes_round_trip(t.bond_manager);
    crate::tag::lemma_tag_of_bytes_round_trip(t.order_tag);
    crate::keys::lemma_i64_le_bytes_round_trip(t.maturation_timestamp);
    crate::keys::lemma_i64_le_bytes_round_trip(t.struck_timestamp);
}

/// A debt record created when a margin user sells tickets they do not yet
/// hold; repaid outside the engine.
#[derive(Clone, Copy, Debug, PartialEq, Eq, Structural)]
pub struct Obligation {
    /// Per-borrower monotonic sequence number.
    pub sequence_number: u64,
    pub borrower_account: AccountKey,
    pub bond_manager: AccountKey,
    pub order_tag: OrderTag,
    pub maturation_timestamp: i64,
    /// Tickets owed at maturation.
    pub balance: u64,
    /// Obligation state bits; fresh obligations carry none.
    pub flags: u64,
}

impl Obligation {
    /// The 112-byte form: sequence number, borrower, market, tag,
    /// maturation, balance, flags, little-endian.
    pub open spec fn spec_ser(self) -> Seq<u8> {
        spec_u64_to_le_bytes(self.sequence_number) + self.borrower_account.spec_bytes()
            + self.bond_manager.spec_bytes() + self.order_tag.spec_bytes() + spec_i64_to_le_bytes(
            self.maturation_timestamp,
        ) + spec_u64_to_le_bytes(self.balance) + spec_u64_to_le_bytes(self.flags)
    }

    pub open spec fn spec_parse(b: Seq<u8>) -> Obligation {
        Obligation {
            sequence_number: spec_u64_from_le_bytes(b.subrange(0, 8)),
            borrower_account: AccountKey::spec_of_bytes(b.subrange(8, 40)),
            bond_manager: AccountKey::spec_of_bytes(b.subrange(40, 72)),
            order_tag: OrderTag::spec_of_bytes(b.subrange(72, 88)),
            maturation_timestamp: spec_u64_from_le_bytes(b.subrange(88, 96)) as i64,
            balance: spec_u64_from_le_bytes(b.subrange(96, 104)),
            flags: spec_u64_from_le_bytes(b.subrange(104, 112)),
        }
    }

    pub fn to_bytes(&self) -> (r: Vec<u8>)
        ensures
            r@ == self.spec_ser(),
            r@.len() == RECORD_LEN,
    {
        proof {
            lemma_auto_spec_u64_to_from_le_bytes();
        }
        let mut r = u64_to_le_bytes(self.sequence_number);
        let mut borrower = self.borrower_account.to_bytes();
        let mut manager = self.bond_manager.to_bytes();
        let mut tag = self.order_tag.bytes();
        let mut mat = i64_to_le_bytes(self.maturation_timestamp);
        let mut balance = u64_to_le_bytes(self.balance);
        let mut flags = u64_to_le_bytes(self.flags);
        r.append(&mut borrower);
        r.append(&mut manager);
        r.append(&mut tag);
        r.append(&mut mat);
        r.append(&mut balance);
        r.append(&mut flags);
        r
    }

    pub fn from_bytes(b: &[u8]) -> (r: Obligation)
        requires
            b@.len() == RECORD_LEN,
        ensures
            r == Obligation::spec_parse(b@),
    {
        Obligation {
            sequence_number: u64_from_le_bytes(slice_subrange(b, 0, 8)),
            borrower_account: AccountKey::from_bytes(slice_subrange(b, 8, 40)),
            bond_manager: AccountKey::from_bytes(slice_subrange(b, 40, 72)),
            order_tag: OrderTag::from_bytes(slice_subrange(b, 72, 88)),
            maturation_timestamp: i64_from_le_bytes(slice_subrange(b, 88, 96)),
            balance: u64_from_le_bytes(slice_subrange(b, 96, 104)),
            flags: u64_from_le_bytes(slice_subrange(b, 104, 112)),
        }
    }
}

/// Parsing a serialized obligation yields it back.
pub proof fn lemma_obligation_round_trip(o: Obligation)
    ensures
        Obligation::spec_parse(o.spec_ser()) == o,
{
    lemma_auto_spec_u64_to_from_le_bytes();
    let s = o.spec_ser();
    assert(s.subrange(0, 8) =~= spec_u64_to_le_bytes(o.sequence_number));
    assert(s.subrange(8, 40) =~= o.borrower_account.spec_bytes());
    assert(s.subrange(40, 72) =~= o.bond_manager.spec_bytes());
    assert(s.subrange(72, 88) =~= o.order_tag.spec_bytes());
    assert(s.subrange(88, 96) =~= spec_i64_to_le_bytes(o.maturation_timestamp));
    assert(s.subrange(96, 104) =~= spec_u64_to_le_bytes(o.balance));
    assert(s.subrange(104, 112) =~= spec_u64_to_le_bytes(o.flags));
    crate::keys::lemma_key_of_bytes_round_trip(o.borrower_account);
    crate::keys::lemma_key_of_bytes_round_trip(o.bond_manager);
    crate::tag::lemma_tag_of_bytes_round_trip(o.order_tag);
    crate::keys::lemma_i64_le_bytes_round_trip(o.maturation_timestamp);
}

/// A margin user's claims on settled assets.
#[derive(Clone, Copy, Debug, PartialEq, Eq, Structural)]
pub struct Assets {
    /// Underlying tokens the user may withdraw.
    pub entitled_tokens: u64,
    /// Tickets the user may withdraw.
    pub entitled_tickets: u64,
}

/// A margin user's debt ledger.
#[derive(Clone, Copy, Debug, PartialEq, Eq, Structural)]
pub struct Debt {
    /// Sequence number for the next obligation.
    pub next_new_obligation_seqno: u64,
    /// Total tickets owed across open obligations.
    pub pending: u64,
}

/// One margin user's row in the ledger.
#[derive(Clone, Copy, Debug, PartialEq, Eq, Structural)]
pub struct MarginUser {
    pub key: AccountKey,
    pub assets: Assets,
    pub debt: Debt,
}

/// One token account's balances.
#[derive(Clone, Copy, Debug, PartialEq, Eq, Structural)]
pub struct TokenAccount {
    pub key: AccountKey,
    /// Underlying-token balance.
    pub underlying: u64,
    /// Bond-ticket balance.
    pub tickets: u64,
}

/// A split ticket together with the derived address it was written under
/// (`None` in the unreachable case that no bump seed worked).
#[derive(Clone, Copy, Debug, PartialEq, Eq, Structural)]
pub struct StoredTicket {
    pub address: Option<AccountKey>,
    pub ticket: SplitTicket,
}

/// An obligation together with its derived address.
#[derive(Clone, Copy, Debug, PartialEq, Eq, Structural)]
pub struct StoredObligation {
    pub address: Option<AccountKey>,
    pub obligation: Obligation,
}

/// The abstract state of the settlement ledger.
pub struct LedgerView {
    pub underlying_token_vault: u64,
    pub token_accounts: Seq<TokenAccount>,
    pub margin_users: Seq<MarginUser>,
    pub split_tickets: Seq<StoredTicket>,
    pub obligations: Seq<StoredObligation>,
}

/// The ledger the consume path settles into. A destination account or
/// margin user not yet recorded starts from empty balances.
pub struct SettlementLedger {
    pub underlying_token_vault: u64,
    pub token_accounts: Vec<TokenAccount>,
    pub margin_users: Vec<MarginUser>,
    pub split_tickets: Vec<StoredTicket>,
    pub obligations: Vec<StoredObligation>,
}

impl View for SettlementLedger {
    type V = LedgerView;

    open spec fn view(&self) -> LedgerView {
        LedgerView {
            underlying_token_vault: self.underlying_token_vault,
            token_accounts: self.token_accounts@,
            margin_users: self.margin_users@,
            split_tickets: self.split_tickets@,
            obligations: self.obligations@,
        }
    }
}

/// Index of the first token account under `key`.
pub open spec fn spec_find_token(s: Seq<TokenAccount>, key: AccountKey) -> Option<int>
    decreases s.len(),
{
    if s.len() == 0 {
        None
    } else if s[0].key == key {
        Some(0)
    } else {
        match spec_find_token(s.skip(1), key) {
            Some(i) => Some(i + 1),
            None => None,
        }
    }
}

/// Index of the first margin user under `key`.
pub open spec fn spec_find_user(s: Seq<MarginUser>, key: AccountKey) -> Option<int>
    decreases s.len(),
{
    if s.len() == 0 {
        None
    } else if s[0].key == key {
        Some(0)
    } else {
        match spec_find_user(s.skip(1), key) {
            Some(i) => Some(i + 1),
            None => None,
        }
    }
}

pub proof fn lemma_find_token_at(s: Seq<TokenAccount>, key: AccountKey, i: int)
    requires
        0 <= i < s.len(),
        s[i].key == key,
        forall|j: int| 0 <= j < i ==> #[trigger] s[j].key != key,
    ensures
        spec_find_token(s, key) == Some(i),
    decreases s.len(),
{
    if i > 0 {
        lemma_find_token_at(s.skip(1), key, i - 1);
    }
}

pub proof fn lemma_find_token_none(s: Seq<TokenAccount>, key: AccountKey)
    requires
        forall|j: int| 0 <= j < s.len() ==> #[trigger] s[j].key != key,
    ensures
        spec_find_token(s, key) is None,
    decreases s.len(),
{
    if s.len() > 0 {
        lemma_find_token_none(s.skip(1), key);
    }
}

pub proof fn lemma_find_user_at(s: Seq<MarginUser>, key: AccountKey, i: int)
    requires
        0 <= i < s.len(),
        s[i].key == key,
        forall|j: int| 0 <= j < i ==> #[trigger] s[j].key != key,
    ensures
        spec_find_user(s, key) == Some(i),
    decreases s.len(),
{
    if i > 0 {
        lemma_find_user_at(s.skip(1), key, i - 1);
    }
}

pub proof fn lemma_find_user_none(s: Seq<MarginUser>, key: AccountKey)
    requires
        forall|j: int| 0 <= j < s.len() ==> #[trigger] s[j].key != key,
    ensures
        spec_find_user(s, key) is None,
    decreases s.len(),
{
    if s.len() > 0 {
        lemma_find_user_none(s.skip(1), key);
    }
}

/// The token-account row under `key`, or a fresh empty row.
pub open spec fn spec_token_row(s: Seq<TokenAccount>, key: AccountKey) -> TokenAccount {
    match spec_find_token(s, key) {
        Some(i) => s[i],
        None => TokenAccount { key, underlying: 0, tickets: 0 },
    }
}

/// The token accounts with the row under `key` replaced (or appended).
pub open spec fn spec_token_rows_with(s: Seq<TokenAccount>, key: AccountKey, row: TokenAccount)
    -> Seq<TokenAccount> {
    match spec_find_token(s, key) {
        Some(i) => s.update(i, row),
        None => s.push(row),
    }
}

/// The margin-user row under `key`, or a fresh empty row.
pub open spec fn spec_user_row(s: Seq<MarginUser>, key: AccountKey) -> MarginUser {
    match spec_find_user(s, key) {
        Some(i) => s[i],
        None => MarginUser {
            key,
            assets: Assets { entitled_tokens: 0, entitled_tickets: 0 },
            debt: Debt { next_new_obligation_seqno: 0, pending: 0 },
        },
    }
}

/// The margin users with the row under `key` replaced (or appended).
pub open spec fn spec_user_rows_with(s: Seq<MarginUser>, key: AccountKey, row: MarginUser)
    -> Seq<MarginUser> {
    match spec_find_user(s, key) {
        Some(i) => s.update(i, row),
        None => s.push(row),
    }
}

impl SettlementLedger {
    /// A deep copy, so that a consume call can settle into a working copy
    /// and commit only on success.
    pub fn clone_ledger(&self) -> (r: SettlementLedger)
        ensures
            r@ == self@,
    {
        SettlementLedger {
            underlying_token_vault: self.underlying_token_vault,
            token_accounts: slice_to_vec(self.token_accounts.as_slice()),
            margin_users: slice_to_vec(self.margin_users.as_slice()),
            split_tickets: slice_to_vec(self.split_tickets.as_slice()),
            obligations: slice_to_vec(self.obligations.as_slice()),
        }
    }

    /// Find the token-account row under `key`, or report its absence.
    fn find_token_index(&self, key: AccountKey) -> (r: Option<usize>)
        ensures
            match r {
                Some(i) => i < self.token_accounts.len() && spec_find_token(
                    self.token_accounts@,
                    key,
                ) == Some(i as int),
                None => spec_find_token(self.token_accounts@, key) is None,
            },
    {
        let n = self.token_accounts.len();
        let mut i: usize = 0;
        let mut found: Option<usize> = None;
        while i < n
            invariant
                n == self.token_accounts.len(),
                i <= n,
                match found {
                    Some(fi) => fi < n && self.token_accounts@[fi as int].key == key && (forall|
                        j: int,
                    | 0 <= j < fi ==> #[trigger] self.token_accounts@[j].key != key),
                    None => forall|j: int|
                        0 <= j < i ==> #[trigger] self.token_accounts@[j].key != key,
                },
            decreases n - i,
        {
            let e = *vstd::std_specs::vec::vec_index(&self.token_accounts, i);
            if found.is_none() && e.key == key {
                found = Some(i);
            }
            i += 1;
        }
        proof {
            match found {
                Some(fi) => lemma_find_token_at(self.token_accounts@, key, fi as int),
                None => lemma_find_token_none(self.token_accounts@, key),
            }
        }
        found
    }

    /// Find the margin-user row under `key`, or report its absence.
    fn find_user_index(&self, key: AccountKey) -> (r: Option<usize>)
        ensures
            match r {
                Some(i) => i < self.margin_users.len() && spec_find_user(
                    self.margin_users@,
                    key,
                ) == Some(i as int),
                None => spec_find_user(self.margin_users@, key) is None,
            },
    {
        let n = self.margin_users.len();
        let mut i: usize = 0;
        let mut found: Option<usize> = None;
        while i < n
            invariant
                n == self.margin_users.len(),
                i <= n,
                match found {
                    Some(fi) => fi < n && self.margin_users@[fi as int].key == key && (forall|
                        j: int,
                    | 0 <= j < fi ==> #[trigger] self.margin_users@[j].key != key),
                    None => forall|j: int|
                        0 <= j < i ==> #[trigger] self.margin_users@[j].key != key,
                },
            decreases n - i,
        {
            let e = *vstd::std_specs::vec::vec_index(&self.margin_users, i);
            if found.is_none() && e.key == key {
                found = Some(i);
            }
            i += 1;
        }
        proof {
            match found {
                Some(fi) => lemma_find_user_at(self.margin_users@, key, fi as int),
                None => lemma_find_user_none(self.margin_users@, key),
            }
        }
        found
    }

    /// Read the token-account row under `key` (a fresh row if absent) and
    /// write back `row` in its place.
    fn upsert_token_row(&mut self, key: AccountKey, row: TokenAccount)
        ensures
            final(self)@ == (LedgerView {
                token_accounts: spec_token_rows_with(old(self).token_accounts@, key, row),
                ..old(self)@
            }),
    {
        let idx = self.find_token_index(key);
        match idx {
            Some(i) => {
                self.token_accounts.set(i, row);
            },
            None => {
                self.token_accounts.push(row);
            },
        }
    }

    /// Read the margin-user row under `key` (a fresh row if absent) and
    /// write back `row` in its place.
    fn upsert_user_row(&mut self, key: AccountKey, row: MarginUser)
        ensures
            final(self)@ == (LedgerView {
                margin_users: spec_user_rows_with(old(self).margin_users@, key, row),
                ..old(self)@
            }),
    {
        let idx = self.find_user_index(key);
        match idx {
            Some(i) => {
                self.margin_users.set(i, row);
            },
            None => {
                self.margin_users.push(row);
            },
        }
    }

    /// Read the token-account row under `key`, or a fresh one.
    fn token_row(&self, key: AccountKey) -> (r: TokenAccount)
        ensures
            r == spec_token_row(self.token_accounts@, key),
    {
        match self.find_token_index(key) {
            Some(i) => *vstd::std_specs::vec::vec_index(&self.token_accounts, i),
            None => TokenAccount { key, underlying: 0, tickets: 0 },
        }
    }

    /// Read the margin-user row under `key`, or a fresh one.
    fn user_row(&self, key: AccountKey) -> (r: MarginUser)
        ensures
            r == spec_user_row(self.margin_users@, key),
    {
        match self.find_user_index(key) {
            Some(i) => *vstd::std_specs::vec::vec_index(&self.margin_users, i),
            None => MarginUser {
                key,
                assets: Assets { entitled_tokens: 0, entitled_tickets: 0 },
                debt: Debt { next_new_obligation_seqno: 0, pending: 0 },
            },
        }
    }
}

/// What minting `amount` tickets to `dest` does to the ledger.
pub open spec fn spec_mint_tickets(l: LedgerView, dest: AccountKey, amount: u64) -> Result<
    LedgerView,
    BondsError,
> {
    let row = spec_token_row(l.token_accounts, dest);
    if row.tickets + amount <= u64::MAX {
        Ok(
            LedgerView {
                token_accounts: spec_token_rows_with(
                    l.token_accounts,
                    dest,
                    TokenAccount { tickets: (row.tickets + amount) as u64, ..row },
                ),
                ..l
            },
        )
    } else {
        Err(BondsError::ArithmeticOverflow)
    }
}

/// What moving `amount` underlying tokens from the vault to `dest` does.
pub open spec fn spec_withdraw_underlying(l: LedgerView, dest: AccountKey, amount: u64) -> Result<
    LedgerView,
    BondsError,
> {
    let row = spec_token_row(l.token_accounts, dest);
    if l.underlying_token_vault < amount {
        Err(BondsError::ArithmeticOverflow)
    } else if row.underlying + amount <= u64::MAX {
        Ok(
            LedgerView {
                underlying_token_vault: (l.underlying_token_vault - amount) as u64,
                token_accounts: spec_token_rows_with(
                    l.token_accounts,
                    dest,
                    TokenAccount { underlying: (row.underlying + amount) as u64, ..row },
                ),
                ..l
            },
        )
    } else {
        Err(BondsError::ArithmeticOverflow)
    }
}

/// What crediting `amount` entitled tickets to a margin user does.
pub open spec fn spec_entitled_tickets_add(l: LedgerView, user: AccountKey, amount: u64) -> Result<
    LedgerView,
    BondsError,
> {
    let row = spec_user_row(l.margin_users, user);
    if row.assets.entitled_tickets + amount <= u64::MAX {
        Ok(
            LedgerView {
                margin_users: spec_user_rows_with(
                    l.margin_users,
                    user,
                    MarginUser {
                        assets: Assets {
                            entitled_tickets: (row.assets.entitled_tickets + amount) as u64,
                            ..row.assets
                        },
                        ..row
                    },
                ),
                ..l
            },
        )
    } else {
        Err(BondsError::ArithmeticOverflow)
    }
}

/// What crediting `amount` entitled underlying tokens to a margin user
/// does.
pub open spec fn spec_entitled_tokens_add(l: LedgerView, user: AccountKey, amount: u64) -> Result<
    LedgerView,
    BondsError,
> {
    let row = spec_user_row(l.margin_users, user);
    if row.assets.entitled_tokens + amount <= u64::MAX {
        Ok(
            LedgerView {
                margin_users: spec_user_rows_with(
                    l.margin_users,
                    user,
                    MarginUser {
                        assets: Assets {
                            entitled_tokens: (row.assets.entitled_tokens + amount) as u64,
                            ..row.assets
                        },
                        ..row
                    },
                ),
                ..l
            },
        )
    } else {
        Err(BondsError::ArithmeticOverflow)
    }
}

/// What opening a new obligation from a fill does to a margin user's debt
/// ledger: the next sequence number is taken and the pending total grows.
pub open spec fn spec_new_obligation_from_fill(l: LedgerView, user: AccountKey, base: u64)
    -> Result<(LedgerView, u64), BondsError> {
    let row = spec_user_row(l.margin_users, user);
    if row.debt.next_new_obligation_seqno + 1 <= u64::MAX && row.debt.pending + base
        <= u64::MAX {
        Ok(
            (
                LedgerView {
                    margin_users: spec_user_rows_with(
                        l.margin_users,
                        user,
                        MarginUser {
                            debt: Debt {
                                next_new_obligation_seqno: (row.debt.next_new_obligation_seqno
                                    + 1) as u64,
                                pending: (row.debt.pending + base) as u64,
                            },
                            ..row
                        },
                    ),
                    ..l
                },
                row.debt.next_new_obligation_seqno,
            ),
        )
    } else {
        Err(BondsError::ArithmeticOverflow)
    }
}

/// What settling an Out for new debt does: the pending total shrinks.
pub open spec fn spec_debt_process_out(l: LedgerView, user: AccountKey, base: u64) -> Result<
    LedgerView,
    BondsError,
> {
    let row = spec_user_row(l.margin_users, user);
    if row.debt.pending >= base {
        Ok(
            LedgerView {
                margin_users: spec_user_rows_with(
                    l.margin_users,
                    user,
                    MarginUser {
                        debt: Debt { pending: (row.debt.pending - base) as u64, ..row.debt },
                        ..row
                    },
                ),
                ..l
            },
        )
    } else {
        Err(BondsError::ArithmeticOverflow)
    }
}

impl SettlementLedger {
    /// Mint `amount` tickets to the token account `dest`.
    pub fn mint_tickets(&mut self, dest: AccountKey, amount: u64) -> (r: Result<(), BondsError>)
        ensures
            match spec_mint_tickets(old(self)@, dest, amount) {
                Ok(l2) => r == Ok::<(), BondsError>(()) && final(self)@ == l2,
                Err(e) => r == Err::<(), BondsError>(e) && final(self)@ == old(self)@,
            },
    {
        let row = self.token_row(dest);
        match row.tickets.checked_add(amount) {
            Some(t) => {
                self.upsert_token_row(dest, TokenAccount { tickets: t, ..row });
                Ok(())
            },
            None => Err(BondsError::ArithmeticOverflow),
        }
    }

    /// Move `amount` underlying tokens from the vault to `dest`.
    pub fn withdraw_underlying(&mut self, dest: AccountKey, amount: u64) -> (r: Result<
        (),
        BondsError,
    >)
        ensures
            match spec_withdraw_underlying(old(self)@, dest, amount) {
                Ok(l2) => r == Ok::<(), BondsError>(()) && final(self)@ == l2,
                Err(e) => r == Err::<(), BondsError>(e) && final(self)@ == old(self)@,
            },
    {
        if self.underlying_token_vault < amount {
            return Err(BondsError::ArithmeticOverflow);
        }
        let row = self.token_row(dest);
        match row.underlying.checked_add(amount) {
            Some(u) => {
                self.underlying_token_vault = self.underlying_token_vault - amount;
                self.upsert_token_row(dest, TokenAccount { underlying: u, ..row });
                Ok(())
            },
            None => Err(BondsError::ArithmeticOverflow),
        }
    }

    /// Credit `amount` entitled tickets to the margin user `user`.
    pub fn entitled_tickets_add(&mut self, user: AccountKey, amount: u64) -> (r: Result<
        (),
        BondsError,
    >)
        ensures
            match spec_entitled_tickets_add(old(self)@, user, amount) {
                Ok(l2) => r == Ok::<(), BondsError>(()) && final(self)@ == l2,
                Err(e) => r == Err::<(), BondsError>(e) && final(self)@ == old(self)@,
            },
    {
        let row = self.user_row(user);
        match row.assets.entitled_tickets.checked_add(amount) {
            Some(t) => {
                self.upsert_user_row(
                    user,
                    MarginUser { assets: Assets { entitled_tickets: t, ..row.assets }, ..row },
                );
                Ok(())
            },
            None => Err(BondsError::ArithmeticOverflow),
        }
    }

    /// Credit `amount` entitled underlying tokens to the margin user
    /// `user`.
    pub fn entitled_tokens_add(&mut self, user: AccountKey, amount: u64) -> (r: Result<
        (),
        BondsError,
    >)
        ensures
            match spec_entitled_tokens_add(old(self)@, user, amount) {
                Ok(l2) => r == Ok::<(), BondsError>(()) && final(self)@ == l2,
                Err(e) => r == Err::<(), BondsError>(e) && final(self)@ == old(self)@,
            },
    {
        let row = self.user_row(user);
        match row.assets.entitled_tokens.checked_add(amount) {
            Some(t) => {
                self.upsert_user_row(
                    user,
                    MarginUser { assets: Assets { entitled_tokens: t, ..row.assets }, ..row },
                );
                Ok(())
            },
            None => Err(BondsError::ArithmeticOverflow),
        }
    }

    /// Open a new obligation for `user`: take the next sequence number and
    /// grow the pending debt by `base`.
    pub fn new_obligation_from_fill(&mut self, user: AccountKey, base: u64) -> (r: Result<
        u64,
        BondsError,
    >)
        ensures
            match spec_new_obligation_from_fill(old(self)@, user, base) {
                Ok((l2, seq)) => r == Ok::<u64, BondsError>(seq) && final(self)@ == l2,
                Err(e) => r == Err::<u64, BondsError>(e) && final(self)@ == old(self)@,
            },
    {
        let row = self.user_row(user);
        let next = row.debt.next_new_obligation_seqno.checked_add(1);
        let pending = row.debt.pending.checked_add(base);
        match (next, pending) {
            (Some(n), Some(p)) => {
                self.upsert_user_row(
                    user,
                    MarginUser {
                        debt: Debt { next_new_obligation_seqno: n, pending: p },
                        ..row
                    },
                );
                Ok(row.debt.next_new_obligation_seqno)
            },
            _ => Err(BondsError::ArithmeticOverflow),
        }
    }

    /// Settle an Out on new debt: shrink `user`'s pending debt by `base`.
    pub fn debt_process_out(&mut self, user: AccountKey, base: u64) -> (r: Result<(), BondsError>)
        ensures
            match spec_debt_process_out(old(self)@, user, base) {
                Ok(l2) => r == Ok::<(), BondsError>(()) && final(self)@ == l2,
                Err(e) => r == Err::<(), BondsError>(e) && final(self)@ == old(self)@,
            },
    {
        let row = self.user_row(user);
        match row.debt.pending.checked_sub(base) {
            Some(p) => {
                self.upsert_user_row(
                    user,
                    MarginUser { debt: Debt { pending: p, ..row.debt }, ..row },
                );
                Ok(())
            },
            None => Err(BondsError::ArithmeticOverflow),
        }
    }

    /// Record a freshly written split ticket.
    pub fn record_split_ticket(&mut self, stored: StoredTicket)
        ensures
            final(self)@ == (LedgerView {
                split_tickets: old(self)@.split_tickets.push(stored),
                ..old(self)@
            }),
    {
        self.split_tickets.push(stored);
    }

    /// Record a freshly written obligation.
    pub fn record_obligation(&mut self, stored: StoredObligation)
        ensures
            final(self)@ == (LedgerView {
                obligations: old(self)@.obligations.push(stored),
                ..old(self)@
            }),
    {
        self.obligations.push(stored);
    }
}

} // verus!
