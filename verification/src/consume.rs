//! The crank path: drain the event queue, validate the caller-supplied
//! accounts and seeds against each event's metadata, and settle each Fill
//! and Out into the ledger. The whole call is atomic: any failure leaves
//! the market and the ledger untouched.
use crate::callback::{spec_has_flag, CallbackInfo, AUTO_STAKE, MARGIN, NEW_DEBT};
use crate::events::{FillInfo, OrderbookEvent, OutInfo, QueueEvent};
use crate::hashing::spec_derived_key;
use crate::keys::AccountKey;
use crate::market::spec_price_of_order_id;
use crate::queue::{spec_materialize, spec_min_u64, EventQueue, QueueEntry, QueueIterator};
use crate::settle::{
    spec_debt_process_out, spec_entitled_tickets_add, spec_entitled_tokens_add, spec_mint_tickets,
    spec_new_obligation_from_fill, spec_withdraw_underlying, Obligation, SettlementLedger,
    SplitTicket, StoredObligation, StoredTicket,
};
use crate::{BondsError, Side};
use vstd::prelude::*;
use vstd::slice::slice_to_vec;

verus! {

/// One account the crank supplies, in order. `adapter_ok` says whether the
/// account deserializes as a usable adapter ring when one is expected;
/// an unusable adapter is skipped, never fatal.
#[derive(Clone, Copy, Debug, PartialEq, Eq, Structural)]
pub struct ProvidedAccount {
    pub key: AccountKey,
    pub adapter_ok: bool,
}

/// The settlement record a fill creates, with its derived address.
#[derive(Clone, Copy, Debug, PartialEq, Eq, Structural)]
pub enum LoanAccount {
    AutoStake(Option<AccountKey>),
    NewDebt(Option<AccountKey>),
}

/// The accounts a fill settles into.
#[derive(Clone, Copy, Debug, PartialEq, Eq, Structural)]
pub struct FillAccounts {
    pub maker: AccountKey,
    pub maker_adapter: Option<AccountKey>,
    pub taker_adapter: Option<AccountKey>,
    pub loan: Option<LoanAccount>,
}

/// The accounts an out settles into.
#[derive(Clone, Copy, Debug, PartialEq, Eq, Structural)]
pub struct OutAccounts {
    pub user: AccountKey,
    pub user_adapter_account: Option<AccountKey>,
}

/// The accounts one event settles into.
#[derive(Clone, Copy, Debug, PartialEq, Eq, Structural)]
pub enum EventAccounts {
    Fill(FillAccounts),
    Out(OutAccounts),
}

/// One best-effort delivery owed to an adapter ring: push `event` with
/// these callback records; a failed delivery is dropped, never fatal.
#[derive(Clone, Copy, Debug, PartialEq, Eq, Structural)]
pub struct AdapterNotice {
    pub adapter: AccountKey,
    pub event: QueueEvent,
    pub maker: CallbackInfo,
    pub taker: Option<CallbackInfo>,
}

/// The seed prefix under which split tickets are derived.
pub open spec fn spec_split_ticket_seed() -> Seq<u8> {
    seq![115u8, 112u8, 108u8, 105u8, 116u8, 95u8, 116u8, 105u8, 99u8, 107u8, 101u8, 116u8]
}

/// The seed prefix under which obligations are derived.
pub open spec fn spec_obligation_seed() -> Seq<u8> {
    seq![111u8, 98u8, 108u8, 105u8, 103u8, 97u8, 116u8, 105u8, 111u8, 110u8]
}

fn split_ticket_seed() -> (r: Vec<u8>)
    ensures
        r@ == spec_split_ticket_seed(),
{
    let mut r: Vec<u8> = Vec::new();
    r.push(115u8);
    r.push(112u8);
    r.push(108u8);
    r.push(105u8);
    r.push(116u8);
    r.push(95u8);
    r.push(116u8);
    r.push(105u8);
    r.push(99u8);
    r.push(107u8);
    r.push(101u8);
    r.push(116u8);
    proof {
        assert(r@ =~= spec_split_ticket_seed());
    }
    r
}

fn obligation_seed() -> (r: Vec<u8>)
    ensures
        r@ == spec_obligation_seed(),
{
    let mut r: Vec<u8> = Vec::new();
    r.push(111u8);
    r.push(98u8);
    r.push(108u8);
    r.push(105u8);
    r.push(103u8);
    r.push(97u8);
    r.push(116u8);
    r.push(105u8);
    r.push(111u8);
    r.push(110u8);
    proof {
        assert(r@ =~= spec_obligation_seed());
    }
    r
}

/// The seed list a settlement record is derived from: the role prefix, the
/// maker's fill account, and one caller-supplied seed.
pub open spec fn spec_loan_seeds(role: Seq<u8>, fill_account: AccountKey, user_seed: Seq<u8>)
    -> Seq<Seq<u8>> {
    seq![role, fill_account.spec_bytes(), user_seed]
}

/// Taking the next supplied account, which must be the expected one.
pub open spec fn spec_next_user_account(
    accts: Seq<ProvidedAccount>,
    pos: int,
    expected: AccountKey,
) -> Result<int, BondsError> {
    if pos >= accts.len() {
        Err(BondsError::WrongUserAccount)
    } else if accts[pos].key != expected {
        Err(BondsError::WrongUserAccount)
    } else {
        Ok(pos + 1)
    }
}

/// Taking the adapter account an order subscribes to, if any: an absent or
/// unusable adapter is skipped; a usable one under the wrong key is fatal.
pub open spec fn spec_next_adapter_if_needed(
    accts: Seq<ProvidedAccount>,
    pos: int,
    callback_info: CallbackInfo,
) -> Result<(Option<AccountKey>, int), BondsError> {
    match callback_info.spec_adapter() {
        None => Ok((None::<AccountKey>, pos)),
        Some(k) => if pos >= accts.len() {
            Ok((None::<AccountKey>, pos))
        } else if !accts[pos].adapter_ok {
            Ok((None::<AccountKey>, pos + 1))
        } else if accts[pos].key != k {
            Err(BondsError::WrongAdapter)
        } else {
            Ok((Some(k), pos + 1))
        },
    }
}

/// The loan account a fill needs: auto-stake and new-debt fills consume
/// one seed and derive the record's address; other fills need none.
pub open spec fn spec_loan_account(
    seeds: Seq<Seq<u8>>,
    spos: int,
    maker_info: CallbackInfo,
    program_id: AccountKey,
) -> Result<(Option<LoanAccount>, int), BondsError> {
    if spec_has_flag(maker_info.flags, AUTO_STAKE) {
        if spos >= seeds.len() {
            Err(BondsError::InsufficientSeeds)
        } else {
            Ok(
                (
                    Some(
                        LoanAccount::AutoStake(
                            spec_derived_key(
                                spec_loan_seeds(
                                    spec_split_ticket_seed(),
                                    maker_info.fill_account,
                                    seeds[spos],
                                ),
                                program_id,
                            ),
                        ),
                    ),
                    spos + 1,
                ),
            )
        }
    } else if spec_has_flag(maker_info.flags, NEW_DEBT) {
        if spos >= seeds.len() {
            Err(BondsError::InsufficientSeeds)
        } else {
            Ok(
                (
                    Some(
                        LoanAccount::NewDebt(
                            spec_derived_key(
                                spec_loan_seeds(
                                    spec_obligation_seed(),
                                    maker_info.fill_account,
                                    seeds[spos],
                                ),
                                program_id,
                            ),
                        ),
                    ),
                    spos + 1,
                ),
            )
        }
    } else {
        Ok((None::<LoanAccount>, spos))
    }
}

/// The account extraction for one fill: the maker account (which must be
/// the fill account), the two optional adapters, then the loan account.
pub open spec fn spec_extract_fill_accounts(
    accts: Seq<ProvidedAccount>,
    pos: int,
    seeds: Seq<Seq<u8>>,
    spos: int,
    maker_info: CallbackInfo,
    taker_info: CallbackInfo,
    program_id: AccountKey,
) -> Result<(FillAccounts, int, int), BondsError> {
    match spec_next_user_account(accts, pos, maker_info.fill_account) {
        Err(e) => Err(e),
        Ok(p1) => match spec_next_adapter_if_needed(accts, p1, maker_info) {
            Err(e) => Err(e),
            Ok((maker_adapter, p2)) => match spec_next_adapter_if_needed(accts, p2, taker_info) {
                Err(e) => Err(e),
                Ok((taker_adapter, p3)) => match spec_loan_account(
                    seeds,
                    spos,
                    maker_info,
                    program_id,
                ) {
                    Err(e) => Err(e),
                    Ok((loan, s1)) => Ok(
                        (
                            FillAccounts {
                                maker: maker_info.fill_account,
                                maker_adapter,
                                taker_adapter,
                                loan,
                            },
                            p3,
                            s1,
                        ),
                    ),
                },
            },
        },
    }
}

/// The account extraction for one out: the user account (which must be the
/// out account), then its optional adapter.
pub open spec fn spec_extract_out_accounts(
    accts: Seq<ProvidedAccount>,
    pos: int,
    info: CallbackInfo,
) -> Result<(OutAccounts, int), BondsError> {
    match spec_next_user_account(accts, pos, info.out_account) {
        Err(e) => Err(e),
        Ok(p1) => match spec_next_adapter_if_needed(accts, p1, info) {
            Err(e) => Err(e),
            Ok((user_adapter_account, p2)) => Ok(
                (OutAccounts { user: info.out_account, user_adapter_account }, p2),
            ),
        },
    }
}

/// The account extraction for one event.
pub open spec fn spec_extract_accounts(
    accts: Seq<ProvidedAccount>,
    pos: int,
    seeds: Seq<Seq<u8>>,
    spos: int,
    event: OrderbookEvent,
    program_id: AccountKey,
) -> Result<(EventAccounts, int, int), BondsError> {
    match event {
        OrderbookEvent::Fill(fill) => match spec_extract_fill_accounts(
            accts,
            pos,
            seeds,
            spos,
            fill.maker_info,
            fill.taker_info,
            program_id,
        ) {
            Err(e) => Err(e),
            Ok((fa, p2, s2)) => Ok((EventAccounts::Fill(fa), p2, s2)),
        },
        OrderbookEvent::Out(out) => match spec_extract_out_accounts(accts, pos, out.info) {
            Err(e) => Err(e),
            Ok((oa, p2)) => Ok((EventAccounts::Out(oa), p2, spos)),
        },
    }
}

/// The adapter deliveries a fill owes: the taker's sink first, then the
/// maker's, each carrying the fill and both callback records.
pub open spec fn spec_fill_notices(accounts: FillAccounts, fill: FillInfo) -> Seq<AdapterNotice> {
    let base = Seq::<AdapterNotice>::empty();
    let with_taker = match accounts.taker_adapter {
        Some(k) => base.push(
            AdapterNotice {
                adapter: k,
                event: QueueEvent::Fill(fill.event),
                maker: fill.maker_info,
                taker: Some(fill.taker_info),
            },
        ),
        None => base,
    };
    match accounts.maker_adapter {
        Some(k) => with_taker.push(
            AdapterNotice {
                adapter: k,
                event: QueueEvent::Fill(fill.event),
                maker: fill.maker_info,
                taker: Some(fill.taker_info),
            },
        ),
        None => with_taker,
    }
}

/// The derived address inside an auto-stake loan account.
pub open spec fn spec_auto_stake_address(loan: Option<LoanAccount>) -> Option<AccountKey> {
    match loan {
        Some(LoanAccount::AutoStake(a)) => a,
        _ => None,
    }
}

/// The derived address inside a new-debt loan account.
pub open spec fn spec_new_debt_address(loan: Option<LoanAccount>) -> Option<AccountKey> {
    match loan {
        Some(LoanAccount::NewDebt(a)) => a,
        _ => None,
    }
}

/// What settling one fill does to the ledger, and the adapter deliveries
/// it owes. The maker lent (bid side): auto-stake writes a split ticket
/// whose principal is the quote paid and whose interest is the remainder
/// of the base; a margin maker is credited entitled tickets; anyone else
/// is minted tickets. The maker borrowed (ask side): a margin maker is
/// credited entitled tokens, and under new debt an obligation is opened;
/// anyone else withdraws the quote from the vault.
pub open spec fn spec_handle_fill(
    l: crate::settle::LedgerView,
    manager_key: AccountKey,
    duration: i64,
    accounts: FillAccounts,
    fill: FillInfo,
) -> Result<(crate::settle::LedgerView, Seq<AdapterNotice>), BondsError> {
    let notices = spec_fill_notices(accounts, fill);
    match Side::spec_from_u8(fill.event.taker_side) {
        None => Err(BondsError::InvalidEvent),
        Some(taker_side) => {
            let maker_side = taker_side.spec_opposite();
            let fill_timestamp = fill.taker_info.order_submitted;
            if duration + fill_timestamp > i64::MAX || duration + fill_timestamp < i64::MIN {
                Err(BondsError::ArithmeticOverflow)
            } else {
                let maturation_timestamp = (duration + fill_timestamp) as i64;
                match maker_side {
                    Side::Bid => if spec_has_flag(fill.maker_info.flags, AUTO_STAKE) {
                        if fill.event.base_size < fill.event.quote_size {
                            Err(BondsError::ArithmeticOverflow)
                        } else {
                            let ticket = SplitTicket {
                                owner: accounts.maker,
                                bond_manager: manager_key,
                                order_tag: fill.maker_info.order_tag,
                                maturation_timestamp,
                                struck_timestamp: fill_timestamp,
                                principal: fill.event.quote_size,
                                interest: (fill.event.base_size - fill.event.quote_size) as u64,
                            };
                            Ok(
                                (
                                    crate::settle::LedgerView {
                                        split_tickets: l.split_tickets.push(
                                            StoredTicket {
                                                address: spec_auto_stake_address(accounts.loan),
                                                ticket,
                                            },
                                        ),
                                        ..l
                                    },
                                    notices,
                                ),
                            )
                        }
                    } else if spec_has_flag(fill.maker_info.flags, MARGIN) {
                        match spec_entitled_tickets_add(l, accounts.maker, fill.event.base_size) {
                            Ok(l2) => Ok((l2, notices)),
                            Err(e) => Err(e),
                        }
                    } else {
                        match spec_mint_tickets(l, accounts.maker, fill.event.base_size) {
                            Ok(l2) => Ok((l2, notices)),
                            Err(e) => Err(e),
                        }
                    },
                    Side::Ask => if spec_has_flag(fill.maker_info.flags, MARGIN) {
                        match spec_entitled_tokens_add(l, accounts.maker, fill.event.quote_size) {
                            Err(e) => Err(e),
                            Ok(l2) => if spec_has_flag(fill.maker_info.flags, NEW_DEBT) {
                                match spec_new_obligation_from_fill(
                                    l2,
                                    accounts.maker,
                                    fill.event.base_size,
                                ) {
                                    Err(e) => Err(e),
                                    Ok((l3, seq)) => {
                                        let obligation = Obligation {
                                            sequence_number: seq,
                                            borrower_account: accounts.maker,
                                            bond_manager: manager_key,
                                            order_tag: fill.maker_info.order_tag,
                                            maturation_timestamp,
                                            balance: fill.event.base_size,
                                            flags: 0,
                                        };
                                        Ok(
                                            (
                                                crate::settle::LedgerView {
                                                    obligations: l3.obligations.push(
                                                        StoredObligation {
                                                            address: spec_new_debt_address(
                                                                accounts.loan,
                                                            ),
                                                            obligation,
                                                        },
                                                    ),
                                                    ..l3
                                                },
                                                notices,
                                            ),
                                        )
                                    },
                                }
                            } else {
                                Ok((l2, notices))
                            },
                        }
                    } else {
                        match spec_withdraw_underlying(l, accounts.maker, fill.event.quote_size) {
                            Ok(l2) => Ok((l2, notices)),
                            Err(e) => Err(e),
                        }
                    },
                }
            }
        },
    }
}

/// What settling one out does to the ledger, and the adapter delivery it
/// owes. The quote is reconstructed from the order id's price; a removed
/// bid refunds that quote from the vault; a removed ask under new debt
/// shrinks the user's pending debt, and otherwise mints the base back as
/// tickets.
pub open spec fn spec_handle_out(
    l: crate::settle::LedgerView,
    accounts: OutAccounts,
    out: OutInfo,
) -> Result<(crate::settle::LedgerView, Seq<AdapterNotice>), BondsError> {
    let notices = match accounts.user_adapter_account {
        Some(k) => Seq::<AdapterNotice>::empty().push(
            AdapterNotice {
                adapter: k,
                event: QueueEvent::Out(out.event),
                maker: out.info,
                taker: None,
            },
        ),
        None => Seq::<AdapterNotice>::empty(),
    };
    let price = spec_price_of_order_id(out.event.order_id);
    if (out.event.base_size * price) / 0x1_0000_0000 > u64::MAX {
        Err(BondsError::ArithmeticOverflow)
    } else {
        let quote_size = ((out.event.base_size * price) / 0x1_0000_0000) as u64;
        match Side::spec_from_u8(out.event.side) {
            None => Err(BondsError::InvalidEvent),
            Some(Side::Bid) => match spec_withdraw_underlying(l, accounts.user, quote_size) {
                Ok(l2) => Ok((l2, notices)),
                Err(e) => Err(e),
            },
            Some(Side::Ask) => if spec_has_flag(out.info.flags, NEW_DEBT) {
                match spec_debt_process_out(l, accounts.user, out.event.base_size) {
                    Ok(l2) => Ok((l2, notices)),
                    Err(e) => Err(e),
                }
            } else {
                match spec_mint_tickets(l, accounts.user, out.event.base_size) {
                    Ok(l2) => Ok((l2, notices)),
                    Err(e) => Err(e),
                }
            },
        }
    }
}

/// Settle one fill into the ledger. On an error the ledger copy may hold
/// partial effects; consume calls settle into a working copy and commit
/// only a fully settled one.
pub fn handle_fill(
    ledger: &mut SettlementLedger,
    manager_key: AccountKey,
    duration: i64,
    accounts: &FillAccounts,
    fill: &FillInfo,
) -> (r: Result<Vec<AdapterNotice>, BondsError>)
    ensures
        match spec_handle_fill(old(ledger)@, manager_key, duration, *accounts, *fill) {
            Ok((l2, nt)) => r is Ok && r.unwrap()@ == nt && final(ledger)@ == l2,
            Err(e) => r == Err::<Vec<AdapterNotice>, BondsError>(e),
        },
{
    let mut notices: Vec<AdapterNotice> = Vec::new();
    if let Some(k) = accounts.taker_adapter {
        notices.push(
            AdapterNotice {
                adapter: k,
                event: QueueEvent::Fill(fill.event),
                maker: fill.maker_info,
                taker: Some(fill.taker_info),
            },
        );
    }
    if let Some(k) = accounts.maker_adapter {
        notices.push(
            AdapterNotice {
                adapter: k,
                event: QueueEvent::Fill(fill.event),
                maker: fill.maker_info,
                taker: Some(fill.taker_info),
            },
        );
    }
    proof {
        assert(notices@ =~= spec_fill_notices(*accounts, *fill));
    }
    let taker_side = match Side::from_u8(fill.event.taker_side) {
        Some(s) => s,
        None => {
            return Err(BondsError::InvalidEvent);
        },
    };
    let maker_side = taker_side.opposite();
    let fill_timestamp = fill.taker_info.order_submitted;
    let maturation_timestamp = match duration.checked_add(fill_timestamp) {
        Some(t) => t,
        None => {
            return Err(BondsError::ArithmeticOverflow);
        },
    };
    match maker_side {
        Side::Bid => {
            if crate::callback::has_flag(fill.maker_info.flags, AUTO_STAKE) {
                let principal = fill.event.quote_size;
                let interest = match fill.event.base_size.checked_sub(principal) {
                    Some(v) => v,
                    None => {
                        return Err(BondsError::ArithmeticOverflow);
                    },
                };
                let ticket = SplitTicket {
                    owner: accounts.maker,
                    bond_manager: manager_key,
                    order_tag: fill.maker_info.order_tag,
                    maturation_timestamp,
                    struck_timestamp: fill_timestamp,
                    principal,
                    interest,
                };
                let address = match accounts.loan {
                    Some(LoanAccount::AutoStake(a)) => a,
                    _ => None,
                };
                ledger.record_split_ticket(StoredTicket { address, ticket });
            } else if crate::callback::has_flag(fill.maker_info.flags, MARGIN) {
                let outcome = ledger.entitled_tickets_add(accounts.maker, fill.event.base_size);
                if let Err(e) = outcome {
                    return Err(e);
                }
            } else {
                let outcome = ledger.mint_tickets(accounts.maker, fill.event.base_size);
                if let Err(e) = outcome {
                    return Err(e);
                }
            }
        },
        Side::Ask => {
            if crate::callback::has_flag(fill.maker_info.flags, MARGIN) {
                let outcome = ledger.entitled_tokens_add(accounts.maker, fill.event.quote_size);
                if let Err(e) = outcome {
                    return Err(e);
                }
                if crate::callback::has_flag(fill.maker_info.flags, NEW_DEBT) {
                    let seq = match ledger.new_obligation_from_fill(
                        accounts.maker,
                        fill.event.base_size,
                    ) {
                        Ok(s) => s,
                        Err(e) => {
                            return Err(e);
                        },
                    };
                    let obligation = Obligation {
                        sequence_number: seq,
                        borrower_account: accounts.maker,
                        bond_manager: manager_key,
                        order_tag: fill.maker_info.order_tag,
                        maturation_timestamp,
                        balance: fill.event.base_size,
                        flags: 0,
                    };
                    let address = match accounts.loan {
                        Some(LoanAccount::NewDebt(a)) => a,
                        _ => None,
                    };
                    ledger.record_obligation(StoredObligation { address, obligation });
                }
            } else {
                let outcome = ledger.withdraw_underlying(accounts.maker, fill.event.quote_size);
                if let Err(e) = outcome {
                    return Err(e);
                }
            }
        },
    }
    Ok(notices)
}

/// Settle one out into the ledger. On an error the ledger copy may hold
/// partial effects; consume calls settle into a working copy and commit
/// only a fully settled one.
pub fn handle_out(ledger: &mut SettlementLedger, accounts: &OutAccounts, out: &OutInfo) -> (r:
    Result<Vec<AdapterNotice>, BondsError>)
    ensures
        match spec_handle_out(old(ledger)@, *accounts, *out) {
            Ok((l2, nt)) => r is Ok && r.unwrap()@ == nt && final(ledger)@ == l2,
            Err(e) => r == Err::<Vec<AdapterNotice>, BondsError>(e),
        },
{
    let mut notices: Vec<AdapterNotice> = Vec::new();
    if let Some(k) = accounts.user_adapter_account {
        notices.push(
            AdapterNotice {
                adapter: k,
                event: QueueEvent::Out(out.event),
                maker: out.info,
                taker: None,
            },
        );
    }
    proof {
        assert(notices@ =~= match accounts.user_adapter_account {
            Some(k) => Seq::<AdapterNotice>::empty().push(
                AdapterNotice {
                    adapter: k,
                    event: QueueEvent::Out(out.event),
                    maker: out.info,
                    taker: None,
                },
            ),
            None => Seq::<AdapterNotice>::empty(),
        });
    }
    let price = crate::market::price_of_order_id(out.event.order_id);
    let quote_size = match crate::fp32::fp32_mul(out.event.base_size, price) {
        Some(q) => q,
        None => {
            return Err(BondsError::ArithmeticOverflow);
        },
    };
    let side = match Side::from_u8(out.event.side) {
        Some(s) => s,
        None => {
            return Err(BondsError::InvalidEvent);
        },
    };
    match side {
        Side::Bid => {
            let outcome = ledger.withdraw_underlying(accounts.user, quote_size);
            if let Err(e) = outcome {
                return Err(e);
            }
        },
        Side::Ask => {
            if crate::callback::has_flag(out.info.flags, NEW_DEBT) {
                let outcome = ledger.debt_process_out(accounts.user, out.event.base_size);
                if let Err(e) = outcome {
                    return Err(e);
                }
            } else {
                let outcome = ledger.mint_tickets(accounts.user, out.event.base_size);
                if let Err(e) = outcome {
                    return Err(e);
                }
            }
        },
    }
    Ok(notices)
}

/// Walks the caller-supplied account list in order.
pub struct UserAccounts<'a> {
    pub accounts: &'a Vec<ProvidedAccount>,
    pub pos: usize,
}

impl<'a> UserAccounts<'a> {
    pub open spec fn wf(self) -> bool {
        self.pos <= self.accounts.len()
    }

    /// Take the next account; it must be the expected one.
    pub fn next_user_account(&mut self, expected: AccountKey) -> (r: Result<
        AccountKey,
        BondsError,
    >)
        requires
            old(self).wf(),
        ensures
            final(self).wf(),
            final(self).accounts == old(self).accounts,
            match spec_next_user_account(old(self).accounts@, old(self).pos as int, expected) {
                Ok(p1) => r == Ok::<AccountKey, BondsError>(expected) && final(self).pos == p1,
                Err(e) => r == Err::<AccountKey, BondsError>(e) && final(self).pos == old(self).pos,
            },
    {
        if self.pos >= self.accounts.len() {
            return Err(BondsError::WrongUserAccount);
        }
        let account = *vstd::std_specs::vec::vec_index(self.accounts, self.pos);
        if !(account.key == expected) {
            return Err(BondsError::WrongUserAccount);
        }
        self.pos = self.pos + 1;
        Ok(expected)
    }

    /// Take the adapter account the order subscribes to, if any; skip an
    /// absent or unusable one, refuse a usable one under the wrong key.
    pub fn next_adapter_if_needed(&mut self, callback_info: &CallbackInfo) -> (r: Result<
        Option<AccountKey>,
        BondsError,
    >)
        requires
            old(self).wf(),
        ensures
            final(self).wf(),
            final(self).accounts == old(self).accounts,
            match spec_next_adapter_if_needed(
                old(self).accounts@,
                old(self).pos as int,
                *callback_info,
            ) {
                Ok((opt, p1)) => r == Ok::<Option<AccountKey>, BondsError>(opt) && final(self).pos == p1,
                Err(e) => r == Err::<Option<AccountKey>, BondsError>(e) && final(self).pos == old(self).pos,
            },
    {
        let adapter = callback_info.adapter();
        match adapter {
            None => Ok(None),
            Some(k) => {
                if self.pos >= self.accounts.len() {
                    return Ok(None);
                }
                let account = *vstd::std_specs::vec::vec_index(self.accounts, self.pos);
                if !account.adapter_ok {
                    self.pos = self.pos + 1;
                    return Ok(None);
                }
                if !(account.key == k) {
                    return Err(BondsError::WrongAdapter);
                }
                self.pos = self.pos + 1;
                Ok(Some(k))
            },
        }
    }
}

/// Law of the auto-stake fill: whenever a fill whose maker lent (the taker
/// asked) under the auto-stake flag settles, exactly one split ticket is
/// written, its principal is the quote paid, principal plus interest is
/// the base bought, and it matures at the fill timestamp plus the tenor;
/// no obligation is created.
pub proof fn lemma_auto_stake_fill(
    l: crate::settle::LedgerView,
    manager_key: AccountKey,
    duration: i64,
    accounts: FillAccounts,
    fill: FillInfo,
)
    requires
        fill.event.taker_side == 1,
        spec_has_flag(fill.maker_info.flags, AUTO_STAKE),
        spec_handle_fill(l, manager_key, duration, accounts, fill) is Ok,
    ensures
        ({
            let (l2, _) = spec_handle_fill(l, manager_key, duration, accounts, fill).unwrap();
            let ticket = l2.split_tickets.last().ticket;
            &&& l2.split_tickets.len() == l.split_tickets.len() + 1
            &&& ticket.principal == fill.event.quote_size
            &&& ticket.principal + ticket.interest == fill.event.base_size
            &&& ticket.maturation_timestamp == fill.taker_info.order_submitted + duration
            &&& ticket.struck_timestamp == fill.taker_info.order_submitted
            &&& l2.obligations == l.obligations
        }),
{
}

/// Law of the new-debt fill: whenever a fill whose maker borrowed (the
/// taker bid) under the margin and new-debt flags settles, exactly one
/// obligation is opened, its balance is the base sold, and it matures at
/// the fill timestamp plus the tenor; no split ticket is created.
pub proof fn lemma_new_debt_fill(
    l: crate::settle::LedgerView,
    manager_key: AccountKey,
    duration: i64,
    accounts: FillAccounts,
    fill: FillInfo,
)
    requires
        fill.event.taker_side == 0,
        spec_has_flag(fill.maker_info.flags, MARGIN),
        spec_has_flag(fill.maker_info.flags, NEW_DEBT),
        !spec_has_flag(fill.maker_info.flags, AUTO_STAKE),
        spec_handle_fill(l, manager_key, duration, accounts, fill) is Ok,
    ensures
        ({
            let (l2, _) = spec_handle_fill(l, manager_key, duration, accounts, fill).unwrap();
            let obligation = l2.obligations.last().obligation;
            &&& l2.obligations.len() == l.obligations.len() + 1
            &&& obligation.balance == fill.event.base_size
            &&& obligation.maturation_timestamp == fill.taker_info.order_submitted + duration
            &&& obligation.borrower_account == accounts.maker
            &&& l2.split_tickets == l.split_tickets
        }),
{
}

/// What processing one queue entry does: extract its accounts, then settle
/// it.
pub open spec fn spec_process_entry(
    l: crate::settle::LedgerView,
    manager_key: AccountKey,
    duration: i64,
    program_id: AccountKey,
    accts: Seq<ProvidedAccount>,
    pos: int,
    seeds: Seq<Seq<u8>>,
    spos: int,
    entry: QueueEntry,
) -> Result<(crate::settle::LedgerView, Seq<AdapterNotice>, int, int), BondsError> {
    match spec_materialize(entry) {
        OrderbookEvent::Fill(fill) => match spec_extract_fill_accounts(
            accts,
            pos,
            seeds,
            spos,
            fill.maker_info,
            fill.taker_info,
            program_id,
        ) {
            Err(e) => Err(e),
            Ok((fa, p2, s2)) => match spec_handle_fill(l, manager_key, duration, fa, fill) {
                Err(e) => Err(e),
                Ok((l2, nt)) => Ok((l2, nt, p2, s2)),
            },
        },
        OrderbookEvent::Out(out) => match spec_extract_out_accounts(accts, pos, out.info) {
            Err(e) => Err(e),
            Ok((oa, p2)) => match spec_handle_out(l, oa, out) {
                Err(e) => Err(e),
                Ok((l2, nt)) => Ok((l2, nt, p2, spos)),
            },
        },
    }
}

/// What processing a run of queue entries does, front to back: the ledger
/// threads through, the account and seed cursors advance, the adapter
/// notices accumulate, and the first failure aborts the whole run.
pub open spec fn spec_consume_entries(
    l: crate::settle::LedgerView,
    manager_key: AccountKey,
    duration: i64,
    program_id: AccountKey,
    accts: Seq<ProvidedAccount>,
    pos: int,
    seeds: Seq<Seq<u8>>,
    spos: int,
    entries: Seq<QueueEntry>,
) -> Result<(crate::settle::LedgerView, Seq<AdapterNotice>), BondsError>
    decreases entries.len(),
{
    if entries.len() == 0 {
        Ok((l, Seq::<AdapterNotice>::empty()))
    } else {
        match spec_process_entry(
            l,
            manager_key,
            duration,
            program_id,
            accts,
            pos,
            seeds,
            spos,
            entries[0],
        ) {
            Err(e) => Err(e),
            Ok((l2, nt, p2, s2)) => match spec_consume_entries(
                l2,
                manager_key,
                duration,
                program_id,
                accts,
                p2,
                seeds,
                s2,
                entries.skip(1),
            ) {
                Err(e) => Err(e),
                Ok((l3, nts)) => Ok((l3, nt + nts)),
            },
        }
    }
}

/// Joins the queue walk with account and seed extraction: yields each
/// event with the accounts it settles into.
pub struct EventIterator<'a> {
    pub queue: QueueIterator<'a>,
    pub accounts: UserAccounts<'a>,
    pub seeds: &'a Vec<Vec<u8>>,
    pub seed_pos: usize,
    pub program_id: AccountKey,
}

/// Begin a walk of the queue against the crank's accounts and seeds.
pub fn queue<'a>(
    event_queue: &'a EventQueue,
    accounts: &'a Vec<ProvidedAccount>,
    seeds: &'a Vec<Vec<u8>>,
    program_id: AccountKey,
) -> (r: EventIterator<'a>)
    requires
        event_queue.wf(),
    ensures
        r.wf(),
        *r.queue.queue == *event_queue,
        r.queue.current_index == 0,
        r.queue.remaining == event_queue.header.count,
        r.accounts.accounts == accounts,
        r.accounts.pos == 0,
        r.seeds == seeds,
        r.seed_pos == 0,
        r.program_id == program_id,
{
    EventIterator {
        queue: event_queue.iter(),
        accounts: UserAccounts { accounts, pos: 0 },
        seeds,
        seed_pos: 0,
        program_id,
    }
}

impl<'a> EventIterator<'a> {
    pub open spec fn wf(self) -> bool {
        &&& self.queue.wf()
        &&& self.accounts.wf()
        &&& self.seed_pos <= self.seeds.len()
    }

    /// Extract the accounts and the derived loan address for one fill.
    pub fn extract_fill_accounts(
        &mut self,
        maker_info: &CallbackInfo,
        taker_info: &CallbackInfo,
    ) -> (r: Result<EventAccounts, BondsError>)
        requires
            old(self).accounts.wf(),
            old(self).seed_pos <= old(self).seeds.len(),
        ensures
            final(self).queue == old(self).queue,
            final(self).accounts.accounts == old(self).accounts.accounts,
            final(self).seeds == old(self).seeds,
            final(self).program_id == old(self).program_id,
            final(self).accounts.wf(),
            final(self).seed_pos <= final(self).seeds.len(),
            match spec_extract_fill_accounts(
                old(self).accounts.accounts@,
                old(self).accounts.pos as int,
                old(self).seeds.deep_view(),
                old(self).seed_pos as int,
                *maker_info,
                *taker_info,
                old(self).program_id,
            ) {
                Ok((fa, p2, s2)) => r == Ok::<EventAccounts, BondsError>(EventAccounts::Fill(fa))
                    && final(self).accounts.pos == p2 && final(self).seed_pos == s2,
                Err(e) => r == Err::<EventAccounts, BondsError>(e),
            },
    {
        let maker = match self.accounts.next_user_account(maker_info.fill_account) {
            Ok(k) => k,
            Err(e) => {
                return Err(e);
            },
        };
        let maker_adapter = match self.accounts.next_adapter_if_needed(maker_info) {
            Ok(v) => v,
            Err(e) => {
                return Err(e);
            },
        };
        let taker_adapter = match self.accounts.next_adapter_if_needed(taker_info) {
            Ok(v) => v,
            Err(e) => {
                return Err(e);
            },
        };
        let loan: Option<LoanAccount> = if crate::callback::has_flag(
            maker_info.flags,
            AUTO_STAKE,
        ) {
            if self.seed_pos >= self.seeds.len() {
                return Err(BondsError::InsufficientSeeds);
            }
            let user_seed = slice_to_vec(
                vstd::std_specs::vec::vec_index(self.seeds, self.seed_pos).as_slice(),
            );
            let mut seed_list: Vec<Vec<u8>> = Vec::new();
            seed_list.push(split_ticket_seed());
            seed_list.push(maker_info.fill_account.to_bytes());
            seed_list.push(user_seed);
            proof {
                lemma_deep_view_element(self.seeds, self.seed_pos as int);
                lemma_seed_list_view(
                    seed_list,
                    spec_split_ticket_seed(),
                    maker_info.fill_account,
                    old(self).seeds.deep_view()[old(self).seed_pos as int],
                );
            }
            let address = crate::hashing::derive_record_key(&seed_list, &self.program_id);
            self.seed_pos = self.seed_pos + 1;
            Some(LoanAccount::AutoStake(address))
        } else if crate::callback::has_flag(maker_info.flags, NEW_DEBT) {
            if self.seed_pos >= self.seeds.len() {
                return Err(BondsError::InsufficientSeeds);
            }
            let user_seed = slice_to_vec(
                vstd::std_specs::vec::vec_index(self.seeds, self.seed_pos).as_slice(),
            );
            let mut seed_list: Vec<Vec<u8>> = Vec::new();
            seed_list.push(obligation_seed());
            seed_list.push(maker_info.fill_account.to_bytes());
            seed_list.push(user_seed);
            proof {
                lemma_deep_view_element(self.seeds, self.seed_pos as int);
                lemma_seed_list_view(
                    seed_list,
                    spec_obligation_seed(),
                    maker_info.fill_account,
                    old(self).seeds.deep_view()[old(self).seed_pos as int],
                );
            }
            let address = crate::hashing::derive_record_key(&seed_list, &self.program_id);
            self.seed_pos = self.seed_pos + 1;
            Some(LoanAccount::NewDebt(address))
        } else {
            None
        };
        Ok(EventAccounts::Fill(FillAccounts { maker, maker_adapter, taker_adapter, loan }))
    }

    /// Extract the accounts one event settles into.
    pub fn extract_accounts(&mut self, event: &OrderbookEvent) -> (r: Result<
        EventAccounts,
        BondsError,
    >)
        requires
            old(self).accounts.wf(),
            old(self).seed_pos <= old(self).seeds.len(),
        ensures
            final(self).queue == old(self).queue,
            final(self).accounts.accounts == old(self).accounts.accounts,
            final(self).seeds == old(self).seeds,
            final(self).program_id == old(self).program_id,
            final(self).accounts.wf(),
            final(self).seed_pos <= final(self).seeds.len(),
            match spec_extract_accounts(
                old(self).accounts.accounts@,
                old(self).accounts.pos as int,
                old(self).seeds.deep_view(),
                old(self).seed_pos as int,
                *event,
                old(self).program_id,
            ) {
                Ok((ea, p2, s2)) => r == Ok::<EventAccounts, BondsError>(ea) && final(self).accounts.pos == p2 && final(self).seed_pos == s2,
                Err(e) => r == Err::<EventAccounts, BondsError>(e),
            },
    {
        match event {
            OrderbookEvent::Fill(fill) => self.extract_fill_accounts(
                &fill.maker_info,
                &fill.taker_info,
            ),
            OrderbookEvent::Out(out) => {
                let user = match self.accounts.next_user_account(out.info.out_account) {
                    Ok(k) => k,
                    Err(e) => {
                        return Err(e);
                    },
                };
                let user_adapter_account = match self.accounts.next_adapter_if_needed(&out.info) {
                    Ok(v) => v,
                    Err(e) => {
                        return Err(e);
                    },
                };
                Ok(EventAccounts::Out(OutAccounts { user, user_adapter_account }))
            },
        }
    }

    /// The next event together with its accounts, or `None` when the walk
    /// is done; an extraction failure is the caller's to surface.
    pub fn next(&mut self) -> (r: Option<Result<(EventAccounts, OrderbookEvent), BondsError>>)
        requires
            old(self).wf(),
        ensures
            final(self).wf(),
            final(self).queue.queue == old(self).queue.queue,
            final(self).accounts.accounts == old(self).accounts.accounts,
            final(self).seeds == old(self).seeds,
            final(self).program_id == old(self).program_id,
            old(self).queue.remaining == 0 ==> r is None && *final(self) == *old(self),
            old(self).queue.remaining > 0 ==> ({
                let entry = old(self).queue.queue.entries()[old(self).queue.current_index as int];
                let ev = spec_materialize(entry);
                &&& final(self).queue.current_index == old(self).queue.current_index + 1
                &&& final(self).queue.remaining == old(self).queue.remaining - 1
                &&& match spec_extract_accounts(
                    old(self).accounts.accounts@,
                    old(self).accounts.pos as int,
                    old(self).seeds.deep_view(),
                    old(self).seed_pos as int,
                    ev,
                    old(self).program_id,
                ) {
                    Ok((ea, p2, s2)) => r == Some(
                        Ok::<(EventAccounts, OrderbookEvent), BondsError>((ea, ev)),
                    ) && final(self).accounts.pos == p2 && final(self).seed_pos == s2,
                    Err(e) => r == Some(Err::<(EventAccounts, OrderbookEvent), BondsError>(e)),
                }
            }),
    {
        let ev = match self.queue.next() {
            Some(e) => e,
            None => {
                return None;
            },
        };
        match self.extract_accounts(&ev) {
            Ok(ea) => Some(Ok((ea, ev))),
            Err(e) => Some(Err(e)),
        }
    }
}

/// An element of a seed list's abstract form is that seed's byte view.
proof fn lemma_deep_view_element(seeds: &Vec<Vec<u8>>, i: int)
    requires
        0 <= i < seeds.len(),
    ensures
        seeds.deep_view()[i] == seeds@[i]@,
{
    assert(seeds.deep_view()[i] =~= seeds@[i]@);
}

/// A three-element seed list's abstract form is the three seeds.
proof fn lemma_seed_list_view(
    seed_list: Vec<Vec<u8>>,
    role: Seq<u8>,
    fill_account: AccountKey,
    user_seed: Seq<u8>,
)
    requires
        seed_list@.len() == 3,
        seed_list@[0]@ == role,
        seed_list@[1]@ == fill_account.spec_bytes(),
        seed_list@[2]@ == user_seed,
    ensures
        seed_list.deep_view() == spec_loan_seeds(role, fill_account, user_seed),
{
    assert(seed_list.deep_view()[0] =~= seed_list@[0]@);
    assert(seed_list.deep_view()[1] =~= seed_list@[1]@);
    assert(seed_list.deep_view()[2] =~= seed_list@[2]@);
    assert(seed_list.deep_view() =~= spec_loan_seeds(role, fill_account, user_seed));
}

/// What one consume call reports back: how many events it settled, and the
/// adapter deliveries owed (each best-effort, performed by the caller
/// against the user-owned rings).
#[derive(Debug)]
pub struct ConsumeOutcome {
    pub processed: u32,
    pub adapter_notices: Vec<AdapterNotice>,
}

/// Drain and settle up to `num_events` events. The whole call is atomic:
/// the queue advances and the ledger changes only if every taken event
/// extracts and settles; any failure leaves both untouched. A call that
/// would settle nothing fails with `NoEvents`.
pub fn handler(
    market: &mut crate::market::OrderbookMut,
    ledger: &mut SettlementLedger,
    num_events: u32,
    seeds: &Vec<Vec<u8>>,
    accounts: &Vec<ProvidedAccount>,
    program_id: AccountKey,
) -> (r: Result<ConsumeOutcome, BondsError>)
    requires
        old(market).wf(),
    ensures
        final(market).wf(),
        ({
            let k = spec_min_u64(num_events as u64, old(market).event_queue.header.count);
            let taken = old(market).event_queue.entries().take(k as int);
            if k == 0 {
                &&& r == Err::<ConsumeOutcome, BondsError>(BondsError::NoEvents)
                &&& *final(market) == *old(market)
                &&& final(ledger)@ == old(ledger)@
            } else {
                match spec_consume_entries(
                    old(ledger)@,
                    old(market).manager.key,
                    old(market).manager.duration,
                    program_id,
                    accounts@,
                    0,
                    seeds.deep_view(),
                    0,
                    taken,
                ) {
                    Ok((l2, nts)) => {
                        &&& r is Ok
                        &&& r.unwrap().processed == k
                        &&& r.unwrap().adapter_notices@ == nts
                        &&& final(ledger)@ == l2
                        &&& final(market).manager == old(market).manager
                        &&& final(market).bids@ == old(market).bids@
                        &&& final(market).asks@ == old(market).asks@
                        &&& final(market).event_queue.capacity == old(
                            market,
                        ).event_queue.capacity
                        &&& final(market).event_queue.key == old(market).event_queue.key
                        &&& final(market).event_queue.is_adapter == old(
                            market,
                        ).event_queue.is_adapter
                        &&& final(market).event_queue.header.count == old(
                            market,
                        ).event_queue.header.count - k
                        &&& final(market).event_queue.header.head == (old(
                            market,
                        ).event_queue.header.head + k) % (old(market).event_queue.capacity as int)
                        &&& final(market).event_queue.entries() =~= old(
                            market,
                        ).event_queue.entries().skip(k as int)
                    },
                    Err(e) => {
                        &&& r == Err::<ConsumeOutcome, BondsError>(e)
                        &&& *final(market) == *old(market)
                        &&& final(ledger)@ == old(ledger)@
                    },
                }
            }
        }),
{
    let count = market.event_queue.header.count;
    let k64: u64 = if (num_events as u64) <= count {
        num_events as u64
    } else {
        count
    };
    if k64 == 0 {
        return Err(BondsError::NoEvents);
    }
    let duration = market.manager.duration;
    let manager_key = market.manager.key;
    let mut working = ledger.clone_ledger();
    let mut all_notices: Vec<AdapterNotice> = Vec::new();
    let ghost l0 = ledger@;
    let ghost taken = market.event_queue.entries().take(k64 as int);
    let mut it = queue(&market.event_queue, accounts, seeds, program_id);
    proof {
        assert(taken.skip(0) =~= taken);
        match spec_consume_entries(
            working@,
            manager_key,
            duration,
            program_id,
            accounts@,
            0,
            seeds.deep_view(),
            0,
            taken,
        ) {
            Ok((lr, nr)) => {
                assert(all_notices@ + nr =~= nr);
            },
            Err(e) => {},
        }
    }
    let mut i: u64 = 0;
    while i < k64
        invariant
            old(market).wf(),
            it.wf(),
            *it.queue.queue == old(market).event_queue,
            it.accounts.accounts == accounts,
            it.seeds == seeds,
            it.program_id == program_id,
            it.queue.current_index == i,
            i <= k64,
            0 < k64 <= old(market).event_queue.header.count,
            k64 == spec_min_u64(num_events as u64, old(market).event_queue.header.count),
            taken == old(market).event_queue.entries().take(k64 as int),
            duration == old(market).manager.duration,
            manager_key == old(market).manager.key,
            l0 == old(ledger)@,
            ledger@ == old(ledger)@,
            match spec_consume_entries(
                working@,
                manager_key,
                duration,
                program_id,
                accounts@,
                it.accounts.pos as int,
                seeds.deep_view(),
                it.seed_pos as int,
                taken.skip(i as int),
            ) {
                Ok((lr, nr)) => spec_consume_entries(
                    l0,
                    manager_key,
                    duration,
                    program_id,
                    accounts@,
                    0,
                    seeds.deep_view(),
                    0,
                    taken,
                ) == Ok::<(crate::settle::LedgerView, Seq<AdapterNotice>), BondsError>(
                    (lr, all_notices@ + nr),
                ),
                Err(e) => spec_consume_entries(
                    l0,
                    manager_key,
                    duration,
                    program_id,
                    accounts@,
                    0,
                    seeds.deep_view(),
                    0,
                    taken,
                ) == Err::<(crate::settle::LedgerView, Seq<AdapterNotice>), BondsError>(e),
            },
        decreases k64 - i,
    {
        let ghost working_before = working@;
        let ghost pos_before = it.accounts.pos as int;
        let ghost spos_before = it.seed_pos as int;
        let next_item = it.next();
        let pair = match next_item {
            Some(Ok(pair)) => pair,
            Some(Err(e)) => {
                proof {
                    assert(taken.skip(i as int)[0] == taken[i as int]);
                    assert(taken[i as int] == old(market).event_queue.entries()[i as int]);
                }
                return Err(e);
            },
            None => {
                proof {
                    assert(false);
                }
                return Err(BondsError::NoEvents);
            },
        };
        let (ea, ev) = pair;
        proof {
            assert(taken.skip(i as int)[0] == taken[i as int]);
            assert(taken[i as int] == old(market).event_queue.entries()[i as int]);
        }
        let step = match &ev {
            OrderbookEvent::Fill(fill) => match &ea {
                EventAccounts::Fill(fa) => handle_fill(
                    &mut working,
                    manager_key,
                    duration,
                    fa,
                    fill,
                ),
                EventAccounts::Out(_) => {
                    proof {
                        assert(false);
                    }
                    Err(BondsError::InvalidEvent)
                },
            },
            OrderbookEvent::Out(out) => match &ea {
                EventAccounts::Out(oa) => handle_out(&mut working, oa, out),
                EventAccounts::Fill(_) => {
                    proof {
                        assert(false);
                    }
                    Err(BondsError::InvalidEvent)
                },
            },
        };
        let mut nt = match step {
            Ok(v) => v,
            Err(e) => {
                return Err(e);
            },
        };
        let ghost all_old = all_notices@;
        let ghost nt_v = nt@;
        proof {
            assert(spec_process_entry(
                working_before,
                manager_key,
                duration,
                program_id,
                accounts@,
                pos_before,
                seeds.deep_view(),
                spos_before,
                taken[i as int],
            ) == Ok::<(crate::settle::LedgerView, Seq<AdapterNotice>, int, int), BondsError>(
                (working@, nt@, it.accounts.pos as int, it.seed_pos as int),
            ));
            assert(taken.skip(i as int).skip(1) =~= taken.skip(i as int + 1));
        }
        all_notices.append(&mut nt);
        i = i + 1;
        proof {
            match spec_consume_entries(
                working@,
                manager_key,
                duration,
                program_id,
                accounts@,
                it.accounts.pos as int,
                seeds.deep_view(),
                it.seed_pos as int,
                taken.skip(i as int),
            ) {
                Ok((lr, nr)) => {
                    assert(all_old + (nt_v + nr) =~= all_notices@ + nr);
                },
                Err(e) => {},
            }
        }
    }
    proof {
        assert(taken.skip(k64 as int) =~= Seq::<QueueEntry>::empty());
        assert(all_notices@ + Seq::<AdapterNotice>::empty() =~= all_notices@);
    }
    let pop_result = market.event_queue.pop_events(k64 as u32);
    proof {
        assert(pop_result is Ok);
    }
    *ledger = working;
    Ok(ConsumeOutcome { processed: k64 as u32, adapter_notices: all_notices })
}

} // verus!
