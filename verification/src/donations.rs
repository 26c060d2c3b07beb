//! Donations to a common pot.

use vstd::prelude::*;
use crate::dispatch::{ensure_signed, DispatchError, ModuleError, RawOrigin, RuntimeOrigin};
use crate::primitives::{AccountId, Balance};
use crate::storage::StorageMap;

verus! {

/// The errors of this component.
#[derive(Clone, Copy, Debug, PartialEq, Eq, Structural)]
pub enum Error {
    /// Nothing can be donated.
    DonateWithNoValue,
}

/// What has happened in this component.
#[derive(Clone, Copy, Debug, PartialEq, Eq)]
pub enum Event {
    /// An account donated an amount; the pot then held this much.
    DonationReceived(AccountId, Balance, Balance),
    /// An amount without an owner went into the pot; the pot then held this much.
    ImbalanceAbsorbed(Balance, Balance),
}

/// The configured amounts.
#[derive(Clone, Copy, Debug, PartialEq, Eq, Structural)]
pub struct Config {
    /// What a donor must keep.
    pub minimum_remaining_amount: Balance,
}

/// The identifier of this component.
pub const PALLET_ID: [u8; 8] = [68, 111, 110, 97, 116, 105, 111, 110];

/// The bytes of the pot's account: the tag of component accounts, the
/// component's identifier, and zeros.
pub open spec fn pot_account_bytes() -> Seq<u8> {
    seq![109u8, 111, 100, 108] + seq![68u8, 111, 110, 97, 116, 105, 111, 110] + Seq::new(
        20,
        |i: int| 0u8,
    )
}

/// How much of `amount` can be donated by one who holds `free_balance`, of which
/// `locked` is locked, and who must keep `minimum_remaining`.
pub open spec fn donation(
    amount: Balance,
    free_balance: Balance,
    locked: Balance,
    minimum_remaining: Balance,
) -> Balance {
    let free = if free_balance >= minimum_remaining {
        (free_balance - minimum_remaining) as Balance
    } else {
        0
    };
    let available = if free >= locked {
        (free - locked) as Balance
    } else {
        0
    };
    if amount <= available {
        amount
    } else {
        available
    }
}

/// The donations received.
pub struct Pallet {
    config: Config,
    donation_storage: StorageMap<AccountId, Balance>,
    events: Vec<Event>,
}

impl Pallet {
    /// The table of donations is in order.
    pub closed spec fn wf(&self) -> bool {
        self.donation_storage.wf()
    }

    /// The configured amounts.
    pub closed spec fn config(&self) -> Config {
        self.config
    }

    /// The last donation of each donor.
    pub closed spec fn donations(&self) -> Map<AccountId, Balance> {
        self.donation_storage@
    }

    /// What has happened, oldest first.
    pub closed spec fn happened(&self) -> Seq<Event> {
        self.events@
    }

    /// A component that has received nothing.
    pub fn new(config: Config) -> (r: Self)
        ensures
            r.wf(),
            r.config() == config,
            r.donations() == Map::<AccountId, Balance>::empty(),
            r.happened() == Seq::<Event>::empty(),
    {
        Pallet { config, donation_storage: StorageMap::new(), events: Vec::new() }
    }

    /// What has happened, oldest first.
    pub fn events(&self) -> (r: &Vec<Event>)
        ensures
            r@ == self.happened(),
    {
        &self.events
    }

    /// The last donation of `donor`, if the account has donated.
    pub fn donation_storage(&self, donor: &AccountId) -> (r: Option<Balance>)
        requires
            self.wf(),
        ensures
            r == if self.donations().contains_key(*donor) {
                Some(self.donations()[*donor])
            } else {
                None
            },
    {
        match self.donation_storage.get(donor) {
            Some(amount) => Some(*amount),
            None => None,
        }
    }

    /// Records the donation of the account that signed the call: as much of
    /// `amount` as the donor can spare, given the balance `free_balance` of which
    /// `locked` is locked. Returns what is donated. Fails with `BadOrigin` where
    /// no account signed, and with `DonateWithNoValue` where nothing can be
    /// spared; nothing changes then.
    pub fn donate(
        &mut self,
        origin: RuntimeOrigin,
        amount: Balance,
        free_balance: Balance,
        locked: Balance,
        pot: Balance,
    ) -> (r: Result<Balance, DispatchError>)
        requires
            old(self).wf(),
        ensures
            final(self).wf(),
            final(self).config() == old(self).config(),
            match origin {
                RuntimeOrigin::System(RawOrigin::Signed(donor)) => {
                    let value = donation(
                        amount,
                        free_balance,
                        locked,
                        old(self).config().minimum_remaining_amount,
                    );
                    if value > 0 {
                        &&& r == Ok::<Balance, DispatchError>(value)
                        &&& final(self).donations() == old(self).donations().insert(donor, value)
                        &&& final(self).happened() == old(self).happened().push(
                            Event::DonationReceived(donor, value, pot),
                        )
                    } else {
                        &&& r == Err::<Balance, DispatchError>(
                            DispatchError::Module(
                                ModuleError::Donations(Error::DonateWithNoValue),
                            ),
                        )
                        &&& final(self).donations() == old(self).donations()
                        &&& final(self).happened() == old(self).happened()
                    }
                },
                _ => {
                    &&& r == Err::<Balance, DispatchError>(DispatchError::BadOrigin)
                    &&& final(self).donations() == old(self).donations()
                    &&& final(self).happened() == old(self).happened()
                },
            },
    {
        let donor = match ensure_signed(origin) {
            Ok(donor) => donor,
            Err(_) => {
                return Err(DispatchError::BadOrigin);
            },
        };
        let free = free_balance.saturating_sub(self.config.minimum_remaining_amount);
        let available_balance = free.saturating_sub(locked);
        let value_to_donate = if amount <= available_balance {
            amount
        } else {
            available_balance
        };
        if value_to_donate == 0 {
            return Err(DispatchError::Module(ModuleError::Donations(Error::DonateWithNoValue)));
        }
        self.donation_storage.insert(donor, value_to_donate);
        self.events.push(Event::DonationReceived(donor, value_to_donate, pot));
        Ok(value_to_donate)
    }

    /// The account that holds the pot.
    pub fn account_id() -> (r: AccountId)
        ensures
            r.0@ == pot_account_bytes(),
    {
        let r: [u8; 32] = [
            109u8, 111, 100, 108, 68, 111, 110, 97, 116, 105, 111, 110, 0, 0, 0, 0, 0, 0, 0, 0, 0,
            0, 0, 0, 0, 0, 0, 0, 0, 0, 0, 0,
        ];
        assert(r@ =~= pot_account_bytes());
        AccountId(r)
    }

    /// Records that `amount` without an owner went into the pot, which then held
    /// `pot`.
    pub fn on_nonzero_unbalanced(&mut self, amount: Balance, pot: Balance)
        requires
            old(self).wf(),
        ensures
            final(self).wf(),
            final(self).config() == old(self).config(),
            final(self).donations() == old(self).donations(),
            final(self).happened() == old(self).happened().push(
                Event::ImbalanceAbsorbed(amount, pot),
            ),
    {
        self.events.push(Event::ImbalanceAbsorbed(amount, pot));
    }
}

} // verus!
