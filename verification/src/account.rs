//! The account store: the identities the game can be launched with, and
//! which one is active. Held in memory; two accounts are the same when
//! their username and kind agree.

use vstd::prelude::*;

verus! {

/// How an account authenticates.
#[derive(Clone, Copy, Debug, PartialEq, Eq, Structural)]
pub enum AccountType {
    Microsoft,
    Offline,
}

/// One identity the game can be launched with.
#[derive(Debug)]
pub struct Account {
    pub username: String,
    pub account_type: AccountType,
}

/// Whether two accounts are the same identity: equal username characters
/// and the same kind.
pub open spec fn same_account(a: Account, b: Account) -> bool {
    a.username@ == b.username@ && a.account_type == b.account_type
}

impl Clone for Account {
    /// The clone carries exactly the same username and kind.
    fn clone(&self) -> (r: Self)
        ensures
            r == self,
    {
        Account { username: self.username.clone(), account_type: self.account_type }
    }
}

impl PartialEq for Account {
    fn eq(&self, other: &Self) -> (r: bool) {
        self.username == other.username && self.account_type == other.account_type
    }
}

impl vstd::std_specs::cmp::PartialEqSpecImpl for Account {
    open spec fn obeys_eq_spec() -> bool {
        true
    }

    open spec fn eq_spec(&self, other: &Account) -> bool {
        same_account(*self, *other)
    }
}

/// The in-memory account collection and the active selection.
pub struct AccountRepository {
    pub accounts: Vec<Account>,
    pub active_account: Option<Account>,
}

impl AccountRepository {
    /// Starts empty, with no active account.
    pub fn new() -> (r: Self)
        ensures
            r.accounts@ == Seq::<Account>::empty(),
            r.active_account is None,
    {
        AccountRepository { accounts: Vec::new(), active_account: None }
    }

    /// Returns all stored accounts, in insertion order.
    pub fn get_all(&self) -> (r: Vec<Account>)
        ensures
            r@ == self.accounts@,
    {
        let mut out: Vec<Account> = Vec::new();
        let mut i: usize = 0;
        while i < self.accounts.len()
            invariant
                i <= self.accounts@.len(),
                out@ =~= self.accounts@.take(i as int),
            decreases self.accounts@.len() - i,
        {
            out.push(self.accounts[i].clone());
            i = i + 1;
        }
        proof {
            assert(self.accounts@.take(self.accounts@.len() as int) =~= self.accounts@);
        }
        out
    }

    /// Appends a new account; the active selection is untouched.
    pub fn add(&mut self, account: Account)
        ensures
            final(self).accounts@ == old(self).accounts@.push(account),
            final(self).active_account == old(self).active_account,
    {
        self.accounts.push(account);
    }

    /// Deletes every account equal to the given one, and clears the
    /// active selection if it was one of them.
    pub fn remove(&mut self, account: &Account)
        ensures
            final(self).accounts@ == old(self).accounts@.filter(
                |x: Account| !same_account(x, *account),
            ),
            final(self).active_account == if old(self).active_account matches Some(a)
                && same_account(a, *account) {
                None::<Account>
            } else {
                old(self).active_account
            },
    {
        let ghost orig = self.accounts@;
        let mut kept: Vec<Account> = Vec::new();
        let mut i: usize = 0;
        proof {
            reveal(Seq::filter);
        }
        while i < self.accounts.len()
            invariant
                i <= self.accounts@.len(),
                self.accounts@ == orig,
                kept@ == orig.take(i as int).filter(|x: Account| !same_account(x, *account)),
            decreases self.accounts@.len() - i,
        {
            let ghost prev = orig.take(i as int);
            let keep = !(self.accounts[i] == *account);
            if keep {
                kept.push(self.accounts[i].clone());
            }
            proof {
                reveal(Seq::filter);
                let cur = orig.take(i + 1);
                assert(cur.drop_last() =~= prev);
                assert(cur.last() == orig[i as int]);
            }
            i = i + 1;
        }
        proof {
            assert(orig.take(orig.len() as int) =~= orig);
        }
        self.accounts = kept;
        let clear_active = match &self.active_account {
            Some(a) => *a == *account,
            None => false,
        };
        if clear_active {
            self.active_account = None;
        }
    }

    /// The active account, if one is selected.
    pub fn get_active(&self) -> (r: Option<Account>)
        ensures
            r == self.active_account,
    {
        match &self.active_account {
            Some(a) => Some(a.clone()),
            None => None,
        }
    }

    /// Selects the active account (or clears it with `None`).
    pub fn set_active(&mut self, account: Option<Account>)
        ensures
            final(self).accounts@ == old(self).accounts@,
            final(self).active_account == account,
    {
        self.active_account = account;
    }
}

} // verus!
