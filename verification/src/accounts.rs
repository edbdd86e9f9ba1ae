//! The account-management screen's state transitions: selecting, deleting
//! and adding accounts, with a local mirror of the store that is reloaded
//! after every change. Rendering lives outside this crate.

use crate::account::{same_account, Account, AccountRepository, AccountType};
use crate::text::{is_blank, spec_blank};
use vstd::prelude::*;

verus! {

/// What the accounts screen reacts to.
pub enum Message {
    BackToHome,
    DeleteAccount(Account),
    SelectAccount(Account),
    TypeSelected(AccountType),
    OfflineInputChanged(String),
    ConfirmAdd,
    CancelAdd,
}

/// The accounts screen: the store it manages, a mirrored listing for
/// display, and the state of the add-account form.
pub struct AccountsScreen {
    pub repo: AccountRepository,
    pub accounts: Vec<Account>,
    pub active_account: Option<Account>,
    pub add_mode: Option<AccountType>,
    pub offline_input: String,
}

/// The username a confirmed add-account form produces: the typed name for
/// an offline account, a fixed placeholder for the simulated Microsoft
/// login.
pub open spec fn spec_new_account_name(screen: AccountsScreen, mode: AccountType) -> Seq<char> {
    match mode {
        AccountType::Offline => screen.offline_input@,
        AccountType::Microsoft => "Microsoft User"@,
    }
}

impl AccountsScreen {
    /// The displayed listing mirrors the store.
    pub open spec fn synced(self) -> bool {
        self.accounts@ == self.repo.accounts@ && self.active_account == self.repo.active_account
    }

    /// Wraps the store with a fresh mirror and an idle add form.
    pub fn new(repo: AccountRepository) -> (r: Self)
        ensures
            r.repo == repo,
            r.synced(),
            r.add_mode is None,
            r.offline_input@ == Seq::<char>::empty(),
    {
        let mut screen = AccountsScreen {
            repo,
            accounts: Vec::new(),
            active_account: None,
            add_mode: None,
            offline_input: String::new(),
        };
        screen.reload();
        screen
    }

    /// Refreshes the mirrored listing from the store.
    pub fn reload(&mut self)
        ensures
            final(self).repo == old(self).repo,
            final(self).synced(),
            final(self).add_mode == old(self).add_mode,
            final(self).offline_input == old(self).offline_input,
    {
        self.accounts = self.repo.get_all();
        self.active_account = self.repo.get_active();
    }

    /// Reacts to one message: selection and deletion go straight to the
    /// store and the mirror follows; the add form only commits a
    /// non-blank name, creating the account and making it active.
    pub fn update(&mut self, message: Message)
        ensures
            match message {
                Message::BackToHome => *final(self) == *old(self),
                Message::SelectAccount(acc) => {
                    &&& final(self).repo.accounts@ == old(self).repo.accounts@
                    &&& final(self).repo.active_account == Some(acc)
                    &&& final(self).synced()
                    &&& final(self).add_mode == old(self).add_mode
                    &&& final(self).offline_input == old(self).offline_input
                },
                Message::DeleteAccount(acc) => {
                    &&& final(self).repo.accounts@ == old(self).repo.accounts@.filter(
                        |x: Account| !same_account(x, acc),
                    )
                    &&& final(self).repo.active_account == if old(
                        self,
                    ).repo.active_account matches Some(a) && same_account(a, acc) {
                        None::<Account>
                    } else {
                        old(self).repo.active_account
                    }
                    &&& final(self).synced()
                    &&& final(self).add_mode == old(self).add_mode
                    &&& final(self).offline_input == old(self).offline_input
                },
                Message::TypeSelected(t) => {
                    &&& final(self).add_mode == Some(t)
                    &&& final(self).offline_input@ == Seq::<char>::empty()
                    &&& final(self).repo == old(self).repo
                    &&& final(self).accounts == old(self).accounts
                    &&& final(self).active_account == old(self).active_account
                },
                Message::OfflineInputChanged(s) => {
                    &&& final(self).offline_input == s
                    &&& final(self).add_mode == old(self).add_mode
                    &&& final(self).repo == old(self).repo
                    &&& final(self).accounts == old(self).accounts
                    &&& final(self).active_account == old(self).active_account
                },
                Message::CancelAdd => {
                    &&& final(self).add_mode is None
                    &&& final(self).offline_input@ == Seq::<char>::empty()
                    &&& final(self).repo == old(self).repo
                    &&& final(self).accounts == old(self).accounts
                    &&& final(self).active_account == old(self).active_account
                },
                Message::ConfirmAdd => match old(self).add_mode {
                    Some(mode) => if spec_blank(spec_new_account_name(*old(self), mode)) {
                        *final(self) == *old(self)
                    } else {
                        &&& final(self).repo.accounts@.len() == old(self).repo.accounts@.len() + 1
                        &&& final(self).repo.accounts@.drop_last() == old(self).repo.accounts@
                        &&& final(self).repo.accounts@.last().username@ == spec_new_account_name(
                            *old(self),
                            mode,
                        )
                        &&& final(self).repo.accounts@.last().account_type == mode
                        &&& final(self).repo.active_account == Some(
                            final(self).repo.accounts@.last(),
                        )
                        &&& final(self).synced()
                        &&& final(self).add_mode is None
                        &&& final(self).offline_input@ == Seq::<char>::empty()
                    },
                    None => *final(self) == *old(self),
                },
            },
    {
        match message {
            Message::BackToHome => {},
            Message::SelectAccount(acc) => {
                self.repo.set_active(Some(acc));
                self.reload();
            },
            Message::DeleteAccount(acc) => {
                self.repo.remove(&acc);
                self.reload();
            },
            Message::TypeSelected(t) => {
                self.add_mode = Some(t);
                self.offline_input = String::new();
            },
            Message::OfflineInputChanged(s) => {
                self.offline_input = s;
            },
            Message::CancelAdd => {
                self.add_mode = None;
                self.offline_input = String::new();
            },
            Message::ConfirmAdd => {
                if let Some(mode) = self.add_mode {
                    let name = match mode {
                        AccountType::Offline => self.offline_input.clone(),
                        AccountType::Microsoft => String::from_str("Microsoft User"),
                    };
                    if !is_blank(name.as_str()) {
                        let new_acc = Account { username: name, account_type: mode };
                        let ghost pre_accounts = self.repo.accounts@;
                        self.repo.add(new_acc.clone());
                        self.repo.set_active(Some(new_acc));
                        self.add_mode = None;
                        self.offline_input = String::new();
                        self.reload();
                        proof {
                            assert(self.repo.accounts@.drop_last() =~= pre_accounts);
                        }
                    }
                }
            },
        }
    }
}

} // verus!
