//! The home screen's state transitions: merging the remote catalog with
//! locally installed versions without duplicating ids, tracking the
//! selection, and deciding whether pressing play yields a launch request.
//! Rendering and the asynchronous fetches live outside this crate.

use crate::account::AccountRepository;
use crate::mojang::MinecraftVersion;
use crate::service::LaunchArgs;
use vstd::prelude::*;

verus! {

/// What the home screen reacts to: the play button, a finished launch, a
/// selection, and the two version listings arriving.
pub enum Message {
    PlayPressed,
    LaunchFinished,
    VersionSelected(MinecraftVersion),
    VersionsLoaded(Result<Vec<MinecraftVersion>, String>),
    LocalVersionsLoaded(Vec<MinecraftVersion>),
}

/// Everything a launch needs from the UI: the identity to play with and
/// the version to start.
pub struct LaunchRequest {
    pub args: LaunchArgs,
    pub version: MinecraftVersion,
}

/// Whether some version in the list has this id.
pub open spec fn has_version_id(versions: Seq<MinecraftVersion>, id: Seq<char>) -> bool {
    exists|i: int| 0 <= i < versions.len() && (#[trigger] versions[i]).id@ == id
}

/// `existing` extended by those of `incoming`, in order, whose id is not
/// already present — checked against the list as it grows, so a duplicate
/// inside `incoming` is also added only once.
pub open spec fn append_unique(
    existing: Seq<MinecraftVersion>,
    incoming: Seq<MinecraftVersion>,
) -> Seq<MinecraftVersion>
    decreases incoming.len(),
{
    if incoming.len() == 0 {
        existing
    } else if has_version_id(existing, incoming[0].id@) {
        append_unique(existing, incoming.drop_first())
    } else {
        append_unique(existing.push(incoming[0]), incoming.drop_first())
    }
}

/// No two versions in the list share an id.
pub open spec fn unique_ids(versions: Seq<MinecraftVersion>) -> bool {
    forall|i: int, j: int|
        0 <= i < j < versions.len() ==> (#[trigger] versions[i]).id@ != (
        #[trigger] versions[j]).id@
}

/// Merging a remote listing into a list of distinct ids leaves the ids
/// distinct: every incoming version already listed — or repeated within
/// the incoming listing itself — is skipped.
pub proof fn lemma_append_unique_keeps_ids_unique(
    existing: Seq<MinecraftVersion>,
    incoming: Seq<MinecraftVersion>,
)
    requires
        unique_ids(existing),
    ensures
        unique_ids(append_unique(existing, incoming)),
    decreases incoming.len(),
{
    if incoming.len() > 0 {
        if has_version_id(existing, incoming[0].id@) {
            lemma_append_unique_keeps_ids_unique(existing, incoming.drop_first());
        } else {
            let grown = existing.push(incoming[0]);
            assert forall|i: int, j: int| 0 <= i < j < grown.len() implies (
            #[trigger] grown[i]).id@ != (#[trigger] grown[j]).id@ by {
                if j == grown.len() - 1 {
                    assert(grown[i] == existing[i]);
                }
            }
            lemma_append_unique_keeps_ids_unique(grown, incoming.drop_first());
        }
    }
}

/// The home screen: the version list shown, the current selection, the
/// last error, and the account store the play button consults.
pub struct HomeScreen {
    pub versions: Vec<MinecraftVersion>,
    pub selected_version: Option<MinecraftVersion>,
    pub error: Option<String>,
    pub account_repo: AccountRepository,
}

/// Scans the list for a version with this id.
pub fn contains_version_id(versions: &Vec<MinecraftVersion>, id: &String) -> (r: bool)
    ensures
        r == has_version_id(versions@, id@),
{
    let mut i: usize = 0;
    while i < versions.len()
        invariant
            i <= versions@.len(),
            forall|j: int| 0 <= j < i ==> (#[trigger] versions@[j]).id@ != id@,
        decreases versions@.len() - i,
    {
        if versions[i].id == *id {
            return true;
        }
        i = i + 1;
    }
    false
}

impl HomeScreen {
    /// Starts with no versions, no selection and no error; the version
    /// listings arrive later as messages.
    pub fn new(account_repo: AccountRepository) -> (r: Self)
        ensures
            r.versions@ == Seq::<MinecraftVersion>::empty(),
            r.selected_version is None,
            r.error is None,
            r.account_repo == account_repo,
    {
        HomeScreen { versions: Vec::new(), selected_version: None, error: None, account_repo }
    }

    /// Reacts to one message. Only the play button can yield a launch
    /// request, and only when a version is selected *and* an account is
    /// active: with no active account the request is dropped on the spot,
    /// with nothing changed and nothing launched.
    pub fn update(&mut self, message: Message) -> (r: Option<LaunchRequest>)
        ensures
            match message {
                Message::PlayPressed => {
                    &&& *final(self) == *old(self)
                    &&& (old(self).selected_version is Some && old(
                        self,
                    ).account_repo.active_account is Some) <==> r is Some
                    &&& r matches Some(req) ==> {
                        &&& req.version == old(self).selected_version->Some_0
                        &&& req.args.username@ == old(
                            self,
                        ).account_repo.active_account->Some_0.username@
                        &&& req.args.uuid@ == "00000000-0000-0000-0000-000000000000"@
                        &&& req.args.access_token@ == "0"@
                    }
                },
                Message::LaunchFinished => *final(self) == *old(self) && r is None,
                Message::VersionSelected(v) => {
                    &&& final(self).selected_version == Some(v)
                    &&& final(self).versions@ == old(self).versions@
                    &&& final(self).error == old(self).error
                    &&& final(self).account_repo == old(self).account_repo
                    &&& r is None
                },
                Message::VersionsLoaded(loaded) => match loaded {
                    Ok(remote) => {
                        &&& final(self).versions@ == append_unique(old(self).versions@, remote@)
                        &&& final(self).error is None
                        &&& final(self).selected_version == old(self).selected_version
                        &&& final(self).account_repo == old(self).account_repo
                        &&& r is None
                    },
                    Err(e) => {
                        &&& final(self).error == Some(e)
                        &&& final(self).versions@ == old(self).versions@
                        &&& final(self).selected_version == old(self).selected_version
                        &&& final(self).account_repo == old(self).account_repo
                        &&& r is None
                    },
                },
                Message::LocalVersionsLoaded(local) => {
                    &&& final(self).versions@ == local@.filter(
                        |v: MinecraftVersion| !has_version_id(old(self).versions@, v.id@),
                    ) + old(self).versions@
                    &&& final(self).error == old(self).error
                    &&& final(self).selected_version == old(self).selected_version
                    &&& final(self).account_repo == old(self).account_repo
                    &&& r is None
                },
            },
    {
        match message {
            Message::VersionsLoaded(Ok(remote)) => {
                self.merge_remote_versions(remote);
                self.error = None;
                None
            },
            Message::VersionsLoaded(Err(e)) => {
                self.error = Some(e);
                None
            },
            Message::VersionSelected(v) => {
                self.selected_version = Some(v);
                None
            },
            Message::LocalVersionsLoaded(local) => {
                self.merge_local_versions(local);
                None
            },
            Message::PlayPressed => {
                match &self.selected_version {
                    Some(v) => {
                        match self.account_repo.get_active() {
                            Some(active) => {
                                let defaults = LaunchArgs::default();
                                Some(
                                    LaunchRequest {
                                        args: LaunchArgs {
                                            username: active.username,
                                            uuid: defaults.uuid,
                                            access_token: defaults.access_token,
                                        },
                                        version: v.clone(),
                                    },
                                )
                            },
                            None => None,
                        }
                    },
                    None => None,
                }
            },
            Message::LaunchFinished => None,
        }
    }

    /// Adds each remote version whose id is not yet listed, keeping the
    /// existing entries (and their order) first.
    fn merge_remote_versions(&mut self, remote: Vec<MinecraftVersion>)
        ensures
            final(self).versions@ == append_unique(old(self).versions@, remote@),
            final(self).selected_version == old(self).selected_version,
            final(self).error == old(self).error,
            final(self).account_repo == old(self).account_repo,
    {
        let ghost orig = self.versions@;
        proof {
            assert(remote@.skip(0) =~= remote@);
        }
        let mut i: usize = 0;
        while i < remote.len()
            invariant
                i <= remote@.len(),
                append_unique(orig, remote@) == append_unique(
                    self.versions@,
                    remote@.skip(i as int),
                ),
                self.selected_version == old(self).selected_version,
                self.error == old(self).error,
                self.account_repo == old(self).account_repo,
            decreases remote@.len() - i,
        {
            let ghost pre = self.versions@;
            let known = contains_version_id(&self.versions, &remote[i].id);
            if !known {
                self.versions.push(remote[i].clone());
            }
            proof {
                let rest = remote@.skip(i as int);
                assert(rest[0] == remote@[i as int]);
                assert(rest.drop_first() =~= remote@.skip(i + 1));
            }
            i = i + 1;
        }
        proof {
            assert(remote@.skip(remote@.len() as int) =~= Seq::<MinecraftVersion>::empty());
        }
    }

    /// Puts the not-yet-listed local versions in front of the current
    /// list; which ids are new is judged against the list as it was.
    fn merge_local_versions(&mut self, local: Vec<MinecraftVersion>)
        ensures
            final(self).versions@ == local@.filter(
                |v: MinecraftVersion| !has_version_id(old(self).versions@, v.id@),
            ) + old(self).versions@,
            final(self).selected_version == old(self).selected_version,
            final(self).error == old(self).error,
            final(self).account_repo == old(self).account_repo,
    {
        let ghost orig = self.versions@;
        let mut to_add: Vec<MinecraftVersion> = Vec::new();
        proof {
            reveal(Seq::filter);
        }
        let mut i: usize = 0;
        while i < local.len()
            invariant
                i <= local@.len(),
                self.versions@ == orig,
                to_add@ == local@.take(i as int).filter(
                    |v: MinecraftVersion| !has_version_id(orig, v.id@),
                ),
                self.selected_version == old(self).selected_version,
                self.error == old(self).error,
                self.account_repo == old(self).account_repo,
            decreases local@.len() - i,
        {
            let ghost prev = local@.take(i as int);
            let known = contains_version_id(&self.versions, &local[i].id);
            if !known {
                to_add.push(local[i].clone());
            }
            proof {
                reveal(Seq::filter);
                let cur = local@.take(i + 1);
                assert(cur.drop_last() =~= prev);
                assert(cur.last() == local@[i as int]);
            }
            i = i + 1;
        }
        proof {
            assert(local@.take(local@.len() as int) =~= local@);
        }
        to_add.append(&mut self.versions);
        self.versions = to_add;
    }
}

} // verus!
