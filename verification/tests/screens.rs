use axlauncher::account::{Account, AccountRepository, AccountType};
use axlauncher::accounts::{AccountsScreen, Message as AccountsMessage};
use axlauncher::home::{HomeScreen, Message as HomeMessage};
use axlauncher::mojang::{ApiVersion, MinecraftVersion, MojangRepository, VersionManifest};

fn offline(name: &str) -> Account {
    Account { username: String::from(name), account_type: AccountType::Offline }
}

fn remote_version(id: &str) -> MinecraftVersion {
    MinecraftVersion {
        id: String::from(id),
        version_type: String::from("release"),
        url: Some(format!("https://example/{}.json", id)),
        available: false,
    }
}

fn local_version(id: &str) -> MinecraftVersion {
    MinecraftVersion {
        id: String::from(id),
        version_type: String::from("modded"),
        url: None,
        available: true,
    }
}

#[test]
fn account_repository_add_remove_active() {
    let mut repo = AccountRepository::new();
    assert!(repo.get_all().is_empty());
    assert!(repo.get_active().is_none());

    repo.add(offline("steve"));
    repo.add(offline("alex"));
    assert_eq!(repo.get_all().len(), 2);

    repo.set_active(Some(offline("steve")));
    assert_eq!(repo.get_active().unwrap().username, "steve");

    // Removing the active account clears the selection.
    repo.remove(&offline("steve"));
    let rest = repo.get_all();
    assert_eq!(rest.len(), 1);
    assert_eq!(rest[0].username, "alex");
    assert!(repo.get_active().is_none());

    // Removing a non-active account keeps the selection.
    repo.set_active(Some(offline("alex")));
    repo.remove(&offline("nobody"));
    assert_eq!(repo.get_active().unwrap().username, "alex");
}

#[test]
fn accounts_screen_add_offline_account() {
    let mut screen = AccountsScreen::new(AccountRepository::new());
    screen.update(AccountsMessage::TypeSelected(AccountType::Offline));
    screen.update(AccountsMessage::OfflineInputChanged(String::from("steve")));
    screen.update(AccountsMessage::ConfirmAdd);
    assert_eq!(screen.accounts.len(), 1);
    assert_eq!(screen.accounts[0].username, "steve");
    assert_eq!(screen.accounts[0].account_type, AccountType::Offline);
    assert_eq!(screen.active_account.as_ref().unwrap().username, "steve");
    assert!(screen.add_mode.is_none());
    assert_eq!(screen.offline_input, "");
}

#[test]
fn accounts_screen_rejects_blank_name() {
    let mut screen = AccountsScreen::new(AccountRepository::new());
    screen.update(AccountsMessage::TypeSelected(AccountType::Offline));
    screen.update(AccountsMessage::OfflineInputChanged(String::from("   ")));
    screen.update(AccountsMessage::ConfirmAdd);
    assert!(screen.accounts.is_empty());
    assert!(screen.active_account.is_none());
    // The form stays open for another try.
    assert_eq!(screen.add_mode, Some(AccountType::Offline));
}

#[test]
fn accounts_screen_microsoft_login_simulation() {
    let mut screen = AccountsScreen::new(AccountRepository::new());
    screen.update(AccountsMessage::TypeSelected(AccountType::Microsoft));
    screen.update(AccountsMessage::ConfirmAdd);
    assert_eq!(screen.accounts.len(), 1);
    assert_eq!(screen.accounts[0].username, "Microsoft User");
    assert_eq!(screen.accounts[0].account_type, AccountType::Microsoft);
}

#[test]
fn accounts_screen_select_delete_cancel() {
    let mut repo = AccountRepository::new();
    repo.add(offline("steve"));
    repo.add(offline("alex"));
    let mut screen = AccountsScreen::new(repo);
    assert_eq!(screen.accounts.len(), 2);

    screen.update(AccountsMessage::SelectAccount(offline("alex")));
    assert_eq!(screen.active_account.as_ref().unwrap().username, "alex");

    screen.update(AccountsMessage::DeleteAccount(offline("alex")));
    assert_eq!(screen.accounts.len(), 1);
    assert!(screen.active_account.is_none());

    screen.update(AccountsMessage::TypeSelected(AccountType::Offline));
    screen.update(AccountsMessage::OfflineInputChanged(String::from("zoe")));
    screen.update(AccountsMessage::CancelAdd);
    assert!(screen.add_mode.is_none());
    assert_eq!(screen.offline_input, "");
    assert_eq!(screen.accounts.len(), 1);
}

#[test]
fn home_merges_remote_without_duplicating_ids() {
    let mut home = HomeScreen::new(AccountRepository::new());
    home.update(HomeMessage::LocalVersionsLoaded(vec![local_version("1.20")]));
    home.update(HomeMessage::VersionsLoaded(Ok(vec![
        remote_version("1.20"),
        remote_version("1.19"),
        remote_version("1.19"),
    ])));
    let ids: Vec<&str> = home.versions.iter().map(|v| v.id.as_str()).collect();
    // The local 1.20 stays (still marked available); the remote duplicate
    // of 1.19 is added only once.
    assert_eq!(ids, vec!["1.20", "1.19"]);
    assert!(home.versions[0].available);
    assert!(home.error.is_none());
}

#[test]
fn home_prepends_unseen_local_versions() {
    let mut home = HomeScreen::new(AccountRepository::new());
    home.update(HomeMessage::VersionsLoaded(Ok(vec![
        remote_version("1.20"),
        remote_version("1.19"),
    ])));
    home.update(HomeMessage::LocalVersionsLoaded(vec![
        local_version("custom-pack"),
        local_version("1.19"),
    ]));
    let ids: Vec<&str> = home.versions.iter().map(|v| v.id.as_str()).collect();
    assert_eq!(ids, vec!["custom-pack", "1.20", "1.19"]);
}

#[test]
fn home_keeps_fetch_error() {
    let mut home = HomeScreen::new(AccountRepository::new());
    home.update(HomeMessage::VersionsLoaded(Err(String::from("connection refused"))));
    assert_eq!(home.error.as_deref(), Some("connection refused"));
    home.update(HomeMessage::VersionsLoaded(Ok(vec![remote_version("1.20")])));
    assert!(home.error.is_none());
}

#[test]
fn play_without_active_account_is_a_no_op() {
    // A launch request with no active account returns immediately: no
    // request is produced and nothing in the screen changes.
    let mut home = HomeScreen::new(AccountRepository::new());
    home.update(HomeMessage::LocalVersionsLoaded(vec![local_version("1.20")]));
    home.update(HomeMessage::VersionSelected(local_version("1.20")));
    let request = home.update(HomeMessage::PlayPressed);
    assert!(request.is_none());
    assert_eq!(home.versions.len(), 1);
    assert_eq!(home.selected_version.as_ref().unwrap().id, "1.20");
}

#[test]
fn play_with_account_and_selection_yields_request() {
    let mut repo = AccountRepository::new();
    repo.add(offline("steve"));
    repo.set_active(Some(offline("steve")));
    let mut home = HomeScreen::new(repo);
    home.update(HomeMessage::VersionSelected(local_version("1.20")));
    let request = home.update(HomeMessage::PlayPressed).expect("launch request");
    assert_eq!(request.version.id, "1.20");
    assert_eq!(request.args.username, "steve");
    assert_eq!(request.args.uuid, "00000000-0000-0000-0000-000000000000");
    assert_eq!(request.args.access_token, "0");
}

#[test]
fn play_without_selection_yields_nothing() {
    let mut repo = AccountRepository::new();
    repo.set_active(Some(offline("steve")));
    let mut home = HomeScreen::new(repo);
    assert!(home.update(HomeMessage::PlayPressed).is_none());
}

#[test]
fn manifest_versions_become_remote_records() {
    let repo = MojangRepository::new();
    let manifest = VersionManifest {
        versions: vec![
            ApiVersion {
                id: String::from("1.20"),
                version_type: String::from("release"),
                url: String::from("https://example/1.20.json"),
            },
            ApiVersion {
                id: String::from("24w09a"),
                version_type: String::from("snapshot"),
                url: String::from("https://example/24w09a.json"),
            },
        ],
    };
    let versions = repo.versions_from_manifest(manifest);
    assert_eq!(versions.len(), 2);
    assert_eq!(versions[0].id, "1.20");
    assert_eq!(versions[0].version_type, "release");
    assert_eq!(versions[0].url.as_deref(), Some("https://example/1.20.json"));
    assert!(!versions[0].available);
    assert_eq!(versions[1].id, "24w09a");
}
