use updater::config::{
    default_before_launch, default_should_install, default_show_progress, default_update_self,
    ApplicationConfig, Config, GitHubProviderSettings, ProviderConfig, UpdateConfig, Verifiable,
};
use updater::download::DownloadResult;
use updater::error::{ErrorKind, UpdateError};
use updater::extract::ExtractResult;
use updater::launcher::{installed_version, launch_after, plan_start, StartPlan};
use updater::procedures::application::{download_outcome, extract_outcome, title_for, UpdateData};
use updater::procedures::selfexe;
use updater::provider::{Asset, FetchOutcome, GitHubProvider, Release};
use updater::text::{chars_of, ends_with, matches_at, replace_all, starts_with, string_of};
use updater::update::convert_asset_name;
use updater::updater::{State, Step, StepAction, StepResult, Terminal, Updater};
use updater::version::Version;
use updater::window::{tick, user_closed, Tick, WindowConfig, UPDATE_INTERVAL};
use updater::progress::{Progress, Ratio};

fn provider(latest: &str, assets: Vec<Asset>) -> GitHubProvider {
    let mut provider = GitHubProvider::new("user/app");
    let list = vec![Release::new("v0.9.0", vec![]), Release::new(latest, assets)];
    provider.accept(FetchOutcome::Releases(list)).unwrap();
    provider
}

fn data(installed: Version, latest: &str) -> UpdateData<GitHubProvider, Vec<u8>> {
    UpdateData::new(
        provider(latest, vec![Asset::new("app-linux-x86_64.zip", 1000, "https://e.org/a.zip")]),
        "App".to_string(),
        "app-linux-x86_64".to_string(),
        "/opt/app".to_string(),
        installed,
    )
}

#[test]
fn asset_name_is_spelled_for_the_platform() {
    assert_eq!(
        convert_asset_name("app-<os>-<arch>.zip", "linux", "x86_64"),
        "app-linux-x86_64.zip"
    );
    assert_eq!(convert_asset_name("updater-<os>-<arch>.exe", "win", "x64"), "updater-win-x64.exe");
    assert_eq!(convert_asset_name("<os><os>/<arch>", "a", "b"), "aa/b");
    assert_eq!(convert_asset_name("plain.zip", "linux", "x86"), "plain.zip");
    assert_eq!(convert_asset_name("<o<os>s>", "linux", "x86"), "<olinuxs>");
    assert_eq!(convert_asset_name("<os>", "<arch>", "x"), "x");
    assert_eq!(convert_asset_name("", "linux", "x86"), "");
}

#[test]
fn text_helpers() {
    let text: Vec<char> = "abcabc".chars().collect();
    let bc: Vec<char> = "bc".chars().collect();
    let x: Vec<char> = "x".chars().collect();
    assert_eq!(chars_of("héllo"), vec!['h', 'é', 'l', 'l', 'o']);
    assert_eq!(string_of(&text, 1, 4), "bca");
    assert_eq!(string_of(&text, 2, 2), "");
    assert!(matches_at(&text, &bc, 1));
    assert!(matches_at(&text, &bc, 4));
    assert!(!matches_at(&text, &bc, 5));
    assert!(!matches_at(&text, &bc, 0));
    assert!(matches_at(&text, &[], 6));
    assert!(!matches_at(&text, &[], 7));
    assert!(starts_with(&text, &['a', 'b']));
    assert!(!starts_with(&text, &bc));
    assert!(ends_with(&text, &bc));
    assert!(!ends_with(&bc, &text));
    let replaced: String = replace_all(&text, &bc, &x).into_iter().collect();
    assert_eq!(replaced, "axax");
    let same: String = replace_all(&text, &[], &x).into_iter().collect();
    assert_eq!(same, "abcabc");
    let aaa: Vec<char> = "aaa".chars().collect();
    let grown: String = replace_all(&aaa, &['a', 'a'], &['b']).into_iter().collect();
    assert_eq!(grown, "ba");
}

#[test]
fn update_is_due_for_a_newer_version_only() {
    let mut newer = data(Version::new(1, 0, 0), "v1.2.0");
    assert_eq!(newer.check_version().unwrap(), StepAction::Continue);
    assert_eq!(newer.latest, Some(Version::new(1, 2, 0)));
    assert_eq!(newer.asset.as_ref().unwrap().name(), "app-linux-x86_64.zip");
    assert_eq!(newer.asset.as_ref().unwrap().size(), 1000);

    let mut same = data(Version::new(1, 2, 0), "v1.2.0");
    assert_eq!(same.check_version().unwrap(), StepAction::Complete);
    assert_eq!(same.latest, Some(Version::new(1, 2, 0)));
    assert!(same.asset.is_none());

    let mut older = data(Version::new(1, 3, 0), "v1.2.0");
    assert_eq!(older.check_version().unwrap(), StepAction::Complete);
    assert!(older.asset.is_none());
}

#[test]
fn check_fails_without_a_version_or_an_asset() {
    let mut unknown = data(Version::new(1, 0, 0), "nightly");
    unknown.provider = GitHubProvider::new("user/app");
    let error = unknown.check_version().unwrap_err();
    assert_eq!(error.kind(), ErrorKind::Parse);
    assert!(unknown.latest.is_none());

    let mut missing = data(Version::new(1, 0, 0), "v1.2.0");
    missing.asset_name = "app-win".to_string();
    let error = missing.check_version().unwrap_err();
    assert_eq!(error.kind(), ErrorKind::NotFound);
    assert_eq!(error.to_string(), "Asset not found");
    assert_eq!(missing.latest, Some(Version::new(1, 2, 0)));
    assert!(missing.asset.is_none());
}

#[test]
fn download_outcome_becomes_a_step_result() {
    assert_eq!(download_outcome(DownloadResult::Complete).unwrap(), StepAction::Continue);
    assert_eq!(download_outcome(DownloadResult::Cancelled).unwrap(), StepAction::Cancel);
    let failed = DownloadResult::Error(UpdateError::new(ErrorKind::Network, "Response not OK"));
    let error = download_outcome(failed).unwrap_err();
    assert_eq!(error.kind(), ErrorKind::Network);
    assert_eq!(error.to_string(), "Asset download failed: Response not OK");
}

#[test]
fn finished_download_leaves_its_file() {
    let mut d = data(Version::new(1, 0, 0), "v1.2.0");
    assert_eq!(
        d.finish_download(DownloadResult::Cancelled, Some(vec![1])).unwrap(),
        StepAction::Cancel
    );
    assert!(d.file.is_none());
    assert_eq!(
        d.finish_download(DownloadResult::Complete, Some(vec![1, 2, 3])).unwrap(),
        StepAction::Continue
    );
    assert_eq!(d.file, Some(vec![1, 2, 3]));
    let failed = DownloadResult::Error(UpdateError::new(ErrorKind::Io, "disk full"));
    assert!(d.finish_download(failed, None).is_err());
    assert_eq!(d.file, Some(vec![1, 2, 3]));
}

#[test]
fn extract_outcome_becomes_a_step_result() {
    assert_eq!(extract_outcome(Ok(ExtractResult::Complete)).unwrap(), StepAction::Continue);
    assert_eq!(extract_outcome(Ok(ExtractResult::Cancelled)).unwrap(), StepAction::Cancel);
    let error = extract_outcome(Err(UpdateError::new(ErrorKind::Io, "x"))).unwrap_err();
    assert_eq!((error.kind(), error.to_string()), (ErrorKind::Io, "x".to_string()));
}

#[test]
fn titles() {
    assert_eq!(title_for("App"), "App Updater");
    assert_eq!(data(Version::new(1, 0, 0), "v1.2.0").title(), "App Updater");
    let own = selfexe::UpdateData::<GitHubProvider, Vec<u8>>::new(
        GitHubProvider::new("user/updater"),
        Version::new(0, 1, 0),
        "updater-linux".to_string(),
    );
    assert_eq!(own.title(), "Self-Updater");
}

#[test]
fn install_directory_is_named_after_the_latest_version() {
    let mut d = data(Version::new(1, 0, 0), "v1.2.0");
    assert_eq!(d.install_dir_name(), None);
    d.check_version().unwrap();
    assert_eq!(d.install_dir_name(), Some("1.2.0".to_string()));
}

#[test]
fn self_update_notes_the_version_to_become() {
    let mut own = selfexe::UpdateData::<GitHubProvider, Vec<u8>>::new(
        provider("v1.3.0", vec![Asset::new("updater-linux-x86_64.exe", 9, "https://e.org/u")]),
        Version::new(0, 1, 0),
        "updater-linux-x86_64".to_string(),
    );
    assert_eq!(own.check_version().unwrap(), StepAction::Continue);
    assert_eq!(own.version, Version::new(1, 3, 0));
    assert_eq!(own.asset.as_ref().unwrap().name(), "updater-linux-x86_64.exe");
    // asking again finds nothing newer
    assert_eq!(own.check_version().unwrap(), StepAction::Complete);
    assert_eq!(own.finish_install(Ok(())).unwrap(), StepAction::Continue);
    let error = own.finish_install(Err(UpdateError::new(ErrorKind::UnrecoverableState, "x")));
    assert_eq!(error.unwrap_err().kind(), ErrorKind::UnrecoverableState);
    assert_eq!(
        own.finish_download(DownloadResult::Complete, Some(vec![7])).unwrap(),
        StepAction::Continue
    );
    assert_eq!(own.file, Some(vec![7]));
}

type AppData = UpdateData<GitHubProvider, Vec<u8>>;

struct Check;
struct Download {
    cancel: bool,
}
struct Install;

impl Step<AppData> for Check {
    fn run(&self, state: &mut State, data: &mut AppData) -> StepResult {
        state.set_label("Checking for latest version...".into());
        data.check_version()
    }
}

impl Step<AppData> for Download {
    fn run(&self, state: &mut State, data: &mut AppData) -> StepResult {
        let size = data.asset.as_ref().unwrap().size();
        state.progress_mut().set_maximum(size);
        state.progress_mut().set_indeterminate(false);
        state.progress_mut().add_current(size / 2);
        if self.cancel {
            state.progress_mut().set_cancelled(true);
            return data.finish_download(DownloadResult::Cancelled, None);
        }
        state.progress_mut().add_current(size - size / 2);
        data.finish_download(DownloadResult::Complete, Some(vec![0; 4]))
    }
}

impl Step<AppData> for Install {
    fn run(&self, _: &mut State, data: &mut AppData) -> StepResult {
        let unpacked = data.file.take().unwrap();
        data.directory = format!("{}/{}", data.directory, data.install_dir_name().unwrap());
        data.file = Some(unpacked);
        extract_outcome(Ok(ExtractResult::Complete))
    }
}

fn procedure(installed: Version, cancel: bool) -> Updater<AppData> {
    let data = data(installed, "v1.2.0");
    let title = data.title();
    let mut updater = Updater::new(data);
    updater.set_title(title);
    updater.add_step(Box::new(Check));
    updater.add_step(Box::new(Download { cancel }));
    updater.add_step(Box::new(Install));
    updater
}

#[test]
fn update_from_an_older_version_installs_the_latest() {
    let mut updater = procedure(Version::new(1, 0, 0), false);
    assert_eq!(updater.execute().unwrap(), Terminal::Success);
    assert_eq!(updater.data().latest, Some(Version::new(1, 2, 0)));
    assert_eq!(updater.data().directory, "/opt/app/1.2.0");
    assert_eq!(updater.history().len(), 3);
    assert_eq!(updater.title(), "App Updater");
    assert_eq!(
        installed_version(Terminal::Success, updater.data().latest).unwrap(),
        Version::new(1, 2, 0)
    );
}

#[test]
fn update_of_the_latest_version_does_nothing() {
    let mut updater = procedure(Version::new(1, 2, 0), false);
    assert_eq!(updater.execute().unwrap(), Terminal::Success);
    assert_eq!(updater.history().len(), 1);
    assert!(updater.data().file.is_none());
    assert_eq!(updater.data().directory, "/opt/app");
}

#[test]
fn cancelled_download_ends_the_update_as_cancelled() {
    let mut updater = procedure(Version::new(1, 0, 0), true);
    assert_eq!(updater.execute().unwrap(), Terminal::Cancelled);
    assert_eq!(updater.history().len(), 2);
    assert_eq!(updater.data().directory, "/opt/app");
    assert!(updater.progress().cancelled());
    assert!(updater.progress().complete());
    let error = installed_version(Terminal::Cancelled, updater.data().latest).unwrap_err();
    assert_eq!(error.to_string(), "Update cancelled!");
}

#[test]
fn installed_version_needs_a_looked_up_version() {
    assert_eq!(
        installed_version(Terminal::Success, None).unwrap_err().kind(),
        ErrorKind::NotFound
    );
}

#[test]
fn start_plans() {
    assert_eq!(plan_start(false, true, true), StartPlan { launch_first: true, update: true });
    assert_eq!(plan_start(true, true, false), StartPlan { launch_first: false, update: true });
    assert_eq!(plan_start(false, false, true), StartPlan { launch_first: false, update: true });
    assert_eq!(plan_start(false, false, false), StartPlan { launch_first: false, update: false });
    assert!(launch_after(plan_start(true, true, true), true));
    assert!(!launch_after(plan_start(true, true, true), false));
    assert!(!launch_after(plan_start(false, true, true), true));
    assert!(!launch_after(plan_start(false, false, false), true));
}

fn config(name: &str, executable: &str, asset: &str, repo: Option<&str>) -> Config {
    Config {
        application: ApplicationConfig {
            name: name.to_string(),
            executable: executable.to_string(),
        },
        update: UpdateConfig::new(
            asset.to_string(),
            ProviderConfig {
                github: repo.map(|r| GitHubProviderSettings { repository: r.to_string() }),
            },
        ),
    }
}

#[test]
fn settings_have_their_defaults() {
    assert!(!default_before_launch());
    assert!(default_update_self());
    assert!(default_should_install());
    assert!(!default_show_progress());
    let c = config("App", "bin/app", "app-<os>.zip", Some("user/app"));
    assert!(!c.update.before_launch);
    assert!(c.update.update_self);
    assert!(c.update.should_install);
    assert!(!c.update.show_progress);
    assert_eq!(c.update.asset_name, "app-<os>.zip");
}

#[test]
fn settings_are_verified_in_order() {
    assert!(config("App", "bin/app", "app.zip", Some("user/app")).verify().is_ok());
    assert!(config("App", "bin/app", "app.zip", None).verify().is_ok());
    let cases = [
        (config("", "/bin/app", "", Some("")), "application name is empty"),
        (config("App", "/bin/app", "", Some("")), "executable path is absolute"),
        (config("App", "C:\\app.exe", "a", Some("r")), "executable path is absolute"),
        (config("App", "bin/app", "", Some("")), "Asset name is empty"),
        (config("App", "bin/app", "app.zip", Some("")), "GitHub repository field is empty"),
    ];
    for (c, message) in cases {
        let error = c.verify().unwrap_err();
        assert_eq!(error.kind(), ErrorKind::InvalidConfig);
        assert_eq!(error.to_string(), message);
    }
}

#[test]
fn provider_comes_from_the_settings() {
    let settings = ProviderConfig {
        github: Some(GitHubProviderSettings { repository: "user/app".to_string() }),
    };
    assert_eq!(
        settings.provider().unwrap().url(),
        "https://api.github.com/repos/user/app/releases"
    );
    let error = ProviderConfig { github: None }.provider().unwrap_err();
    assert_eq!(error.kind(), ErrorKind::InvalidConfig);
    assert_eq!(error.to_string(), "No provider was specified!");
}

#[test]
fn window_config_keeps_what_it_shows() {
    let mut c = WindowConfig::new(
        "Test Window Updater".to_string(),
        "Downloading 64 MB".to_string(),
        Progress::default(),
    );
    assert_eq!(c.title(), "Test Window Updater");
    assert_eq!(c.label(), "Downloading 64 MB");
    assert!(c.progress().indeterminate());
    assert!(!c.cancelled());
    c.set_cancelled(true);
    assert!(c.cancelled());
    let d = WindowConfig::default();
    assert_eq!(d.title(), "Updater");
    assert_eq!(d.label(), "Starting...");
    assert!(!d.cancelled());
    assert_eq!(d.progress().current(), 0);
}

#[test]
fn window_follows_the_progress() {
    assert_eq!(UPDATE_INTERVAL, 100);
    assert_eq!(tick(&Progress::default()), Tick::Unknown);
    assert_eq!(tick(&Progress::new(true, true, false, 0, 0)), Tick::Close);
    assert_eq!(
        tick(&Progress::new(false, false, false, 3, 4)),
        Tick::Show(Ratio { num: 3, den: 4 })
    );
    assert_eq!(
        tick(&Progress::new(false, false, true, 0, 4)),
        Tick::Show(Ratio { num: 0, den: 1 })
    );
}

#[test]
fn closing_the_window_cancels_unfinished_work() {
    let mut running = Progress::new(false, false, false, 3, 4);
    user_closed(&mut running);
    assert!(running.cancelled());
    assert_eq!((running.current(), running.maximum()), (3, 4));
    let mut done = Progress::new(false, true, false, 4, 4);
    user_closed(&mut done);
    assert!(!done.cancelled());
    assert!(done.complete());
}

#[test]
fn errors_keep_kind_and_message() {
    let e = UpdateError::new(ErrorKind::Io, "broken");
    assert_eq!(e.kind(), ErrorKind::Io);
    assert_eq!(e.message(), "broken");
    assert_eq!(e.to_string(), "broken");
    let f = UpdateError::with_message(ErrorKind::Remote, "Not Found".to_string());
    assert_eq!((f.kind(), f.to_string()), (ErrorKind::Remote, "Not Found".to_string()));
    assert_eq!(UpdateError::other("x").kind(), ErrorKind::Other);
    assert_eq!(UpdateError::unexpected().kind(), ErrorKind::OutOfTurn);
}
