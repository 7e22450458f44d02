use twitninf_updater::command::{Command, RegistryRoot};
use twitninf_updater::drivers::{
    ensure_apple_drivers, DriverAction, DriverEvent, DriverState, PREREQUISITES_DETAIL,
    PREREQUISITES_MESSAGE,
};
use twitninf_updater::failure::Failure;
use twitninf_updater::journal::{log_opened, open_log, LOG_FILE};
use twitninf_updater::notice::Notice;
use twitninf_updater::turn::Turn;
use twitninf_updater::webview::{ensure_webview2, WebviewAction, WebviewState, WEBVIEW_INSTALLER};
use twitninf_updater::winget::{
    ensure_winget, WingetAction, WingetEvent, WingetState, WINGET_WORK_DIR,
};

fn texts(list: &[&str]) -> Vec<String> {
    list.iter().map(|s| s.to_string()).collect()
}

#[test]
fn commands_have_their_lines() {
    let c = Command::QueryService;
    assert_eq!(c.program("f"), "sc");
    assert_eq!(c.args("f"), texts(&["query", "Apple Mobile Device Service"]));
    let c = Command::StartService;
    assert_eq!(c.program("f"), "powershell");
    assert_eq!(
        c.args("f"),
        texts(&[
            "-NoProfile",
            "-Command",
            "Start-Service -Name 'Apple Mobile Device Service'",
        ])
    );
    let c = Command::WingetVersion;
    assert_eq!(c.program("f"), "winget");
    assert_eq!(c.args("f"), texts(&["--version"]));
    let c = Command::InstallDrivers;
    assert_eq!(c.program("f"), "winget");
    assert_eq!(
        c.args("f"),
        texts(&[
            "install",
            "--id",
            "Apple.AppleMobileDeviceSupport",
            "--source",
            "winget",
            "--accept-source-agreements",
            "--accept-package-agreements",
            "--silent",
        ])
    );
    let c = Command::QueryWebview(RegistryRoot::User);
    assert_eq!(c.program("f"), "reg");
    assert_eq!(
        c.args("f"),
        texts(&[
            "query",
            r"HKCU\SOFTWARE\WOW6432Node\Microsoft\EdgeUpdate\Clients\{F3017226-FE2A-4295-8BDF-00C3A9A7E4C5}",
            "/v",
            "pv",
        ])
    );
    assert!(Command::QueryWebview(RegistryRoot::Machine).args("")[1].starts_with(r"HKLM\SOFTWARE"));
    let c = Command::DownloadWebview;
    assert_eq!(c.program("C:\\t\\w.exe"), "powershell");
    assert_eq!(
        c.args("C:\\t\\w.exe")[2],
        "Invoke-WebRequest -Uri 'https://go.microsoft.com/fwlink/p/?LinkId=2124703' -OutFile 'C:\\t\\w.exe'"
    );
    let c = Command::InstallWebview;
    assert_eq!(c.program("C:\\t\\w.exe"), "C:\\t\\w.exe");
    assert_eq!(c.args("C:\\t\\w.exe"), texts(&["/silent", "/install"]));
    let c = Command::ShowFile;
    assert_eq!(c.program("C:\\t\\log"), "explorer");
    assert_eq!(c.args("C:\\t\\log"), texts(&["/select,", "C:\\t\\log"]));
}

#[test]
fn winget_is_installed_by_a_script() {
    let c = Command::InstallWinget;
    assert_eq!(c.program("C:\\t"), "powershell");
    let args = c.args("C:\\t");
    assert_eq!(args.len(), 3);
    assert_eq!(args[..2], texts(&["-NoProfile", "-Command"])[..]);
    let script = r#"
$ErrorActionPreference = 'Stop'
$ProgressPreference = 'SilentlyContinue'
$work = 'C:\t'
New-Item -ItemType Directory -Force -Path $work | Out-Null

$release = Invoke-RestMethod -Uri 'https://api.github.com/repos/microsoft/winget-cli/releases/latest'
$depsAsset = $release.assets | Where-Object { $_.name -eq 'DesktopAppInstaller_Dependencies.zip' }
$bundleAsset = $release.assets | Where-Object { $_.name -like '*.msixbundle' }

$depsZip = Join-Path $work 'deps.zip'
Invoke-WebRequest -Uri $depsAsset.browser_download_url -OutFile $depsZip
Expand-Archive -Path $depsZip -DestinationPath $work -Force

Get-ChildItem -Path (Join-Path $work 'x64') -Filter '*.appx' | ForEach-Object {
    Add-AppxPackage -Path $_.FullName -ErrorAction Stop
}

$bundlePath = Join-Path $work 'winget.msixbundle'
Invoke-WebRequest -Uri $bundleAsset.browser_download_url -OutFile $bundlePath
Add-AppxPackage -Path $bundlePath -ErrorAction Stop
"#;
    assert_eq!(args[2], script);
}

fn failure(t: Turn<DriverState, DriverAction>) -> Failure {
    match t.action {
        DriverAction::Finish(Err(f)) => f,
        _ => panic!("no failure"),
    }
}

fn says(notices: &[Notice], text: &str) -> bool {
    notices.len() == 1 && matches!(&notices[0], Notice::Status(s) if s == text)
}

fn silent() -> Turn<DriverState, DriverAction> {
    let t = ensure_apple_drivers(DriverState::Start, DriverEvent::Begin);
    assert!(says(&t.notices, "Verification des composants Apple..."));
    assert!(matches!(t.action, DriverAction::Call));
    let t = ensure_apple_drivers(t.state, DriverEvent::Called(Err("odd".to_string())));
    assert!(matches!(t.action, DriverAction::Run(Command::QueryService)));
    t
}

#[test]
fn a_service_that_answers_is_enough() {
    let t = ensure_apple_drivers(DriverState::Calling, DriverEvent::Called(Ok(())));
    assert!(matches!(t.action, DriverAction::Finish(Ok(()))));
}

#[test]
fn a_stopped_service_is_started() {
    let t = ensure_apple_drivers(silent().state, DriverEvent::Ran(Ok(true)));
    assert!(says(&t.notices, "Demarrage du service Apple..."));
    assert!(matches!(t.action, DriverAction::Run(Command::StartService)));
    let t = ensure_apple_drivers(t.state, DriverEvent::Ran(Ok(true)));
    assert!(matches!(t.action, DriverAction::Call));
    let ok = ensure_apple_drivers(t.state, DriverEvent::Called(Ok(())));
    assert!(matches!(ok.action, DriverAction::Finish(Ok(()))));
    let f = failure(ensure_apple_drivers(t.state, DriverEvent::Called(Err("x".to_string()))));
    assert_eq!(f.title, "Le service Apple est installe mais arrete");
    assert_eq!(f.detail, None);
}

#[test]
fn a_service_that_does_not_start_is_a_failure() {
    for ran in vec![Ok(false), Err("x".to_string())] {
        let f = failure(ensure_apple_drivers(DriverState::Starting, DriverEvent::Ran(ran)));
        assert_eq!(f.title, "Le service Apple est installe mais arrete");
        assert_eq!(f.steps.len(), 3);
    }
}

#[test]
fn missing_drivers_are_installed_by_consent() {
    let t = ensure_apple_drivers(silent().state, DriverEvent::Ran(Ok(false)));
    assert!(matches!(t.action, DriverAction::Ask));
    let t = ensure_apple_drivers(t.state, DriverEvent::Answered(Some(true)));
    assert!(matches!(t.action, DriverAction::EnsureWinget));
    let t = ensure_apple_drivers(t.state, DriverEvent::WingetReady(Ok(())));
    assert!(says(
        &t.notices,
        "Installation d'Apple Mobile Device Support (autorise l'invite Windows si elle apparait)..."
    ));
    assert!(matches!(t.action, DriverAction::Run(Command::InstallDrivers)));
    let t = ensure_apple_drivers(t.state, DriverEvent::Ran(Ok(true)));
    assert!(says(&t.notices, "Verification des pilotes Apple..."));
    let t = ensure_apple_drivers(t.state, DriverEvent::Called(Ok(())));
    assert!(matches!(t.action, DriverAction::Finish(Ok(()))));
    assert!(PREREQUISITES_MESSAGE.starts_with("Les pilotes Apple"));
    assert!(PREREQUISITES_DETAIL.contains("~150 Mo"));
}

#[test]
fn a_service_query_that_does_not_run_counts_as_missing() {
    let t = ensure_apple_drivers(DriverState::Querying, DriverEvent::Ran(Err("x".to_string())));
    assert!(matches!(t.action, DriverAction::Ask));
}

#[test]
fn drivers_can_be_refused() {
    let f = failure(ensure_apple_drivers(DriverState::Asking, DriverEvent::Answered(Some(false))));
    assert_eq!(f.title, "Les pilotes Apple sont indispensables");
    assert!(!f.cancelled);
    let f = failure(ensure_apple_drivers(DriverState::Asking, DriverEvent::Answered(None)));
    assert_eq!(f.title, "Installation des pilotes annulee");
    assert!(f.cancelled);
}

#[test]
fn each_step_of_the_driver_installation_can_fail() {
    let f = failure(ensure_apple_drivers(
        DriverState::Preparing,
        DriverEvent::WingetReady(Err(Failure::new("Panne", &[]))),
    ));
    assert_eq!(f.title, "Panne");
    let f = failure(ensure_apple_drivers(DriverState::Installing, DriverEvent::Ran(Ok(false))));
    assert_eq!(f.title, "L'installation des pilotes Apple a echoue");
    let odd = || "odd".to_string();
    let f = failure(ensure_apple_drivers(DriverState::Installing, DriverEvent::Ran(Err(odd()))));
    assert_eq!(f.title, "WinGet n'a pas pu etre lance");
    assert_eq!(f.detail, Some(odd()));
    let f = failure(ensure_apple_drivers(DriverState::Verifying, DriverEvent::Called(Err(odd()))));
    assert_eq!(f.title, "Les pilotes Apple ne repondent toujours pas");
    let t = ensure_apple_drivers(DriverState::Finished, DriverEvent::Begin);
    assert!(matches!(t.action, DriverAction::Ignore));
    assert_eq!(t.state, DriverState::Finished);
}

#[test]
fn winget_that_answers_is_enough() {
    let t = ensure_winget(WingetState::Start, WingetEvent::Begin);
    assert!(matches!(t.action, WingetAction::Run(Command::WingetVersion)));
    assert_eq!(WINGET_WORK_DIR, "kosp-winget-deps");
    let t = ensure_winget(t.state, WingetEvent::Ran(Ok(true)));
    assert!(matches!(t.action, WingetAction::Finish(Ok(()))));
}

#[test]
fn missing_winget_is_installed() {
    for ran in vec![Ok(false), Err("x".to_string())] {
        let t = ensure_winget(WingetState::Looking, WingetEvent::Ran(ran));
        assert!(says(&t.notices, "Installation de WinGet et de ses dependances..."));
        assert!(matches!(t.action, WingetAction::Run(Command::InstallWinget)));
    }
    let t = ensure_winget(WingetState::Installing, WingetEvent::Ran(Ok(true)));
    assert!(matches!(t.action, WingetAction::Finish(Ok(()))));
    let t = ensure_winget(WingetState::Installing, WingetEvent::Ran(Ok(false)));
    assert!(matches!(
        t.action,
        WingetAction::Finish(Err(f)) if f.title == "WinGet n'a pas pu etre installe sur ce PC"
    ));
    let t = ensure_winget(WingetState::Installing, WingetEvent::Ran(Err("x".to_string())));
    assert!(matches!(
        t.action,
        WingetAction::Finish(Err(f)) if f.title == "PowerShell n'a pas pu etre lance"
    ));
    let t = ensure_winget(WingetState::Finished, WingetEvent::Begin);
    assert!(matches!(t.action, WingetAction::Ignore));
}

#[test]
fn the_webview_is_installed_where_it_is_missing() {
    let (s, a) = ensure_webview2(WebviewState::Start, false);
    assert_eq!(a, WebviewAction::Run(Command::QueryWebview(RegistryRoot::Machine)));
    assert_eq!(ensure_webview2(s, true).1, WebviewAction::Finish);
    let (s, a) = ensure_webview2(s, false);
    assert_eq!(a, WebviewAction::Run(Command::QueryWebview(RegistryRoot::User)));
    assert_eq!(ensure_webview2(s, true).1, WebviewAction::Finish);
    let (s, a) = ensure_webview2(s, false);
    assert_eq!(a, WebviewAction::Run(Command::DownloadWebview));
    assert_eq!(ensure_webview2(s, false).1, WebviewAction::Finish);
    let (s, a) = ensure_webview2(s, true);
    assert_eq!(a, WebviewAction::Run(Command::InstallWebview));
    assert_eq!(ensure_webview2(s, true), (WebviewState::Finished, WebviewAction::Finish));
    assert_eq!(ensure_webview2(s, false), (WebviewState::Finished, WebviewAction::Finish));
    assert_eq!(WEBVIEW_INSTALLER, "MicrosoftEdgeWebview2Setup.exe");
}

#[test]
fn the_journal_is_shown_where_it_exists() {
    assert_eq!(LOG_FILE, "kosp-injection.log");
    assert_eq!(open_log(true), Ok(Command::ShowFile));
    assert_eq!(open_log(false), Err("Aucun journal n'a encore ete ecrit.".to_string()));
    assert_eq!(log_opened(Ok(())), Ok(()));
    assert_eq!(
        log_opened(Err("refus".to_string())),
        Err("ouverture du journal impossible : refus".to_string())
    );
}
