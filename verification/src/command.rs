//! The command lines by which Windows is asked for something.

use crate::text::{join, strings, texts, to_strings};
use vstd::prelude::*;

verus! {

/// The Windows service by which programs reach a plugged-in iPhone.
pub const APPLE_SERVICE: &'static str = "Apple Mobile Device Service";

pub const START_SERVICE_HEAD: &'static str = "Start-Service -Name '";

pub const START_SERVICE_TAIL: &'static str = "'";

pub const WINGET_VERSION_ARGS: [&'static str; 1] = ["--version"];

/// The package source is named so that WinGet does not ask the Microsoft Store, whose
/// terms somebody would have to accept at a prompt.
pub const INSTALL_DRIVERS_ARGS: [&'static str; 8] = [
    "install",
    "--id",
    "Apple.AppleMobileDeviceSupport",
    "--source",
    "winget",
    "--accept-source-agreements",
    "--accept-package-agreements",
    "--silent",
];

/// Installs WinGet from its latest release, with the dependencies of that very release:
/// other versions of them are refused.
pub const INSTALL_WINGET_HEAD: &'static str = "
$ErrorActionPreference = 'Stop'
$ProgressPreference = 'SilentlyContinue'
$work = '";

pub const INSTALL_WINGET_TAIL: &'static str = "'
New-Item -ItemType Directory -Force -Path $work | Out-Null

$release = Invoke-RestMethod -Uri 'https://api.github.com/repos/microsoft/winget-cli/releases/latest'
$depsAsset = $release.assets | Where-Object { $_.name -eq 'DesktopAppInstaller_Dependencies.zip' }
$bundleAsset = $release.assets | Where-Object { $_.name -like '*.msixbundle' }

$depsZip = Join-Path $work 'deps.zip'
Invoke-WebRequest -Uri $depsAsset.browser_download_url -OutFile $depsZip
Expand-Archive -Path $depsZip -DestinationPath $work -Force

Get-ChildItem -Path (Join-Path $work 'x64') -Filter '*.appx' | ForEach-Object {
    Add-AppxPackage -Path $_.FullName -ErrorAction Stop
}

$bundlePath = Join-Path $work 'winget.msixbundle'
Invoke-WebRequest -Uri $bundleAsset.browser_download_url -OutFile $bundlePath
Add-AppxPackage -Path $bundlePath -ErrorAction Stop
";

/// The registry key of the WebView2 runtime, below each of the two roots.
pub const WEBVIEW_KEY: &'static str =
    "\\SOFTWARE\\WOW6432Node\\Microsoft\\EdgeUpdate\\Clients\\{F3017226-FE2A-4295-8BDF-00C3A9A7E4C5}";

pub const DOWNLOAD_WEBVIEW_HEAD: &'static str =
    "Invoke-WebRequest -Uri 'https://go.microsoft.com/fwlink/p/?LinkId=2124703' -OutFile '";

pub const DOWNLOAD_WEBVIEW_TAIL: &'static str = "'";

pub const INSTALL_WEBVIEW_ARGS: [&'static str; 2] = ["/silent", "/install"];

/// The explorer opens the folder of a file and marks the file.
pub const SELECT_FILE: &'static str = "/select,";

/// The two registry roots under which a program may be installed.
#[derive(Clone, Copy, Debug, PartialEq, Eq, Structural)]
pub enum RegistryRoot {
    Machine,
    User,
}

impl RegistryRoot {
    pub open spec fn name(self) -> Seq<char> {
        match self {
            RegistryRoot::Machine => "HKLM"@,
            RegistryRoot::User => "HKCU"@,
        }
    }

    pub fn id(self) -> (r: &'static str)
        ensures
            r@ == self.name(),
    {
        match self {
            RegistryRoot::Machine => "HKLM",
            RegistryRoot::User => "HKCU",
        }
    }
}

/// A command to run. Its success is the success of its exit code.
#[derive(Clone, Copy, Debug, PartialEq, Eq, Structural)]
pub enum Command {
    /// Is the Apple service installed, running or not?
    QueryService,
    StartService,
    WingetVersion,
    InstallDrivers,
    InstallWinget,
    QueryWebview(RegistryRoot),
    DownloadWebview,
    InstallWebview,
    /// Show the file in its folder.
    ShowFile,
}

impl Command {
    /// The program to run. `file` is the path of the file or directory that the command
    /// works on, where it works on one.
    pub open spec fn program_name(self, file: Seq<char>) -> Seq<char> {
        match self {
            Command::QueryService => "sc"@,
            Command::StartService => "powershell"@,
            Command::WingetVersion => "winget"@,
            Command::InstallDrivers => "winget"@,
            Command::InstallWinget => "powershell"@,
            Command::QueryWebview(_) => "reg"@,
            Command::DownloadWebview => "powershell"@,
            Command::InstallWebview => file,
            Command::ShowFile => "explorer"@,
        }
    }

    /// The arguments of the program.
    pub open spec fn arguments(self, file: Seq<char>) -> Seq<Seq<char>> {
        match self {
            Command::QueryService => seq!["query"@, APPLE_SERVICE@],
            Command::StartService => powershell(
                START_SERVICE_HEAD@ + APPLE_SERVICE@ + START_SERVICE_TAIL@,
            ),
            Command::WingetVersion => texts(WINGET_VERSION_ARGS@),
            Command::InstallDrivers => texts(INSTALL_DRIVERS_ARGS@),
            Command::InstallWinget => powershell(
                INSTALL_WINGET_HEAD@ + file + INSTALL_WINGET_TAIL@,
            ),
            Command::QueryWebview(root) => seq![
                "query"@,
                root.name() + WEBVIEW_KEY@,
                "/v"@,
                "pv"@,
            ],
            Command::DownloadWebview => powershell(
                DOWNLOAD_WEBVIEW_HEAD@ + file + DOWNLOAD_WEBVIEW_TAIL@,
            ),
            Command::InstallWebview => texts(INSTALL_WEBVIEW_ARGS@),
            Command::ShowFile => seq![SELECT_FILE@, file],
        }
    }

    pub fn program(self, file: &str) -> (r: String)
        ensures
            r@ == self.program_name(file@),
    {
        match self {
            Command::QueryService => "sc".to_string(),
            Command::StartService => "powershell".to_string(),
            Command::WingetVersion => "winget".to_string(),
            Command::InstallDrivers => "winget".to_string(),
            Command::InstallWinget => "powershell".to_string(),
            Command::QueryWebview(_) => "reg".to_string(),
            Command::DownloadWebview => "powershell".to_string(),
            Command::InstallWebview => file.to_string(),
            Command::ShowFile => "explorer".to_string(),
        }
    }

    pub fn args(self, file: &str) -> (r: Vec<String>)
        ensures
            strings(r@) == self.arguments(file@),
    {
        match self {
            Command::QueryService => {
                let r: Vec<String> = to_strings(&["query", APPLE_SERVICE]);
                assert(strings(r@) =~= self.arguments(file@));
                r
            },
            Command::StartService => powershell_args(
                join(START_SERVICE_HEAD, APPLE_SERVICE, START_SERVICE_TAIL),
            ),
            Command::WingetVersion => to_strings(&WINGET_VERSION_ARGS),
            Command::InstallDrivers => to_strings(&INSTALL_DRIVERS_ARGS),
            Command::InstallWinget => powershell_args(
                join(INSTALL_WINGET_HEAD, file, INSTALL_WINGET_TAIL),
            ),
            Command::QueryWebview(root) => {
                let key: String = join(root.id(), WEBVIEW_KEY, "");
                proof {
                    reveal_strlit("");
                    assert(key@ =~= root.name() + WEBVIEW_KEY@);
                }
                let r: Vec<String> = to_strings(&["query", key.as_str(), "/v", "pv"]);
                assert(strings(r@) =~= self.arguments(file@));
                r
            },
            Command::DownloadWebview => powershell_args(
                join(DOWNLOAD_WEBVIEW_HEAD, file, DOWNLOAD_WEBVIEW_TAIL),
            ),
            Command::InstallWebview => to_strings(&INSTALL_WEBVIEW_ARGS),
            Command::ShowFile => {
                let r: Vec<String> = to_strings(&[SELECT_FILE, file]);
                assert(strings(r@) =~= self.arguments(file@));
                r
            },
        }
    }
}

/// The arguments with which PowerShell runs a script.
pub open spec fn powershell(script: Seq<char>) -> Seq<Seq<char>> {
    seq!["-NoProfile"@, "-Command"@, script]
}

fn powershell_args(script: String) -> (r: Vec<String>)
    ensures
        strings(r@) == powershell(script@),
{
    let mut r: Vec<String> = to_strings(&["-NoProfile", "-Command"]);
    let ghost head = strings(r@);
    assert(head =~= seq!["-NoProfile"@, "-Command"@]);
    r.push(script);
    assert(strings(r@) =~= head.push(script@));
    assert(strings(r@) =~= powershell(script@));
    r
}

/// The command lines, whatever the file that they work on: it stands in them as it is.
pub proof fn law_command_lines(file: Seq<char>)
    ensures
        Command::QueryService.program_name(file) == "sc"@,
        Command::QueryService.arguments(file) == seq!["query"@, "Apple Mobile Device Service"@],
        Command::StartService.program_name(file) == "powershell"@,
        Command::StartService.arguments(file) == seq![
            "-NoProfile"@,
            "-Command"@,
            "Start-Service -Name '"@ + "Apple Mobile Device Service"@ + "'"@,
        ],
        Command::WingetVersion.program_name(file) == "winget"@,
        Command::WingetVersion.arguments(file) == seq!["--version"@],
        Command::InstallDrivers.program_name(file) == "winget"@,
        Command::InstallDrivers.arguments(file) == seq![
            "install"@,
            "--id"@,
            "Apple.AppleMobileDeviceSupport"@,
            "--source"@,
            "winget"@,
            "--accept-source-agreements"@,
            "--accept-package-agreements"@,
            "--silent"@,
        ],
        Command::InstallWinget.program_name(file) == "powershell"@,
        Command::InstallWinget.arguments(file) == seq![
            "-NoProfile"@,
            "-Command"@,
            INSTALL_WINGET_HEAD@ + file + INSTALL_WINGET_TAIL@,
        ],
        Command::DownloadWebview.program_name(file) == "powershell"@,
        Command::DownloadWebview.arguments(file) == seq![
            "-NoProfile"@,
            "-Command"@,
            DOWNLOAD_WEBVIEW_HEAD@ + file + "'"@,
        ],
        Command::InstallWebview.program_name(file) == file,
        Command::InstallWebview.arguments(file) == seq!["/silent"@, "/install"@],
        Command::ShowFile.program_name(file) == "explorer"@,
        Command::ShowFile.arguments(file) == seq!["/select,"@, file],
{
    assert(Command::WingetVersion.arguments(file) =~= seq!["--version"@]);
    assert(Command::InstallWebview.arguments(file) =~= seq!["/silent"@, "/install"@]);
    assert(Command::InstallDrivers.arguments(file) =~= seq![
        "install"@,
        "--id"@,
        "Apple.AppleMobileDeviceSupport"@,
        "--source"@,
        "winget"@,
        "--accept-source-agreements"@,
        "--accept-package-agreements"@,
        "--silent"@,
    ]);
}

/// The runtime is looked for under its key below either root.
pub proof fn law_registry_queries(root: RegistryRoot, file: Seq<char>)
    ensures
        Command::QueryWebview(root).program_name(file) == "reg"@,
        Command::QueryWebview(root).arguments(file) == seq![
            "query"@,
            root.name() + WEBVIEW_KEY@,
            "/v"@,
            "pv"@,
        ],
        RegistryRoot::Machine.name() == "HKLM"@,
        RegistryRoot::User.name() == "HKCU"@,
{
}

} // verus!
