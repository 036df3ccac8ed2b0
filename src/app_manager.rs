use vstd::prelude::*;
use vstd::string::StringSliceAdditionalSpecFns;

use crate::process::{
    arg_views, exited_ok, failure_of, failure_text, lossy_text, utf8_lossy, CommandLine,
    ProcessOutcome,
};
use crate::text::{contains_token, has_token, parse_version_field, version_field};

verus! {

#[derive(Debug)]
pub enum AppError {
    InstallError(String),
    UninstallError(String),
    StartError(String),
    StopError(String),
    StatusError(String),
    InvalidApkPath(String),
    /// The bridge tool did not answer within its time limit.
    Timeout,
}

/// The text that describes an application error.
pub open spec fn app_error_text(e: AppError) -> Seq<char> {
    match e {
        AppError::InstallError(t) => "Failed to install app: "@ + t@,
        AppError::UninstallError(t) => "Failed to uninstall app: "@ + t@,
        AppError::StartError(t) => "Failed to start app: "@ + t@,
        AppError::StopError(t) => "Failed to stop app: "@ + t@,
        AppError::StatusError(t) => "Failed to check app status: "@ + t@,
        AppError::InvalidApkPath(t) => "Invalid APK path: "@ + t@,
        AppError::Timeout => "App command timed out"@,
    }
}

impl AppError {
    pub fn message(&self) -> (r: String)
        ensures
            r@ == app_error_text(*self),
    {
        match self {
            AppError::InstallError(t) => "Failed to install app: ".to_owned().concat(t.as_str()),
            AppError::UninstallError(t) => "Failed to uninstall app: ".to_owned().concat(t.as_str()),
            AppError::StartError(t) => "Failed to start app: ".to_owned().concat(t.as_str()),
            AppError::StopError(t) => "Failed to stop app: ".to_owned().concat(t.as_str()),
            AppError::StatusError(t) => "Failed to check app status: ".to_owned().concat(t.as_str()),
            AppError::InvalidApkPath(t) => "Invalid APK path: ".to_owned().concat(t.as_str()),
            AppError::Timeout => "App command timed out".to_owned(),
        }
    }
}

/// Controls application packages on one running instance through the bridge tool.
#[derive(Debug)]
pub struct AppManager {
    device_id: String,
}

/// The bridge tool's program name.
pub open spec fn bridge_program() -> Seq<char> {
    "adb"@
}

/// An argument cannot be handed to a process when it holds a NUL byte.
pub open spec fn passable_arg(s: &str) -> bool {
    forall|i: int| 0 <= i < s.spec_bytes().len() ==> #[trigger] s.spec_bytes()[i] != 0
}

impl View for AppManager {
    type V = Seq<char>;

    /// The serial of the device that the bridge tool addresses.
    closed spec fn view(&self) -> Seq<char> {
        self.device_id@
    }
}

impl AppManager {
    pub fn new(device_id: String) -> (r: Self)
        ensures
            r@ == device_id@,
    {
        AppManager { device_id }
    }

    pub fn device_id(&self) -> (r: &str)
        ensures
            r@ == self@,
    {
        self.device_id.as_str()
    }

    /// `adb -s <device>` followed by `rest`.
    fn bridge_command(&self, rest: Vec<String>) -> (r: CommandLine)
        ensures
            r.program@ == bridge_program(),
            arg_views(r.args@) == seq!["-s"@, self@] + arg_views(rest@),
    {
        let mut args: Vec<String> = Vec::new();
        args.push("-s".to_owned());
        args.push(self.device_id.clone());
        let mut i: usize = 0;
        while i < rest.len()
            invariant
                0 <= i <= rest@.len(),
                arg_views(args@) == seq!["-s"@, self@] + arg_views(rest@.subrange(0, i as int)),
            decreases rest@.len() - i,
        {
            let ghost before = args@;
            args.push(rest[i].clone());
            proof {
                assert(args@ == before.push(rest@[i as int]));
                assert(arg_views(args@) =~= arg_views(before).push(rest@[i as int]@));
                assert(rest@.subrange(0, i + 1) =~= rest@.subrange(0, i as int).push(
                    rest@[i as int],
                ));
                assert(arg_views(rest@.subrange(0, i + 1)) =~= arg_views(
                    rest@.subrange(0, i as int),
                ).push(rest@[i as int]@));
            }
            i += 1;
            assert(arg_views(args@) =~= seq!["-s"@, self@] + arg_views(
                rest@.subrange(0, i as int),
            ));
        }
        assert(rest@.subrange(0, rest@.len() as int) =~= rest@);
        CommandLine { program: "adb".to_owned(), args }
    }

    /// The command that installs the package at `apk_path`, replacing an installed
    /// one; refused when the path cannot be passed as an argument.
    pub fn install_command(&self, apk_path: &str) -> (r: Result<CommandLine, AppError>)
        ensures
            passable_arg(apk_path) ==> (r matches Ok(c) && c.program@ == bridge_program()
                && arg_views(c.args@) == seq!["-s"@, self@, "install"@, "-r"@, apk_path@]),
            !passable_arg(apk_path) ==> r matches Err(AppError::InvalidApkPath(_)),
    {
        let bytes = apk_path.as_bytes();
        let mut i: usize = 0;
        while i < bytes.len()
            invariant
                bytes@ == apk_path.spec_bytes(),
                0 <= i <= bytes@.len(),
                forall|j: int| 0 <= j < i ==> bytes@[j] != 0,
            decreases bytes@.len() - i,
        {
            if bytes[i] == 0 {
                return Err(AppError::InvalidApkPath("APK path contains a NUL byte".to_owned()));
            }
            i += 1;
        }
        let rest = vec!["install".to_owned(), "-r".to_owned(), apk_path.to_owned()];
        let r = self.bridge_command(rest);
        assert(arg_views(r.args@) =~= seq!["-s"@, self@, "install"@, "-r"@, apk_path@]);
        Ok(r)
    }

    /// Interprets the run of `install_command`.
    pub fn install_result(outcome: &ProcessOutcome) -> (r: Result<(), AppError>)
        ensures
            outcome is TimedOut ==> r matches Err(AppError::Timeout),
            !(outcome is TimedOut) ==> (r is Ok <==> exited_ok(*outcome)),
            !(outcome is TimedOut) && !exited_ok(*outcome) ==> (r matches Err(AppError::InstallError(t)) && t@ == failure_text(*outcome)),
    {
        if let ProcessOutcome::TimedOut = outcome {
            return Err(AppError::Timeout);
        }
        match failure_of(outcome) {
            None => Ok(()),
            Some(t) => Err(AppError::InstallError(t)),
        }
    }

    /// The command that removes package `package_name`.
    pub fn uninstall_command(&self, package_name: &str) -> (r: CommandLine)
        ensures
            r.program@ == bridge_program(),
            arg_views(r.args@) == seq!["-s"@, self@, "uninstall"@, package_name@],
    {
        let rest = vec!["uninstall".to_owned(), package_name.to_owned()];
        let r = self.bridge_command(rest);
        assert(arg_views(r.args@) =~= seq!["-s"@, self@, "uninstall"@, package_name@]);
        r
    }

    /// Interprets the run of `uninstall_command`.
    pub fn uninstall_result(outcome: &ProcessOutcome) -> (r: Result<(), AppError>)
        ensures
            outcome is TimedOut ==> r matches Err(AppError::Timeout),
            !(outcome is TimedOut) ==> (r is Ok <==> exited_ok(*outcome)),
            !(outcome is TimedOut) && !exited_ok(*outcome) ==> (r matches Err(AppError::UninstallError(t)) && t@ == failure_text(*outcome)),
    {
        if let ProcessOutcome::TimedOut = outcome {
            return Err(AppError::Timeout);
        }
        match failure_of(outcome) {
            None => Ok(()),
            Some(t) => Err(AppError::UninstallError(t)),
        }
    }

    /// The command that launches `package_name/activity` through the activity
    /// manager.
    pub fn start_app_command(&self, package_name: &str, activity: &str) -> (r: CommandLine)
        ensures
            r.program@ == bridge_program(),
            arg_views(r.args@) == seq![
                "-s"@,
                self@,
                "shell"@,
                "am"@,
                "start"@,
                "-n"@,
                package_name@ + "/"@ + activity@,
            ],
    {
        let target = package_name.to_owned().concat("/").concat(activity);
        let rest = vec![
            "shell".to_owned(),
            "am".to_owned(),
            "start".to_owned(),
            "-n".to_owned(),
            target,
        ];
        let r = self.bridge_command(rest);
        assert(arg_views(r.args@) =~= seq![
            "-s"@,
            self@,
            "shell"@,
            "am"@,
            "start"@,
            "-n"@,
            package_name@ + "/"@ + activity@,
        ]);
        r
    }

    /// Interprets the run of `start_app_command`.
    pub fn start_app_result(outcome: &ProcessOutcome) -> (r: Result<(), AppError>)
        ensures
            outcome is TimedOut ==> r matches Err(AppError::Timeout),
            !(outcome is TimedOut) ==> (r is Ok <==> exited_ok(*outcome)),
            !(outcome is TimedOut) && !exited_ok(*outcome) ==> (r matches Err(AppError::StartError(t)) && t@ == failure_text(*outcome)),
    {
        if let ProcessOutcome::TimedOut = outcome {
            return Err(AppError::Timeout);
        }
        match failure_of(outcome) {
            None => Ok(()),
            Some(t) => Err(AppError::StartError(t)),
        }
    }

    /// The command that force-stops `package_name`.
    pub fn stop_app_command(&self, package_name: &str) -> (r: CommandLine)
        ensures
            r.program@ == bridge_program(),
            arg_views(r.args@) == seq![
                "-s"@,
                self@,
                "shell"@,
                "am"@,
                "force-stop"@,
                package_name@,
            ],
    {
        let rest = vec![
            "shell".to_owned(),
            "am".to_owned(),
            "force-stop".to_owned(),
            package_name.to_owned(),
        ];
        let r = self.bridge_command(rest);
        assert(arg_views(r.args@) =~= seq![
            "-s"@,
            self@,
            "shell"@,
            "am"@,
            "force-stop"@,
            package_name@,
        ]);
        r
    }

    /// Interprets the run of `stop_app_command`.
    pub fn stop_app_result(outcome: &ProcessOutcome) -> (r: Result<(), AppError>)
        ensures
            outcome is TimedOut ==> r matches Err(AppError::Timeout),
            !(outcome is TimedOut) ==> (r is Ok <==> exited_ok(*outcome)),
            !(outcome is TimedOut) && !exited_ok(*outcome) ==> (r matches Err(AppError::StopError(t)) && t@ == failure_text(*outcome)),
    {
        if let ProcessOutcome::TimedOut = outcome {
            return Err(AppError::Timeout);
        }
        match failure_of(outcome) {
            None => Ok(()),
            Some(t) => Err(AppError::StopError(t)),
        }
    }

    /// The command that lists the device's processes, narrowed to lines that
    /// mention `package_name`.
    pub fn app_running_command(&self, package_name: &str) -> (r: CommandLine)
        ensures
            r.program@ == bridge_program(),
            arg_views(r.args@) == seq![
                "-s"@,
                self@,
                "shell"@,
                "ps"@,
                "|"@,
                "grep"@,
                package_name@,
            ],
    {
        let rest = vec![
            "shell".to_owned(),
            "ps".to_owned(),
            "|".to_owned(),
            "grep".to_owned(),
            package_name.to_owned(),
        ];
        let r = self.bridge_command(rest);
        assert(arg_views(r.args@) =~= seq![
            "-s"@,
            self@,
            "shell"@,
            "ps"@,
            "|"@,
            "grep"@,
            package_name@,
        ]);
        r
    }

    /// Interprets the run of `app_running_command`: the package runs when the
    /// decoded listing holds its name as a whole whitespace-separated word. The exit status is not consulted,
    /// since a filter that matches nothing exits with failure.
    pub fn app_running_result(package_name: &str, outcome: &ProcessOutcome) -> (r: Result<
        bool,
        AppError,
    >)
        ensures
            match *outcome {
                ProcessOutcome::Finished(out) => r == Ok::<bool, AppError>(
                    has_token(utf8_lossy(out.stdout@), package_name@),
                ),
                ProcessOutcome::SpawnFailed(reason) => r matches Err(AppError::StatusError(t))
                    && t@ == reason@,
                ProcessOutcome::TimedOut => r matches Err(AppError::Timeout),
            },
    {
        match outcome {
            ProcessOutcome::Finished(out) => {
                let listing = lossy_text(out.stdout.as_slice());
                Ok(contains_token(listing.as_str(), package_name))
            },
            ProcessOutcome::SpawnFailed(reason) => Err(AppError::StatusError(reason.clone())),
            ProcessOutcome::TimedOut => Err(AppError::Timeout),
        }
    }

    /// The command that dumps the package's metadata, narrowed to its version lines.
    pub fn app_version_command(&self, package_name: &str) -> (r: CommandLine)
        ensures
            r.program@ == bridge_program(),
            arg_views(r.args@) == seq![
                "-s"@,
                self@,
                "shell"@,
                "dumpsys"@,
                "package"@,
                package_name@,
                "|"@,
                "grep"@,
                "versionName"@,
            ],
    {
        let rest = vec![
            "shell".to_owned(),
            "dumpsys".to_owned(),
            "package".to_owned(),
            package_name.to_owned(),
            "|".to_owned(),
            "grep".to_owned(),
            "versionName".to_owned(),
        ];
        let r = self.bridge_command(rest);
        assert(arg_views(r.args@) =~= seq![
            "-s"@,
            self@,
            "shell"@,
            "dumpsys"@,
            "package"@,
            package_name@,
            "|"@,
            "grep"@,
            "versionName"@,
        ]);
        r
    }

    /// Interprets the run of `app_version_command`: the version is the value of the
    /// field on the first line of the decoded listing.
    pub fn app_version_result(outcome: &ProcessOutcome) -> (r: Result<String, AppError>)
        ensures
            match *outcome {
                ProcessOutcome::Finished(out) => match version_field(utf8_lossy(out.stdout@)) {
                    Some(v) => r matches Ok(s) && s@ == v,
                    None => r matches Err(AppError::StatusError(_)),
                },
                ProcessOutcome::SpawnFailed(reason) => r matches Err(AppError::StatusError(t))
                    && t@ == reason@,
                ProcessOutcome::TimedOut => r matches Err(AppError::Timeout),
            },
    {
        match outcome {
            ProcessOutcome::Finished(out) => match parse_version_field(
                lossy_text(out.stdout.as_slice()).as_str(),
            ) {
                Some(v) => Ok(v),
                None => Err(AppError::StatusError("Failed to parse app version".to_owned())),
            },
            ProcessOutcome::SpawnFailed(reason) => Err(AppError::StatusError(reason.clone())),
            ProcessOutcome::TimedOut => Err(AppError::Timeout),
        }
    }
}

} // verus!
