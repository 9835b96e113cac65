//! SDK locator: validates the environment-provided SDK path. The caller
//! reads the `SAPFIRE_SDK` environment variable and the two filesystem facts
//! and hands them in as plain values; every decision about them is made here.

use vstd::prelude::*;

use crate::config::Config;
use crate::strutil::join_seq;
use crate::strutil::path_join;

verus! {

/// Why the SDK could not be located; each variant carries its remediation.
#[derive(PartialEq, Eq, Structural, Clone, Copy, Debug)]
pub enum SdkError {
    /// The environment variable is not set.
    NotConfigured,
    /// The configured path is not a directory.
    PathInvalid,
    /// The configured directory lacks the `VERSION` marker file.
    Corrupt,
}

impl SdkError {
    /// The remediation instruction surfaced verbatim to the user.
    pub fn hint(&self) -> (r: String)
        ensures
            *self == SdkError::NotConfigured ==> r@
                == "Unable to find Sapfire SDK (SAPFIRE_SDK isn't set). Please install it using `sapfire sdk install` or use `sapfire sdk set-path` to set it to an existing clone. If you just installed the SDK using `sapfire sdk install`, please restart your terminal / computer to apply changes."@,
            *self == SdkError::PathInvalid ==> r@
                == "Internal Error: SAPFIRE_SDK doesn't point to a directory. This might be caused by having run `sapfire sdk set-path` - try restarting your terminal / computer, or reinstall using `sapfire sdk install --reinstall`"@,
            *self == SdkError::Corrupt ==> r@
                == "Internal Error: SAPFIRE_SDK/VERSION not found. Please reinstall the Sapfire SDK using `sapfire sdk install --reinstall`"@,
    {
        match self {
            SdkError::NotConfigured => {
                "Unable to find Sapfire SDK (SAPFIRE_SDK isn't set). Please install it using `sapfire sdk install` or use `sapfire sdk set-path` to set it to an existing clone. If you just installed the SDK using `sapfire sdk install`, please restart your terminal / computer to apply changes.".to_owned()
            },
            SdkError::PathInvalid => {
                "Internal Error: SAPFIRE_SDK doesn't point to a directory. This might be caused by having run `sapfire sdk set-path` - try restarting your terminal / computer, or reinstall using `sapfire sdk install --reinstall`".to_owned()
            },
            SdkError::Corrupt => {
                "Internal Error: SAPFIRE_SDK/VERSION not found. Please reinstall the Sapfire SDK using `sapfire sdk install --reinstall`".to_owned()
            },
        }
    }
}

impl Config {
    /// Validates the configured SDK location. `env_value` is the value of the
    /// `SAPFIRE_SDK` environment variable; `is_dir` reports whether that path
    /// is a directory, and `has_version_file` whether a `VERSION` file exists
    /// inside it. The configured path is returned unchanged exactly when all
    /// three checks pass.
    pub fn try_sdk_path(env_value: Option<String>, is_dir: bool, has_version_file: bool) -> (r:
        Result<String, SdkError>)
        ensures
            (r == Err::<String, SdkError>(SdkError::NotConfigured)) <==> env_value is None,
            (r == Err::<String, SdkError>(SdkError::PathInvalid)) <==> (env_value is Some
                && !is_dir),
            (r == Err::<String, SdkError>(SdkError::Corrupt)) <==> (env_value is Some && is_dir
                && !has_version_file),
            match env_value {
                Some(p) => (is_dir && has_version_file) ==> (r matches Ok(q) && q == p),
                None => true,
            },
    {
        match env_value {
            None => Err(SdkError::NotConfigured),
            Some(p) => {
                if !is_dir {
                    Err(SdkError::PathInvalid)
                } else if !has_version_file {
                    Err(SdkError::Corrupt)
                } else {
                    Ok(p)
                }
            },
        }
    }

    /// The validated SDK location, for callers that have already established
    /// the three checks pass.
    pub fn sdk_path(env_value: Option<String>, is_dir: bool, has_version_file: bool) -> (r:
        String)
        requires
            env_value is Some,
            is_dir,
            has_version_file,
        ensures
            env_value matches Some(p) && r == p,
    {
        match Config::try_sdk_path(env_value, is_dir, has_version_file) {
            Ok(p) => p,
            Err(_) => vstd::pervasive::unreached(),
        }
    }

    /// The directory holding cross-compilation toolchains, a fixed
    /// subdirectory of the data root.
    pub fn cross_tools_path(root: &str) -> (r: String)
        ensures
            r@ == join_seq(root@, "cross-tools"@),
    {
        path_join(root, "cross-tools")
    }
}

} // verus!
