//! Build orchestrator: turns a profile, a target platform and the SDK and
//! cross-tools locations into a plan of at most two external phases. The
//! unverified rim spawns the processes; every decision about what to run,
//! in what order, and whether to run it at all is made here.

use vstd::prelude::*;

use crate::config::{spec_gd_dir, Profile};
use crate::strutil::{has_sep, join_seq, path_join};

verus! {

/// The caller's build options: the two mutually exclusive phase filters, an
/// optional cross-toolchain identifier, and passthrough configure arguments.
pub struct BuildOptions {
    pub configure_only: bool,
    pub build_only: bool,
    pub ndk: Option<String>,
    pub extra_conf_args: Vec<String>,
}

/// Why no build plan could be made; all are found before any phase runs.
#[derive(PartialEq, Eq, Structural, Clone, Copy, Debug)]
pub enum BuildError {
    /// `configure_only` and `build_only` were both requested.
    ConflictingFlags,
    /// The platform tag is not one this tool can build for.
    UnknownPlatform,
    /// A cross target was requested but no cross-tools directory is
    /// configured.
    CrossToolsMissing,
}

/// The toolchain description handed to the configure phase.
pub enum Toolchain {
    Native,
    AndroidCross { toolchain_dir: String },
}

/// Everything the configure phase's invocation needs.
pub struct ConfigurePhase {
    pub build_dir: String,
    pub sdk_root: String,
    pub toolchain: Toolchain,
    pub args: Vec<String>,
}

/// The whole plan: an optional configure phase, then an optional build
/// phase driven in the same directory.
pub struct BuildPlan {
    pub configure: Option<ConfigurePhase>,
    pub build_dir: Option<String>,
}

/// How the configure phase ended, as reported back by the rim.
#[derive(PartialEq, Eq, Structural, Clone, Copy, Debug)]
pub enum ConfigureOutcome {
    /// The plan held no configure phase.
    Skipped,
    Succeeded,
    /// The external tool exited with this non-zero status.
    Failed(i32),
}

/// The fixed set of platform tags this tool can build for.
pub open spec fn is_known_platform(p: Seq<char>) -> bool {
    p == "win"@ || p == "mac-intel"@ || p == "mac-arm"@ || p == "android32"@ || p == "android64"@
}

/// Cross-compiled targets.
pub open spec fn is_android_platform(p: Seq<char>) -> bool {
    p == "android32"@ || p == "android64"@
}

/// Whether `platform` names a tag this tool can build for.
pub fn known_platform(platform: &str) -> (r: bool)
    ensures
        r == is_known_platform(platform@),
{
    crate::strutil::str_eq(platform, "win") || crate::strutil::str_eq(platform, "mac-intel")
        || crate::strutil::str_eq(platform, "mac-arm") || crate::strutil::str_eq(
        platform,
        "android32",
    ) || crate::strutil::str_eq(platform, "android64")
}

/// An exact copy of the passthrough argument list.
fn copy_args(args: &Vec<String>) -> (r: Vec<String>)
    ensures
        r@ == args@,
{
    let mut out: Vec<String> = Vec::new();
    let mut i: usize = 0;
    while i < args.len()
        invariant
            0 <= i <= args.len(),
            out@ =~= args@.take(i as int),
        decreases args.len() - i,
    {
        out.push(args[i].clone());
        i += 1;
    }
    assert(out@ =~= args@);
    out
}

/// Makes the build plan, or rejects before any phase could run: conflicting
/// phase filters first, then an unknown platform tag, then a cross target
/// without a configured cross-tools directory.
pub fn plan_build(
    profile: &Profile,
    platform: &String,
    sdk_root: String,
    cross_tools: Option<String>,
    opts: &BuildOptions,
) -> (r: Result<BuildPlan, BuildError>)
    requires
        profile.platform@ == "win"@ ==> has_sep(profile.gd_path@),
    ensures
        (r == Err::<BuildPlan, BuildError>(BuildError::ConflictingFlags)) <==> (opts.configure_only
            && opts.build_only),
        (r == Err::<BuildPlan, BuildError>(BuildError::UnknownPlatform)) <==> (!(
        opts.configure_only && opts.build_only) && !is_known_platform(platform@)),
        (r == Err::<BuildPlan, BuildError>(BuildError::CrossToolsMissing)) <==> (!(
        opts.configure_only && opts.build_only) && is_known_platform(platform@)
            && is_android_platform(platform@) && cross_tools is None),
        r matches Ok(plan) ==> ({
            &&& (plan.configure is Some) == !opts.build_only
            &&& (plan.build_dir is Some) == !opts.configure_only
            &&& (plan.configure matches Some(c) ==> {
                &&& c.build_dir@ == spec_gd_dir(*profile)
                &&& c.sdk_root == sdk_root
                &&& c.args@ == opts.extra_conf_args@
                &&& if is_android_platform(platform@) {
                    c.toolchain matches Toolchain::AndroidCross { toolchain_dir } && (
                    cross_tools matches Some(ct) && toolchain_dir@ == (match opts.ndk {
                        Some(id) => join_seq(ct@, id@),
                        None => ct@,
                    }))
                } else {
                    c.toolchain is Native
                }
            })
            &&& (plan.build_dir matches Some(d) ==> d@ == spec_gd_dir(*profile))
        }),
{
    if opts.configure_only && opts.build_only {
        return Err(BuildError::ConflictingFlags);
    }
    if !known_platform(platform.as_str()) {
        return Err(BuildError::UnknownPlatform);
    }
    let android = crate::strutil::str_eq(platform.as_str(), "android32")
        || crate::strutil::str_eq(platform.as_str(), "android64");
    let toolchain = if android {
        match &cross_tools {
            None => {
                return Err(BuildError::CrossToolsMissing);
            },
            Some(ct) => {
                let dir = match &opts.ndk {
                    Some(id) => path_join(ct.as_str(), id.as_str()),
                    None => ct.clone(),
                };
                Toolchain::AndroidCross { toolchain_dir: dir }
            },
        }
    } else {
        Toolchain::Native
    };
    let build_dir = profile.gd_dir();
    let configure = if opts.build_only {
        None
    } else {
        Some(
            ConfigurePhase {
                build_dir: build_dir.clone(),
                sdk_root,
                toolchain,
                args: copy_args(&opts.extra_conf_args),
            },
        )
    };
    let build_dir_phase = if opts.configure_only {
        None
    } else {
        Some(build_dir)
    };
    Ok(BuildPlan { configure, build_dir: build_dir_phase })
}

impl ConfigurePhase {
    /// The configure invocation's argument list: the directories and the
    /// toolchain description first, the user's passthrough arguments last,
    /// so user overrides win over defaults.
    pub fn argv(&self) -> (r: Vec<String>)
        ensures
            match self.toolchain {
                Toolchain::Native => r@ =~= seq![self.build_dir, self.sdk_root] + self.args@,
                Toolchain::AndroidCross { toolchain_dir } => r@ =~= seq![
                    self.build_dir,
                    self.sdk_root,
                    toolchain_dir,
                ] + self.args@,
            },
    {
        let mut out: Vec<String> = Vec::new();
        out.push(self.build_dir.clone());
        out.push(self.sdk_root.clone());
        match &self.toolchain {
            Toolchain::Native => {},
            Toolchain::AndroidCross { toolchain_dir } => {
                out.push(toolchain_dir.clone());
            },
        }
        let mut i: usize = 0;
        let ghost base = out@;
        while i < self.args.len()
            invariant
                0 <= i <= self.args.len(),
                out@ =~= base + self.args@.take(i as int),
            decreases self.args.len() - i,
        {
            out.push(self.args[i].clone());
            i += 1;
        }
        assert(out@ =~= base + self.args@);
        out
    }
}

/// Whether the build phase may run: only when the plan holds one, and never
/// after a failed configure phase.
pub fn should_run_build(plan: &BuildPlan, outcome: &ConfigureOutcome) -> (r: bool)
    ensures
        r == (plan.build_dir is Some && !(outcome matches ConfigureOutcome::Failed(_))),
{
    match outcome {
        ConfigureOutcome::Failed(_) => false,
        _ => plan.build_dir.is_some(),
    }
}

} // verus!
