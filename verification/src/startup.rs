//! What is settled before the menu is shown: whether this is a system
//! that the tool is for, whether it runs with the rights it needs, and
//! whether the helper package it leans on is installed.

use crate::command::{bare, call, with_arg, Invocation};
use crate::text::{contains_y, has_y};
use vstd::prelude::*;

verus! {

/// The file whose presence shows that the system is managed by pacman.
pub const PACMAN_CONF: &'static str = "/etc/pacman.conf";

/// The user id of the superuser.
pub const ROOT_UID: u32 = 0;

/// The environment that the tool finds itself in.
#[derive(Clone, Copy, Debug, PartialEq, Eq)]
pub enum Environment {
    /// The package manager's configuration is missing: the tool gives up.
    NoPackageManager,
    /// The tool goes on, and warns that it lacks root privileges.
    Unprivileged,
    /// The tool goes on.
    Privileged,
}

/// The environment where the configuration is present or not and the
/// process runs under `uid`: without the configuration nothing else
/// counts, and only the superuser is privileged.
pub open spec fn environment_of(conf_present: bool, uid: u32) -> Environment {
    if !conf_present {
        Environment::NoPackageManager
    } else if uid != ROOT_UID {
        Environment::Unprivileged
    } else {
        Environment::Privileged
    }
}

/// The status that the process ends with: 1 where it gave up for want of
/// the package manager, 0 after the menu in every other case.
pub open spec fn exit_status_of(env: Environment) -> u8 {
    if env is NoPackageManager {
        1
    } else {
        0
    }
}

/// Judges the environment. `conf_present` says whether `PACMAN_CONF`
/// exists, `uid` is the user id that the process runs under.
pub fn environment(conf_present: bool, uid: u32) -> (env: Environment)
    ensures
        env == environment_of(conf_present, uid),
{
    if !conf_present {
        Environment::NoPackageManager
    } else if uid != ROOT_UID {
        Environment::Unprivileged
    } else {
        Environment::Privileged
    }
}

/// The status that the process ends with in `env`.
pub fn exit_status(env: Environment) -> (status: u8)
    ensures
        status == exit_status_of(env),
{
    match env {
        Environment::NoPackageManager => 1,
        _ => 0,
    }
}

/// Asks whether the helper package is installed: `pacman -Q pacman-contrib`
/// succeeds exactly if it is.
pub fn contrib_query() -> (inv: Invocation)
    ensures
        inv@ == call("pacman"@, seq!["-Q"@, "pacman-contrib"@]),
{
    let inv = with_arg(with_arg(bare("pacman"), "-Q"), "pacman-contrib");
    assert(inv@.args =~= seq!["-Q"@, "pacman-contrib"@]);
    inv
}

/// Installs the helper package: `pacman -Sy pacman-contrib`.
pub fn contrib_install() -> (inv: Invocation)
    ensures
        inv@ == call("pacman"@, seq!["-Sy"@, "pacman-contrib"@]),
{
    let inv = with_arg(with_arg(bare("pacman"), "-Sy"), "pacman-contrib");
    assert(inv@.args =~= seq!["-Sy"@, "pacman-contrib"@]);
    inv
}

/// Decides from the reply to "install it now?" whether the helper package
/// is installed: a reply in which a `y` occurs, in either case, installs
/// it, and no other reply does.
pub fn contrib_offer(reply: &str) -> (install: Option<Invocation>)
    ensures
        install is Some <==> contains_y(reply@),
        install matches Some(inv) ==> inv@ == call("pacman"@, seq!["-Sy"@, "pacman-contrib"@]),
{
    if has_y(reply) {
        Some(contrib_install())
    } else {
        None
    }
}

} // verus!
