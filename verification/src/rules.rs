//! The `rules` of a game manifest: which operating system a library or an
//! argument is meant for.
use vstd::prelude::*;

verus! {

/// Operating systems a manifest rule can name.
#[derive(Clone, Copy, Debug, PartialEq, Eq, Structural)]
pub enum OsName {
    Osx,
    OsxArm64,
    Linux,
    LinuxArm64,
    LinuxArm32,
    Windows,
}

/// What a rule does when it applies.
#[derive(Clone, Copy, Debug, PartialEq, Eq, Structural)]
pub enum ActionType {
    Allow,
    Disallow,
}

/// The operating-system condition of a rule.
#[derive(Clone, Debug)]
pub struct Os {
    pub name: Option<OsName>,
    pub arch: Option<String>,
}

/// One manifest rule.
#[derive(Clone, Debug)]
pub struct Rule {
    pub action: ActionType,
    pub os: Option<Os>,
}

/// The rule names an operating system.
pub open spec fn names_os(rule: Rule) -> bool {
    rule.os matches Some(os) && os.name is Some
}

/// The rule names `os` and allows it.
pub open spec fn allows_os(rule: Rule, os: OsName) -> bool {
    names_os(rule) && rule.os->0.name->0 == os && rule.action == ActionType::Allow
}

/// The file extension of native libraries on `os`.
pub open spec fn native_extension(os: OsName) -> Seq<char> {
    match os {
        OsName::Osx | OsName::OsxArm64 => ".dylib"@,
        OsName::Linux | OsName::LinuxArm64 | OsName::LinuxArm32 => ".so"@,
        OsName::Windows => ".dll"@,
    }
}

/// The file extension of native libraries on `os`.
pub fn native_extension_of(os: OsName) -> (r: &'static str)
    ensures
        r@ == native_extension(os),
{
    match os {
        OsName::Osx | OsName::OsxArm64 => ".dylib",
        OsName::Linux | OsName::LinuxArm64 | OsName::LinuxArm32 => ".so",
        OsName::Windows => ".dll",
    }
}

} // verus!
