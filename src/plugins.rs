use vstd::prelude::*;

verus! {

/// Verbosity of the logging plugin, from silent to the most detailed.
#[derive(Clone, Copy, Debug, PartialEq, Eq, Structural)]
pub enum LogLevel {
    Off,
    Error,
    Warn,
    Info,
    Debug,
    Trace,
}

/// A capability module attached to the application builder.
#[derive(Clone, Copy, Debug, PartialEq, Eq, Structural)]
pub enum Plugin {
    /// Desktop and mobile notifications.
    Notification,
    /// Logging, at the given verbosity.
    Log(LogLevel),
}

/// How the shell was built: with debug assertions or without.
#[derive(Clone, Copy, Debug, PartialEq, Eq, Structural)]
pub enum BuildProfile {
    Debug,
    Release,
}

impl BuildProfile {
    /// The profile for a build with (`true`) or without debug assertions.
    pub fn from_debug_assertions(enabled: bool) -> (r: BuildProfile)
        ensures
            r == (if enabled { BuildProfile::Debug } else { BuildProfile::Release }),
    {
        if enabled {
            BuildProfile::Debug
        } else {
            BuildProfile::Release
        }
    }

    pub fn is_debug(&self) -> (r: bool)
        ensures
            r == (*self is Debug),
    {
        match self {
            BuildProfile::Debug => true,
            BuildProfile::Release => false,
        }
    }
}

/// Plugins attached to the builder itself, before the setup hook is registered.
pub open spec fn builder_plugins_spec() -> Seq<Plugin> {
    seq![Plugin::Notification]
}

/// Plugins the setup hook attaches: logging at debug verbosity, in debug builds only.
pub open spec fn setup_plugins_spec(profile: BuildProfile) -> Seq<Plugin> {
    match profile {
        BuildProfile::Debug => seq![Plugin::Log(LogLevel::Debug)],
        BuildProfile::Release => Seq::empty(),
    }
}

/// Every plugin the application ends up with, in the order they are attached.
pub open spec fn attached_plugins(profile: BuildProfile) -> Seq<Plugin> {
    builder_plugins_spec() + setup_plugins_spec(profile)
}

pub open spec fn is_log(p: Plugin) -> bool {
    p is Log
}

pub fn builder_plugins() -> (r: Vec<Plugin>)
    ensures
        r@ == builder_plugins_spec(),
{
    let r = vec![Plugin::Notification];
    assert(r@ =~= builder_plugins_spec());
    r
}

pub fn setup_plugins(profile: BuildProfile) -> (r: Vec<Plugin>)
    ensures
        r@ == setup_plugins_spec(profile),
{
    let mut r: Vec<Plugin> = Vec::new();
    if profile.is_debug() {
        r.push(Plugin::Log(LogLevel::Debug));
    }
    assert(r@ =~= setup_plugins_spec(profile));
    r
}

/// In a debug build the logging plugin is attached at debug verbosity; in a
/// release build no logging plugin is attached at all.
pub proof fn lemma_logging_follows_profile(profile: BuildProfile)
    ensures
        profile is Debug ==> attached_plugins(profile).contains(Plugin::Log(LogLevel::Debug)),
        profile is Release ==> forall|i: int|
            0 <= i < attached_plugins(profile).len() ==> !is_log(
                #[trigger] attached_plugins(profile)[i],
            ),
{
    let all = attached_plugins(profile);
    if profile is Debug {
        assert(all[1] == Plugin::Log(LogLevel::Debug));
    } else {
        assert(all =~= seq![Plugin::Notification]);
    }
}

} // verus!
