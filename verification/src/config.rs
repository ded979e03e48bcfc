//! The tool's configuration: where the native build units and the
//! platform sources live, relative to a root directory. Loading and
//! saving the configuration file is left to the program around the
//! library; this module holds the value and its defaults.

use vstd::prelude::*;

verus! {

/// The name of the configuration file sought from the working
/// directory upward.
pub fn config_file_name() -> (r: &'static str)
    ensures
        r@ == "ruaconf.toml"@,
{
    "ruaconf.toml"
}

/// The entry directory assumed for native build units when the
/// configuration does not name one.
pub fn default_native_entry() -> (r: &'static str)
    ensures
        r@ == "native"@,
{
    "native"
}

/// The entry directory assumed for platform sources when the
/// configuration does not name one.
pub fn default_platform_entry() -> (r: &'static str)
    ensures
        r@ == "lib"@,
{
    "lib"
}

/// The mathematical view of a [`RuaConfig`].
pub struct RuaConfigV {
    pub root_dir: Seq<char>,
    pub native_entry: Option<Seq<char>>,
    pub platform_entry: Option<Seq<char>>,
}

/// The configured entries, as read from the configuration file.
#[derive(Debug, Clone, PartialEq, Eq)]
struct RuaConfigData {
    native_entry: Option<String>,
    platform_entry: Option<String>,
}

/// The tool's configuration: the directory its configuration file
/// was found in, and the configured entries.
#[derive(Debug, Clone, PartialEq, Eq)]
pub struct RuaConfig {
    root_dir: String,
    data: RuaConfigData,
}

impl View for RuaConfig {
    type V = RuaConfigV;

    closed spec fn view(&self) -> RuaConfigV {
        RuaConfigV {
            root_dir: self.root_dir@,
            native_entry: self.data.native_entry.deep_view(),
            platform_entry: self.data.platform_entry.deep_view(),
        }
    }
}

/// The native entry a configuration names, or the default.
pub open spec fn spec_native_entry(c: RuaConfigV) -> Seq<char> {
    match c.native_entry {
        Some(s) => s,
        None => "native"@,
    }
}

/// The platform entry a configuration names, or the default.
pub open spec fn spec_platform_entry(c: RuaConfigV) -> Seq<char> {
    match c.platform_entry {
        Some(s) => s,
        None => "lib"@,
    }
}

impl Default for RuaConfig {
    /// An empty configuration: no root directory and no configured
    /// entries, so both entries report their defaults.
    fn default() -> (r: Self)
        ensures
            r@.root_dir.len() == 0,
            r@.native_entry is None,
            r@.platform_entry is None,
    {
        RuaConfig {
            root_dir: String::new(),
            data: RuaConfigData { native_entry: None, platform_entry: None },
        }
    }
}

impl RuaConfig {
    /// Builds a configuration from its root directory and the two
    /// configured entries.
    pub fn new(
        root_dir: String,
        native_entry: Option<String>,
        platform_entry: Option<String>,
    ) -> (r: Self)
        ensures
            r@ == (RuaConfigV {
                root_dir: root_dir@,
                native_entry: native_entry.deep_view(),
                platform_entry: platform_entry.deep_view(),
            }),
    {
        RuaConfig { root_dir, data: RuaConfigData { native_entry, platform_entry } }
    }

    /// The directory the configuration was found in.
    pub fn root_dir(&self) -> (r: &str)
        ensures
            r@ == self@.root_dir,
    {
        self.root_dir.as_str()
    }

    /// The configured native entry as stored, without its default.
    pub fn native_entry(&self) -> (r: &Option<String>)
        ensures
            r.deep_view() == self@.native_entry,
    {
        &self.data.native_entry
    }

    /// The configured platform entry as stored, without its default.
    pub fn platform_entry(&self) -> (r: &Option<String>)
        ensures
            r.deep_view() == self@.platform_entry,
    {
        &self.data.platform_entry
    }

    /// The configured native entry, or its default.
    pub fn get_native_entry(&self) -> (r: &str)
        ensures
            r@ == spec_native_entry(self@),
    {
        match &self.data.native_entry {
            Some(s) => s.as_str(),
            None => "native",
        }
    }

    /// The configured platform entry, or its default.
    pub fn get_platform_entry(&self) -> (r: &str)
        ensures
            r@ == spec_platform_entry(self@),
    {
        match &self.data.platform_entry {
            Some(s) => s.as_str(),
            None => "lib",
        }
    }

    /// Sets the native entry.
    pub fn set_native_entry(&mut self, entry: &str)
        ensures
            final(self)@ == (RuaConfigV { native_entry: Some(entry@), ..old(self)@ }),
    {
        self.data.native_entry = Some(entry.to_owned());
    }

    /// Sets the platform entry.
    pub fn set_platform_entry(&mut self, entry: &str)
        ensures
            final(self)@ == (RuaConfigV { platform_entry: Some(entry@), ..old(self)@ }),
    {
        self.data.platform_entry = Some(entry.to_owned());
    }
}

} // verus!
