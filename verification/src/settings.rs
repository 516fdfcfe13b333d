//! The persisted settings of Companion: the tosu port, the chosen tosu
//! executable and whether tosu is started automatically.
use vstd::prelude::*;

use crate::tosu::config::{TosuEndpoint, DEFAULT_TOSU_PORT};

verus! {

/// The settings as they are stored on disk.
#[derive(Clone, Debug, PartialEq, Eq)]
pub struct StoredSettings {
    pub tosu_port: u16,
    pub tosu_executable: Option<String>,
    pub tosu_auto_start: bool,
}

impl Default for StoredSettings {
    /// The settings of a fresh installation, which also fill in what older
    /// settings files lack: the default port, no executable, automatic start.
    fn default() -> (r: Self)
        ensures
            r.tosu_port == DEFAULT_TOSU_PORT,
            r.tosu_executable is None,
            r.tosu_auto_start,
    {
        StoredSettings { tosu_port: DEFAULT_TOSU_PORT, tosu_executable: None, tosu_auto_start: true }
    }
}

/// The settings of Companion and the file they are saved to.
#[derive(Clone, Debug)]
pub struct AppSettings {
    path: String,
    values: StoredSettings,
}

impl AppSettings {
    /// The settings file.
    pub closed spec fn spec_path(&self) -> Seq<char> {
        self.path@
    }

    /// The current values.
    pub closed spec fn spec_values(&self) -> StoredSettings {
        self.values
    }

    /// The settings read from the file at `path`: a stored port of zero,
    /// which no service listens on, is replaced by the default port.
    pub fn from_stored(path: String, values: StoredSettings) -> (r: Self)
        ensures
            r.spec_path() == path@,
            r.spec_values() == (StoredSettings {
                tosu_port: if values.tosu_port == 0 {
                    DEFAULT_TOSU_PORT
                } else {
                    values.tosu_port
                },
                ..values
            }),
    {
        let mut values = values;
        if values.tosu_port == 0 {
            values.tosu_port = DEFAULT_TOSU_PORT;
        }
        AppSettings { path, values }
    }

    /// The port of the tosu endpoint.
    pub open spec fn endpoint_port(&self) -> u16 {
        if self.spec_values().tosu_port == 0 {
            DEFAULT_TOSU_PORT
        } else {
            self.spec_values().tosu_port
        }
    }

    /// The settings file.
    pub fn path(&self) -> (r: &str)
        ensures
            r@ == self.spec_path(),
    {
        self.path.as_str()
    }

    /// The values to save.
    pub fn values(&self) -> (r: &StoredSettings)
        ensures
            *r == self.spec_values(),
    {
        &self.values
    }

    /// The tosu endpoint on the configured port.
    pub fn endpoint(&self) -> (r: TosuEndpoint)
        ensures
            r.spec_port() == self.endpoint_port(),
    {
        TosuEndpoint::new(self.values.tosu_port)
    }

    /// The tosu executable chosen by the user, if any.
    pub fn executable(&self) -> (r: Option<String>)
        ensures
            r == self.spec_values().tosu_executable,
    {
        self.values.tosu_executable.clone()
    }

    /// Whether tosu is started automatically.
    pub fn tosu_auto_start(&self) -> (r: bool)
        ensures
            r == self.spec_values().tosu_auto_start,
    {
        self.values.tosu_auto_start
    }

    /// Chooses the tosu executable (or none); the caller saves the settings.
    pub fn set_executable(&mut self, executable: Option<String>)
        ensures
            final(self).spec_path() == old(self).spec_path(),
            final(self).spec_values() == (StoredSettings {
                tosu_executable: executable,
                ..old(self).spec_values()
            }),
    {
        self.values.tosu_executable = executable;
    }

    /// Turns the automatic start of tosu on or off; the caller saves the
    /// settings.
    pub fn set_tosu_auto_start(&mut self, enabled: bool)
        ensures
            final(self).spec_path() == old(self).spec_path(),
            final(self).spec_values() == (StoredSettings {
                tosu_auto_start: enabled,
                ..old(self).spec_values()
            }),
    {
        self.values.tosu_auto_start = enabled;
    }
}

} // verus!
