//! Startup configuration: which settings the process needs before it serves.

use vstd::prelude::*;
use vstd::string::StringExecFns;

verus! {

/// A required setting that the environment does not give.
#[derive(Debug, Clone, Copy, PartialEq, Eq, Structural)]
pub enum ConfigError {
    MissingApiEndpoint,
    MissingProjectId,
    MissingLocationId,
}

impl ConfigError {
    /// The name of the environment variable that is missing.
    pub fn variable(&self) -> (name: &'static str)
        ensures
            name@ == match *self {
                ConfigError::MissingApiEndpoint => "API_ENDPOINT"@,
                ConfigError::MissingProjectId => "PROJECT_ID"@,
                ConfigError::MissingLocationId => "LOCATION_ID"@,
            },
    {
        match self {
            ConfigError::MissingApiEndpoint => "API_ENDPOINT",
            ConfigError::MissingProjectId => "PROJECT_ID",
            ConfigError::MissingLocationId => "LOCATION_ID",
        }
    }
}

/// The settings of a running process.
#[derive(Debug, PartialEq, Eq)]
pub struct Settings {
    pub api_endpoint: String,
    pub project_id: String,
    pub location_id: String,
    pub bind_address: String,
}

/// What the settings say, as mathematical text.
pub ghost struct SettingsView {
    pub api_endpoint: Seq<char>,
    pub project_id: Seq<char>,
    pub location_id: Seq<char>,
    pub bind_address: Seq<char>,
}

impl View for Settings {
    type V = SettingsView;

    open spec fn view(&self) -> SettingsView {
        SettingsView {
            api_endpoint: self.api_endpoint@,
            project_id: self.project_id@,
            location_id: self.location_id@,
            bind_address: self.bind_address@,
        }
    }
}

/// The address the server listens on where none is configured.
pub open spec fn default_bind_address() -> Seq<char> {
    "127.0.0.1:8080"@
}

/// The settings that four environment values give. The three required ones
/// are looked at in the order endpoint, project, location, and the first that
/// is absent is the error; an absent bind address is the default one.
pub open spec fn startup_settings(
    api_endpoint: Option<String>,
    project_id: Option<String>,
    location_id: Option<String>,
    bind_address: Option<String>,
) -> Result<SettingsView, ConfigError> {
    if api_endpoint is None {
        Err(ConfigError::MissingApiEndpoint)
    } else if project_id is None {
        Err(ConfigError::MissingProjectId)
    } else if location_id is None {
        Err(ConfigError::MissingLocationId)
    } else {
        Ok(
            SettingsView {
                api_endpoint: api_endpoint->Some_0@,
                project_id: project_id->Some_0@,
                location_id: location_id->Some_0@,
                bind_address: match bind_address {
                    Some(address) => address@,
                    None => default_bind_address(),
                },
            },
        )
    }
}

impl Settings {
    /// Builds the settings from the four environment values, each `None`
    /// where the environment does not hold it.
    pub fn from_environment(
        api_endpoint: Option<String>,
        project_id: Option<String>,
        location_id: Option<String>,
        bind_address: Option<String>,
    ) -> (settings: Result<Settings, ConfigError>)
        ensures
            match startup_settings(api_endpoint, project_id, location_id, bind_address) {
                Ok(expected) => settings is Ok && settings->Ok_0@ == expected,
                Err(error) => settings == Err::<Settings, ConfigError>(error),
            },
    {
        let api_endpoint = match api_endpoint {
            Some(text) => text,
            None => { return Err(ConfigError::MissingApiEndpoint); },
        };
        let project_id = match project_id {
            Some(text) => text,
            None => { return Err(ConfigError::MissingProjectId); },
        };
        let location_id = match location_id {
            Some(text) => text,
            None => { return Err(ConfigError::MissingLocationId); },
        };
        let bind_address = match bind_address {
            Some(text) => text,
            None => String::from_str("127.0.0.1:8080"),
        };
        Ok(Settings { api_endpoint, project_id, location_id, bind_address })
    }
}

} // verus!
