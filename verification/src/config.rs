//! The settings of one run, collected once at start-up.

use crate::error::{Error, Setting};
use vstd::prelude::*;

verus! {

/// The four settings that the dashboard cannot work without.
#[derive(Debug, Clone, PartialEq, Eq)]
pub struct Config {
    /// The name of the Backlog space, the first label of its host name.
    pub space_id: String,
    /// The shared secret that every request carries.
    pub api_key: String,
    /// The project whose issues are listed.
    pub project_id: String,
    /// The statuses to list, as ids separated by commas.
    pub status_id_list: String,
}

/// The first of the four settings that is absent, in the order in which they
/// are asked for. Each argument says whether that setting is present.
pub open spec fn first_missing(
    space_id: bool,
    api_key: bool,
    project_id: bool,
    status_id_list: bool,
) -> Option<Setting> {
    if !space_id {
        Some(Setting::SpaceId)
    } else if !api_key {
        Some(Setting::ApiKey)
    } else if !project_id {
        Some(Setting::ProjectId)
    } else if !status_id_list {
        Some(Setting::StatusIdList)
    } else {
        None
    }
}

impl Config {
    /// Collects the settings as the environment holds them, `None` standing
    /// for a variable that is not set. Fails with the first one that is
    /// absent.
    pub fn from_settings(
        space_id: Option<String>,
        api_key: Option<String>,
        project_id: Option<String>,
        status_id_list: Option<String>,
    ) -> (config: Result<Config, Error>)
        ensures
            match config {
                Ok(c) => {
                    &&& space_id == Some(c.space_id)
                    &&& api_key == Some(c.api_key)
                    &&& project_id == Some(c.project_id)
                    &&& status_id_list == Some(c.status_id_list)
                },
                Err(e) => match first_missing(
                    space_id is Some,
                    api_key is Some,
                    project_id is Some,
                    status_id_list is Some,
                ) {
                    Some(setting) => e == Error::Config(setting),
                    None => false,
                },
            },
    {
        let space_id = match space_id {
            Some(value) => value,
            None => return Err(Error::Config(Setting::SpaceId)),
        };
        let api_key = match api_key {
            Some(value) => value,
            None => return Err(Error::Config(Setting::ApiKey)),
        };
        let project_id = match project_id {
            Some(value) => value,
            None => return Err(Error::Config(Setting::ProjectId)),
        };
        let status_id_list = match status_id_list {
            Some(value) => value,
            None => return Err(Error::Config(Setting::StatusIdList)),
        };
        Ok(Config { space_id, api_key, project_id, status_id_list })
    }
}

} // verus!
