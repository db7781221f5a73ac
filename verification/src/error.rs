//! What can go wrong between the configuration and a decoded response.

use vstd::prelude::*;

verus! {

/// A value that the dashboard needs from its environment.
#[derive(Debug, Clone, Copy, PartialEq, Eq, Structural)]
pub enum Setting {
    SpaceId,
    ApiKey,
    ProjectId,
    StatusIdList,
}

/// The failures that a caller has to tell apart.
///
/// At start-up each of them ends the program. While the operator moves
/// through the list, a failed fetch of comments only leaves the issue without
/// comments.
#[derive(Debug, Clone, Copy, PartialEq, Eq, Structural)]
pub enum Error {
    /// A required setting is absent.
    Config(Setting),
    /// The request did not reach the server or no response came back.
    Transport,
    /// The response does not have the expected shape.
    Decode,
}

impl Setting {
    /// The name of the environment variable that holds the setting.
    pub open spec fn key(self) -> Seq<char> {
        match self {
            Setting::SpaceId => "BACKLOG_SPACE_ID"@,
            Setting::ApiKey => "BACKLOG_API_KEY"@,
            Setting::ProjectId => "BACKLOG_PROJECT_ID"@,
            Setting::StatusIdList => "BACKLOG_STATUS_ID_LIST"@,
        }
    }

    /// The name of the environment variable that holds the setting.
    pub fn name(self) -> (name: &'static str)
        ensures
            name@ == self.key(),
    {
        match self {
            Setting::SpaceId => "BACKLOG_SPACE_ID",
            Setting::ApiKey => "BACKLOG_API_KEY",
            Setting::ProjectId => "BACKLOG_PROJECT_ID",
            Setting::StatusIdList => "BACKLOG_STATUS_ID_LIST",
        }
    }
}

} // verus!
