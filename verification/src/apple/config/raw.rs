//! The Apple table of the configuration file, and how it is filled in
//! where the file has none.

use crate::decimal::parse_u32;
use vstd::prelude::*;
use vstd::string::*;

verus! {

/// Why no development team could be found by itself.
#[derive(Debug)]
pub enum DetectError {
    /// The teams could not be looked up; the text says why.
    DeveloperTeamLookupFailed(String),
    DeveloperTeamsEmpty,
}

impl DetectError {
    /// The sentence that describes the error.
    pub open spec fn message(&self) -> Seq<char> {
        match self {
            DetectError::DeveloperTeamLookupFailed(err) => {
                "Failed to find Apple developer teams: "@ + err@
            },
            DetectError::DeveloperTeamsEmpty => "No Apple developer teams were detected."@,
        }
    }

    pub fn to_string(&self) -> (r: String)
        ensures
            r@ == self.message(),
    {
        match self {
            DetectError::DeveloperTeamLookupFailed(err) => {
                "Failed to find Apple developer teams: ".to_owned().concat(err.as_str())
            },
            DetectError::DeveloperTeamsEmpty => {
                "No Apple developer teams were detected.".to_owned()
            },
        }
    }
}

/// Why the user could not be asked for a development team.
#[derive(Debug)]
pub enum PromptError {
    DeveloperTeamLookupFailed(String),
    DeveloperTeamPromptFailed(String),
}

impl PromptError {
    /// The sentence that describes the error.
    pub open spec fn message(&self) -> Seq<char> {
        match self {
            PromptError::DeveloperTeamLookupFailed(err) => {
                "Failed to find Apple developer teams: "@ + err@
            },
            PromptError::DeveloperTeamPromptFailed(err) => {
                "Failed to prompt for Apple developer team: "@ + err@
            },
        }
    }

    pub fn to_string(&self) -> (r: String)
        ensures
            r@ == self.message(),
    {
        match self {
            PromptError::DeveloperTeamLookupFailed(err) => {
                "Failed to find Apple developer teams: ".to_owned().concat(err.as_str())
            },
            PromptError::DeveloperTeamPromptFailed(err) => {
                "Failed to prompt for Apple developer team: ".to_owned().concat(err.as_str())
            },
        }
    }
}

/// A development team that the keychain knows.
#[derive(Debug)]
pub struct Team {
    pub name: String,
    pub id: String,
}

/// The Apple table as it is written.
#[derive(Debug)]
pub struct Raw {
    pub development_team: String,
    pub project_dir: Option<String>,
    pub bundle_version: Option<String>,
    pub bundle_version_short: Option<String>,
}

/// The team that an answer names: the team with that number in the list,
/// where the answer is a number and the list is that long; else the
/// answer itself, taken as the identifier of a team.
pub open spec fn team_of_answer(answer: Seq<char>, teams: Seq<Team>) -> Seq<char> {
    match parse_u32(answer) {
        Ok(index) => if index < teams.len() {
            teams[index as int].id@
        } else {
            answer
        },
        Err(_) => answer,
    }
}

impl Raw {
    /// The table with the first of `development_teams`, the teams that
    /// were found, and nothing else set.
    pub fn detect(development_teams: Result<Vec<Team>, String>) -> (r: Result<Self, DetectError>)
        ensures
            match development_teams {
                Err(cause) => r matches Err(DetectError::DeveloperTeamLookupFailed(c)) && c == cause,
                Ok(teams) => if teams.len() == 0 {
                    r matches Err(DetectError::DeveloperTeamsEmpty)
                } else {
                    r matches Ok(raw) && raw.development_team@ == teams[0].id@
                        && raw.project_dir is None && raw.bundle_version is None
                        && raw.bundle_version_short is None
                },
            },
    {
        let teams = match development_teams {
            Ok(teams) => teams,
            Err(cause) => {
                return Err(DetectError::DeveloperTeamLookupFailed(cause));
            },
        };
        if teams.len() == 0 {
            return Err(DetectError::DeveloperTeamsEmpty);
        }
        Ok(
            Self {
                development_team: teams[0].id.clone(),
                project_dir: None,
                bundle_version: None,
                bundle_version_short: None,
            },
        )
    }

    /// The answer that the prompt offers: the number of the only team,
    /// where there is just one.
    pub fn default_team(development_teams: &Vec<Team>) -> (r: Option<&'static str>)
        ensures
            match r {
                Some(answer) => development_teams.len() == 1 && answer@ == "0"@,
                None => development_teams.len() != 1,
            },
    {
        if development_teams.len() == 1 {
            Some("0")
        } else {
            None
        }
    }

    /// The team that the user's answer `team_input` names. No team is
    /// named by an empty answer; the program then asks again.
    pub fn team_from_input(team_input: String, development_teams: &Vec<Team>) -> (r: Option<
        String,
    >)
        ensures
            ({
                let team = team_of_answer(team_input@, development_teams@);
                if team.len() == 0 {
                    r is None
                } else {
                    r matches Some(id) && id@ == team
                }
            }),
    {
        let team_id = match crate::decimal::parse_u32_str(team_input.as_str()) {
            Ok(index) => if (index as usize) < development_teams.len() {
                development_teams[index as usize].id.clone()
            } else {
                team_input
            },
            Err(_) => team_input,
        };
        if !team_id.as_str().is_empty() {
            Some(team_id)
        } else {
            None
        }
    }

    /// The table that a prompt has filled in with the team `team`.
    pub fn prompt(development_team: String) -> (r: Self)
        ensures
            r.development_team == development_team,
            r.project_dir is None,
            r.bundle_version is None,
            r.bundle_version_short is None,
    {
        Self {
            development_team,
            project_dir: None,
            bundle_version: None,
            bundle_version_short: None,
        }
    }
}

} // verus!
