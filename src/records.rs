//! The records that the application keeps about installed mods and profiles.
use vstd::prelude::*;

verus! {

/// Declares `serde_json::Value`, so that a record can carry a JSON value
/// through unchanged; nothing here looks inside one.
#[verifier::external_type_specification]
#[verifier::external_body]
pub struct ExJsonValue(serde_json::Value);

/// A mod that has been installed.
#[derive(Clone, Debug)]
pub struct InstalledModRecord {
    pub id: Option<i64>,
    pub provider: String,
    pub project_id: Option<i64>,
    pub resource_id: Option<String>,
    pub slug: String,
    pub name: String,
    pub installed_file_id: Option<serde_json::Value>,
    pub installed_filename: String,
    pub installed_at: String,
    pub source_url: Option<String>,
    pub enabled: bool,
    pub pinned: bool,
}

/// A named set of enabled mods.
#[derive(Clone, Debug)]
pub struct ProfileRecord {
    pub id: i64,
    pub name: String,
    pub created_at: String,
    pub enabled_mod_ids: Vec<i64>,
}

/// All profiles, the next free profile id and the active profile.
#[derive(Clone, Debug)]
pub struct ProfilesData {
    pub next_id: i64,
    pub active_profile_id: Option<i64>,
    pub profiles: Vec<ProfileRecord>,
}

impl ProfilesData {
    /// What a store without profiles holds: no profile, none active, ids from 1.
    pub fn empty() -> (r: ProfilesData)
        ensures
            r.next_id == 1,
            r.active_profile_id is None,
            r.profiles@.len() == 0,
    {
        ProfilesData { next_id: 1, active_profile_id: None, profiles: Vec::new() }
    }
}

} // verus!
