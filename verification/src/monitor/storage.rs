use crate::esi::EsiSkill;
use crate::monitor::Monitor;
use crate::text::{append_decimal, decimal};
use vstd::prelude::*;
use vstd::string::*;

verus! {

/// What is kept of one character between updates and across restarts.
#[derive(Clone, Debug, PartialEq, Eq)]
pub struct StorageV1 {
    pub refresh_token: String,
    pub expired: bool,
    pub eve_character_id: u64,
    pub eve_character_name: String,
    pub discord_character_id: u64,
    pub discord_guild_id: u64,
    pub discord_channel_id: u64,
    pub discord_activity_thread_id: u64,
    pub skills: Vec<EsiSkill>,
}

/// A `StorageV1` as contracts speak of it.
pub struct StorageV1View {
    pub refresh_token: Seq<char>,
    pub expired: bool,
    pub eve_character_id: u64,
    pub eve_character_name: Seq<char>,
    pub discord_character_id: u64,
    pub discord_guild_id: u64,
    pub discord_channel_id: u64,
    pub discord_activity_thread_id: u64,
    pub skills: Seq<EsiSkill>,
}

impl View for StorageV1 {
    type V = StorageV1View;

    open spec fn view(&self) -> StorageV1View {
        StorageV1View {
            refresh_token: self.refresh_token@,
            expired: self.expired,
            eve_character_id: self.eve_character_id,
            eve_character_name: self.eve_character_name@,
            discord_character_id: self.discord_character_id,
            discord_guild_id: self.discord_guild_id,
            discord_channel_id: self.discord_channel_id,
            discord_activity_thread_id: self.discord_activity_thread_id,
            skills: self.skills@,
        }
    }
}

/// Why a character could not be registered, or its record not be used.
#[derive(Clone, Debug, PartialEq, Eq)]
pub enum MonitorError {
    /// No record is stored for the character.
    CharacterNotFound,
    /// The stored record cannot be read as a record of a known version.
    InvalidStorage,
    /// The stored record is in use: the character is not suspended.
    AlreadyMonitored,
    /// The character is in the rotation.
    ActivelyMonitored,
    /// The access credential does not say whose it is.
    Internal,
    /// The chat platform refused; the text is its own.
    Discord(String),
}

impl MonitorError {
    /// The error in the words shown to the user.
    pub open spec fn spec_message(&self) -> Seq<char> {
        match *self {
            MonitorError::CharacterNotFound => "Character not found."@,
            MonitorError::InvalidStorage => "Invalid storage."@,
            MonitorError::AlreadyMonitored => "This character is already monitored."@,
            MonitorError::ActivelyMonitored => "This character is already actively monitored."@,
            MonitorError::Internal => "Internal error."@,
            MonitorError::Discord(text) => text@,
        }
    }

    pub fn message(&self) -> (text: String)
        ensures
            text@ == self.spec_message(),
    {
        match self {
            MonitorError::CharacterNotFound => String::from_str("Character not found."),
            MonitorError::InvalidStorage => String::from_str("Invalid storage."),
            MonitorError::AlreadyMonitored => String::from_str(
                "This character is already monitored.",
            ),
            MonitorError::ActivelyMonitored => String::from_str(
                "This character is already actively monitored.",
            ),
            MonitorError::Internal => String::from_str("Internal error."),
            MonitorError::Discord(text) => text.clone(),
        }
    }
}

/// Where the record of character `eve_character_id` is stored below
/// `storage_folder`.
pub open spec fn storage_path_of(storage_folder: Seq<char>, eve_character_id: u64) -> Seq<char> {
    storage_folder + "/"@ + storage_file_name_of(eve_character_id)
}

/// The file name of the record of character `eve_character_id`.
pub open spec fn storage_file_name_of(eve_character_id: u64) -> Seq<char> {
    "char-"@ + decimal(eve_character_id as int) + ".json"@
}

/// The file name under which the record of a character is stored.
pub fn storage_file_name(eve_character_id: u64) -> (name: String)
    ensures
        name@ == storage_file_name_of(eve_character_id),
{
    let mut name = String::from_str("char-");
    append_decimal(&mut name, eve_character_id as i128);
    name.append(".json");
    name
}

/// The path of the record of a character.
pub fn storage_path(storage_folder: &str, eve_character_id: u64) -> (path: String)
    ensures
        path@ == storage_path_of(storage_folder@, eve_character_id),
{
    let mut path = String::from_str(storage_folder);
    path.append("/");
    let name = storage_file_name(eve_character_id);
    path.append(name.as_str());
    assert(path@ =~= storage_path_of(storage_folder@, eve_character_id));
    path
}

/// What re-authentication makes of what is stored for a character: a
/// suspended record comes back with the new credential and everything else
/// as it was; a record that is not suspended is in use; and where no
/// record could be read, the reason stands.
pub open spec fn refreshed(
    stored: Result<StorageV1, MonitorError>,
    refresh_token: Seq<char>,
) -> Result<StorageV1View, MonitorError> {
    match stored {
        Ok(stored) => if stored.expired {
            Ok(StorageV1View { refresh_token, expired: false, ..stored@ })
        } else {
            Err(MonitorError::AlreadyMonitored)
        },
        Err(error) => Err(error),
    }
}

impl Monitor {
    /// The record of a character that was never polled: not suspended, and
    /// without skills.
    pub fn create_eve_character(
        refresh_token: String,
        eve_character_id: u64,
        eve_character_name: String,
        discord_character_id: u64,
        discord_guild_id: u64,
        discord_channel_id: u64,
        discord_activity_thread_id: u64,
    ) -> (storage: StorageV1)
        ensures
            storage@ == (StorageV1View {
                refresh_token: refresh_token@,
                expired: false,
                eve_character_id,
                eve_character_name: eve_character_name@,
                discord_character_id,
                discord_guild_id,
                discord_channel_id,
                discord_activity_thread_id,
                skills: Seq::empty(),
            }),
    {
        StorageV1 {
            refresh_token,
            expired: false,
            eve_character_id,
            eve_character_name,
            discord_character_id,
            discord_guild_id,
            discord_channel_id,
            discord_activity_thread_id,
            skills: Vec::new(),
        }
    }

    /// Brings a suspended character back: `stored` is what was read for
    /// it, `refresh_token` its new credential. The record that comes back
    /// names the channel that the character had.
    pub fn refresh_eve_character(
        stored: Result<StorageV1, MonitorError>,
        refresh_token: &String,
    ) -> (storage: Result<StorageV1, MonitorError>)
        ensures
            match storage {
                Ok(storage) => refreshed(stored, refresh_token@) == Ok::<
                    StorageV1View,
                    MonitorError,
                >(storage@),
                Err(error) => refreshed(stored, refresh_token@) == Err::<
                    StorageV1View,
                    MonitorError,
                >(error),
            },
    {
        let stored = stored?;
        if !stored.expired {
            return Err(MonitorError::AlreadyMonitored);
        }
        Ok(StorageV1 { refresh_token: refresh_token.clone(), expired: false, ..stored })
    }
}

} // verus!
