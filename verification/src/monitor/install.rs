use crate::monitor::storage::{refreshed, MonitorError, StorageV1, StorageV1View};
use crate::monitor::{Monitor, MonitorView};
use crate::text::{parse_u64_range, parsed_u64};
use vstd::prelude::*;
use vstd::string::*;

verus! {

/// What an access credential says of its bearer: `sub` names the
/// character, as `CHARACTER:EVE:` and its number; `name` is the
/// character's name.
#[derive(Clone, Debug, PartialEq, Eq)]
pub struct Claims {
    pub sub: String,
    pub name: String,
}

/// What follows the first `:` of `s`, if there is one.
pub open spec fn after_colon(s: Seq<char>) -> Option<Seq<char>> {
    match s.index_of_first(':') {
        Some(i) => Some(s.skip(i + 1)),
        None => None,
    }
}

/// What stands before the first `:` of `s`; all of `s` if it has none.
pub open spec fn before_colon(s: Seq<char>) -> Seq<char> {
    match s.index_of_first(':') {
        Some(i) => s.take(i),
        None => s,
    }
}

/// The third of the fields that the `:` of a subject part it into.
pub open spec fn subject_number(sub: Seq<char>) -> Option<Seq<char>> {
    match after_colon(sub) {
        Some(rest) => match after_colon(rest) {
            Some(rest) => Some(before_colon(rest)),
            None => None,
        },
        None => None,
    }
}

/// The character that a subject names: the number in its third field.
pub open spec fn subject_character_id(sub: Seq<char>) -> Option<u64> {
    match subject_number(sub) {
        Some(number) => parsed_u64(number),
        None => None,
    }
}

/// The place of the first `needle` in `s` at or after `from`.
fn find_char(s: &str, len: usize, from: usize, needle: char) -> (found: Option<usize>)
    requires
        len == s@.len(),
        from <= len,
    ensures
        match found {
            Some(i) => from <= i < len && s@.skip(from as int).index_of_first(needle) == Some(
                i - from,
            ),
            None => s@.skip(from as int).index_of_first(needle) is None,
        },
{
    let ghost rest = s@.skip(from as int);
    let mut i: usize = from;
    while i < len
        invariant
            from <= i <= len,
            len == s@.len(),
            rest == s@.skip(from as int),
            forall|j: int| 0 <= j < i - from ==> rest[j] != needle,
        decreases len - i,
    {
        if s.get_char(i) == needle {
            proof {
                rest.index_of_first_ensures(needle);
                assert(rest[i - from] == needle);
                assert(rest.contains(needle));
            }
            return Some(i);
        }
        i += 1;
    }
    proof {
        rest.index_of_first_ensures(needle);
    }
    None
}

/// The character that the subject of an access credential names.
pub fn character_id_from_subject(sub: &str) -> (eve_character_id: Option<u64>)
    ensures
        eve_character_id == subject_character_id(sub@),
{
    let len = sub.unicode_len();
    assert(sub@.skip(0) =~= sub@);
    match find_char(sub, len, 0, ':') {
        None => None,
        Some(first) => {
            let ghost rest = sub@.skip(first + 1);
            match find_char(sub, len, first + 1, ':') {
                None => None,
                Some(second) => {
                    let start: usize = second + 1;
                    let ghost field = rest.skip(second - first);
                    assert(field =~= sub@.skip(start as int));
                    match find_char(sub, len, start, ':') {
                        Some(third) => {
                            assert(field.take(third - start) =~= sub@.subrange(
                                start as int,
                                third as int,
                            ));
                            parse_u64_range(sub, start, third)
                        },
                        None => {
                            assert(field =~= sub@.subrange(start as int, len as int));
                            parse_u64_range(sub, start, len)
                        },
                    }
                },
            }
        },
    }
}

/// What to do about a registration.
#[derive(Clone, Debug, PartialEq, Eq)]
pub enum Install {
    /// Refuse it, for this reason.
    Rejected(MonitorError),
    /// The character was suspended: store `storage`, which holds the new
    /// credential and names the channel and the thread that the character
    /// had, and bring the character into the rotation. No channel is
    /// made.
    Resume { eve_character_id: u64, storage: StorageV1 },
    /// The character is new: have a channel and a thread made for it, then
    /// store a first record and bring the character into the rotation.
    Create { eve_character_id: u64, eve_character_name: String },
}

/// An `Install` as contracts speak of it.
pub enum InstallView {
    Rejected(MonitorError),
    Resume { eve_character_id: u64, storage: StorageV1View },
    Create { eve_character_id: u64, eve_character_name: Seq<char> },
}

impl View for Install {
    type V = InstallView;

    open spec fn view(&self) -> InstallView {
        match *self {
            Install::Rejected(error) => InstallView::Rejected(error),
            Install::Resume { eve_character_id, storage } => InstallView::Resume {
                eve_character_id,
                storage: storage@,
            },
            Install::Create { eve_character_id, eve_character_name } => InstallView::Create {
                eve_character_id,
                eve_character_name: eve_character_name@,
            },
        }
    }
}

/// The claims that contracts speak of: the subject and the name.
pub struct ClaimsView {
    pub sub: Seq<char>,
    pub name: Seq<char>,
}

impl View for Claims {
    type V = ClaimsView;

    open spec fn view(&self) -> ClaimsView {
        ClaimsView { sub: self.sub@, name: self.name@ }
    }
}

/// What to do about a registration with the claims `claims` (`None` where
/// the access credential could not be read), given the rotation, what is
/// stored for the character and its new credential. A credential that
/// names no character is refused, and so is a character in the rotation.
/// A suspended record is taken up again; in every other case the
/// character is set up anew.
pub open spec fn install_decision(
    monitor: MonitorView,
    claims: Option<ClaimsView>,
    stored: Result<StorageV1, MonitorError>,
    refresh_token: Seq<char>,
) -> InstallView {
    match claims {
        None => InstallView::Rejected(MonitorError::Internal),
        Some(claims) => match subject_character_id(claims.sub) {
            None => InstallView::Rejected(MonitorError::Internal),
            Some(eve_character_id) => if monitor.has(eve_character_id) {
                InstallView::Rejected(MonitorError::ActivelyMonitored)
            } else {
                match refreshed(stored, refresh_token) {
                    Ok(storage) => InstallView::Resume { eve_character_id, storage },
                    Err(_) => InstallView::Create {
                        eve_character_id,
                        eve_character_name: claims.name,
                    },
                }
            },
        },
    }
}

/// The view of `claims`, if there are any.
pub open spec fn claims_view(claims: Option<&Claims>) -> Option<ClaimsView> {
    match claims {
        Some(claims) => Some(claims@),
        None => None,
    }
}

/// The message that stands in a new channel until the first update.
pub fn update_pending_message() -> (text: &'static str)
    ensures
        text@ == "Update pending ..."@,
{
    "Update pending ..."
}

impl Monitor {
    /// Whether `eve_character_id` is in the rotation.
    pub fn has_eve_character(&self, eve_character_id: u64) -> (has: bool)
        ensures
            has == self@.has(eve_character_id),
    {
        let mut i: usize = 0;
        while i < self.eve_character_list.len()
            invariant
                i <= self.eve_character_list.len(),
                forall|j: int| 0 <= j < i ==> self.eve_character_list@[j].id != eve_character_id,
            decreases self.eve_character_list.len() - i,
        {
            if self.eve_character_list[i].id == eve_character_id {
                assert(self@.characters[i as int].id == eve_character_id);
                return true;
            }
            i += 1;
        }
        false
    }

    /// Decides what to do about a registration. `claims` is what the
    /// access credential says, `None` if it could not be read; `stored` is
    /// what was read of the record of the character that `claims` names;
    /// `refresh_token` is the new credential.
    pub fn install(
        &self,
        claims: Option<&Claims>,
        stored: Result<StorageV1, MonitorError>,
        refresh_token: &String,
    ) -> (install: Install)
        ensures
            install@ == install_decision(self@, claims_view(claims), stored, refresh_token@),
    {
        let claims = match claims {
            Some(claims) => claims,
            None => {
                return Install::Rejected(MonitorError::Internal);
            },
        };
        let eve_character_id = match character_id_from_subject(claims.sub.as_str()) {
            Some(eve_character_id) => eve_character_id,
            None => {
                return Install::Rejected(MonitorError::Internal);
            },
        };
        if self.has_eve_character(eve_character_id) {
            return Install::Rejected(MonitorError::ActivelyMonitored);
        }
        match Monitor::refresh_eve_character(stored, refresh_token) {
            Ok(storage) => Install::Resume { eve_character_id, storage },
            Err(_) => Install::Create {
                eve_character_id,
                eve_character_name: claims.name.clone(),
            },
        }
    }
}

/// A character in the rotation is not registered again.
pub proof fn lemma_duplicate_registration(
    monitor: MonitorView,
    claims: ClaimsView,
    stored: Result<StorageV1, MonitorError>,
    refresh_token: Seq<char>,
)
    requires
        subject_character_id(claims.sub) matches Some(eve_character_id) && monitor.has(
            eve_character_id,
        ),
    ensures
        install_decision(monitor, Some(claims), stored, refresh_token) == InstallView::Rejected(
            MonitorError::ActivelyMonitored,
        ),
{
}

/// A suspended character that registers again gets its record back: no
/// longer suspended, with the new credential, and with the channel, the
/// thread and everything else that the record held. No channel is made.
pub proof fn lemma_resurrection(
    monitor: MonitorView,
    claims: ClaimsView,
    stored: StorageV1,
    refresh_token: Seq<char>,
)
    requires
        subject_character_id(claims.sub) matches Some(eve_character_id) && !monitor.has(
            eve_character_id,
        ),
        stored.expired,
    ensures
        install_decision(monitor, Some(claims), Ok(stored), refresh_token) == (InstallView::Resume {
            eve_character_id: subject_character_id(claims.sub)->0,
            storage: StorageV1View { refresh_token, expired: false, ..stored@ },
        }),
{
}

/// A character that is neither in the rotation nor suspended is set up
/// anew, whatever is stored for it.
pub proof fn lemma_new_registration(
    monitor: MonitorView,
    claims: ClaimsView,
    stored: Result<StorageV1, MonitorError>,
    refresh_token: Seq<char>,
)
    requires
        subject_character_id(claims.sub) matches Some(eve_character_id) && !monitor.has(
            eve_character_id,
        ),
        stored matches Ok(stored) ==> !stored.expired,
    ensures
        install_decision(monitor, Some(claims), stored, refresh_token) == (InstallView::Create {
            eve_character_id: subject_character_id(claims.sub)->0,
            eve_character_name: claims.name,
        }),
{
}

} // verus!
