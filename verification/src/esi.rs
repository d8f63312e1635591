use crate::text::{append_decimal, decimal};
use oauth2::basic::BasicClient;
use oauth2::{AuthUrl, ClientId, CsrfToken, RedirectUrl, Scope};
use std::collections::HashMap;
use vstd::prelude::*;
use vstd::string::*;

verus! {

broadcast use vstd::std_specs::hash::group_hash_axioms;

/// One skill of a character as the progress source reports it.
#[derive(Clone, Copy, Debug, PartialEq, Eq, Structural)]
pub struct EsiSkill {
    pub skill_id: i32,
    pub skillpoints_in_skill: i32,
    pub trained_skill_level: i32,
    pub active_skill_level: i32,
}

/// The skills of a character at one point in time.
#[derive(Clone, Debug, PartialEq, Eq)]
pub struct EsiSkills {
    pub skills: Vec<EsiSkill>,
    pub total_sp: i64,
    pub unallocated_sp: i32,
}

/// One entry of a training queue. Dates are whole seconds since the Unix
/// epoch; an entry without a finish date is stalled.
#[derive(Clone, Copy, Debug, PartialEq, Eq, Structural)]
pub struct EsiSkillQueueItem {
    pub finish_date: Option<i64>,
    pub finished_level: i32,
    pub level_end_sp: i32,
    pub level_start_sp: i32,
    pub queue_position: i32,
    pub skill_id: i32,
    pub start_date: Option<i64>,
    pub training_start_sp: i32,
}

/// A training queue, ordered by queue position.
#[derive(Clone, Debug, PartialEq, Eq)]
pub struct EsiSkillQueue(pub Vec<EsiSkillQueueItem>);

/// Position of the first record for `skill_id` in `skills`, if there is one.
pub open spec fn skill_position(skills: Seq<EsiSkill>, skill_id: i32) -> Option<int>
    decreases skills.len(),
{
    if skills.len() == 0 {
        None
    } else if skills[0].skill_id == skill_id {
        Some(0)
    } else {
        match skill_position(skills.drop_first(), skill_id) {
            Some(i) => Some(i + 1),
            None => None,
        }
    }
}

/// `skill_position` names the least index that holds `skill_id`, and is
/// `None` exactly when no record holds it.
pub proof fn lemma_skill_position(skills: Seq<EsiSkill>, skill_id: i32)
    ensures
        match skill_position(skills, skill_id) {
            Some(i) => {
                &&& 0 <= i < skills.len()
                &&& skills[i].skill_id == skill_id
                &&& forall|j: int| 0 <= j < i ==> skills[j].skill_id != skill_id
            },
            None => forall|j: int| 0 <= j < skills.len() ==> skills[j].skill_id != skill_id,
        },
    decreases skills.len(),
{
    if skills.len() > 0 && skills[0].skill_id != skill_id {
        let rest = skills.drop_first();
        lemma_skill_position(rest, skill_id);
        match skill_position(rest, skill_id) {
            Some(i) => {
                assert forall|j: int| 0 <= j < i + 1 implies skills[j].skill_id != skill_id by {
                    if j > 0 {
                        assert(skills[j] == rest[j - 1]);
                    }
                }
            },
            None => {
                assert forall|j: int| 0 <= j < skills.len() implies skills[j].skill_id
                    != skill_id by {
                    if j > 0 {
                        assert(skills[j] == rest[j - 1]);
                    }
                }
            },
        }
    }
}

/// The first record for `skill_id` in `skills`.
pub fn find_skill(skills: &Vec<EsiSkill>, skill_id: i32) -> (found: Option<usize>)
    ensures
        match found {
            Some(i) => i < skills.len() && skill_position(skills@, skill_id) == Some(i as int),
            None => skill_position(skills@, skill_id) is None,
        },
{
    let mut i: usize = 0;
    while i < skills.len()
        invariant
            i <= skills.len(),
            forall|j: int| 0 <= j < i ==> skills@[j].skill_id != skill_id,
        decreases skills.len() - i,
    {
        if skills[i].skill_id == skill_id {
            proof {
                lemma_skill_position(skills@, skill_id);
            }
            return Some(i);
        }
        i += 1;
    }
    proof {
        lemma_skill_position(skills@, skill_id);
    }
    None
}

/// The login address that the `oauth2` crate builds for a client
/// `client_id` of the authorization server at `auth_url`, with the address
/// `redirect_url` to come back to, the two scopes asked for and the value
/// `state` to hand through; `None` where it takes `auth_url` or
/// `redirect_url` for no address.
pub uninterp spec fn authorization_url(
    auth_url: Seq<char>,
    client_id: Seq<char>,
    redirect_url: Seq<char>,
    first_scope: Seq<char>,
    second_scope: Seq<char>,
    state: Seq<char>,
) -> Option<Seq<char>>;

/// `oauth2::Client::authorize_url`, `AuthorizationRequest::add_scope` twice
/// and `AuthorizationRequest::url`, on a client made by
/// `oauth2::basic::BasicClient::new` and `set_redirect_uri`. The address
/// that comes out depends on the six arguments alone and is named
/// `authorization_url`; `None` is what `AuthUrl::new` or
/// `RedirectUrl::new` refused.
#[verifier::external_body]
fn oauth_authorize_url(
    auth_url: &str,
    client_id: &str,
    redirect_url: &str,
    first_scope: &str,
    second_scope: &str,
    state: String,
) -> (url: Option<String>)
    ensures
        match url {
            Some(url) => authorization_url(
                auth_url@,
                client_id@,
                redirect_url@,
                first_scope@,
                second_scope@,
                state@,
            ) == Some(url@),
            None => authorization_url(
                auth_url@,
                client_id@,
                redirect_url@,
                first_scope@,
                second_scope@,
                state@,
            ) is None,
        },
{
    let auth = AuthUrl::new(auth_url.to_string()).ok()?;
    let redirect = RedirectUrl::new(redirect_url.to_string()).ok()?;
    let client = BasicClient::new(ClientId::new(client_id.to_string()), None, auth, None)
        .set_redirect_uri(redirect);
    let state = CsrfToken::new(state);
    let request = client
        .authorize_url(|| state)
        .add_scope(Scope::new(first_scope.to_string()))
        .add_scope(Scope::new(second_scope.to_string()));
    Some(request.url().0.to_string())
}

/// The address to which the authorization server sends a user back.
pub open spec fn redirect_url_of(webserver_url: Seq<char>) -> Seq<char> {
    webserver_url + "/callback"@
}

/// The address at which a user logs in to register a character: that of
/// the authorization server, asking for leave to read skills and skill
/// queue.
pub open spec fn login_url(
    client_id: Seq<char>,
    webserver_url: Seq<char>,
    state: Seq<char>,
) -> Option<Seq<char>> {
    authorization_url(
        "https://login.eveonline.com/v2/oauth/authorize"@,
        client_id,
        redirect_url_of(webserver_url),
        "esi-skills.read_skills.v1"@,
        "esi-skills.read_skillqueue.v1"@,
        state,
    )
}

/// What this side knows of the progress source: who it is to the
/// authorization server, where its own web server is reached, and the
/// display name of every skill that was resolved once. Skill names never
/// change, so none is ever forgotten.
pub struct Esi {
    client_id: String,
    webserver_url: String,
    skill_name_cache: HashMap<i32, String>,
}

impl Esi {
    /// The name under which the authorization server knows this side.
    pub closed spec fn client_id(&self) -> Seq<char> {
        self.client_id@
    }

    /// The address of this side's web server.
    pub closed spec fn webserver_url(&self) -> Seq<char> {
        self.webserver_url@
    }

    /// The remembered names, by skill.
    pub closed spec fn skill_names(&self) -> Map<i32, Seq<char>> {
        self.skill_name_cache@.map_values(|name: String| name@)
    }

    pub fn new(client_id: String, webserver_url: String) -> (esi: Esi)
        ensures
            esi.client_id() == client_id@,
            esi.webserver_url() == webserver_url@,
            esi.skill_names() == Map::<i32, Seq<char>>::empty(),
    {
        let esi = Esi { client_id, webserver_url, skill_name_cache: HashMap::new() };
        assert(esi.skill_names() =~= Map::<i32, Seq<char>>::empty());
        esi
    }

    /// The address at which a user logs in, with `state` handed through;
    /// `None` where the address of the web server is none that a user
    /// could be sent back to.
    pub fn get_authorization_url(&self, state: String) -> (url: Option<String>)
        ensures
            match url {
                Some(url) => login_url(self.client_id(), self.webserver_url(), state@) == Some(
                    url@,
                ),
                None => login_url(self.client_id(), self.webserver_url(), state@) is None,
            },
    {
        let mut redirect_url = self.webserver_url.clone();
        redirect_url.append("/callback");
        oauth_authorize_url(
            "https://login.eveonline.com/v2/oauth/authorize",
            self.client_id.as_str(),
            redirect_url.as_str(),
            "esi-skills.read_skills.v1",
            "esi-skills.read_skillqueue.v1",
            state,
        )
    }

    /// The remembered name of `skill_id`; `None` means that it has to be
    /// asked of the progress source.
    pub fn lookup_skill_name(&self, skill_id: i32) -> (name: Option<String>)
        ensures
            match name {
                Some(name) => self.skill_names().contains_key(skill_id) && name@
                    == self.skill_names()[skill_id],
                None => !self.skill_names().contains_key(skill_id),
            },
    {
        match self.skill_name_cache.get(&skill_id) {
            Some(name) => Some(name.clone()),
            None => None,
        }
    }

    /// Remembers `name` for `skill_id`, in place of what was remembered
    /// for it before.
    pub fn remember_skill_name(&mut self, skill_id: i32, name: String)
        ensures
            final(self).skill_names() == old(self).skill_names().insert(skill_id, name@),
            final(self).client_id() == old(self).client_id(),
            final(self).webserver_url() == old(self).webserver_url(),
    {
        self.skill_name_cache.insert(skill_id, name);
        assert(self.skill_names() =~= old(self).skill_names().insert(skill_id, name@));
    }
}

/// What is asked of the progress source.
#[derive(Clone, Copy, Debug, PartialEq, Eq, Structural)]
pub enum Fetch {
    Skills,
    SkillQueue,
    SkillName,
}

/// What is asked, in words.
pub open spec fn fetch_words(what: Fetch) -> Seq<char> {
    match what {
        Fetch::Skills => "skills"@,
        Fetch::SkillQueue => "skill queue"@,
        Fetch::SkillName => "skill name"@,
    }
}

/// The error for an answer with a status other than 200.
pub open spec fn status_failure(what: Fetch, status: u16) -> Seq<char> {
    "Failed to fetch "@ + fetch_words(what) + ": status code "@ + decimal(status as int)
}

/// A text or an error as contracts speak of it.
pub open spec fn text_result(text: Result<String, String>) -> Result<Seq<char>, Seq<char>> {
    match text {
        Ok(text) => Ok(text@),
        Err(error) => Err(error@),
    }
}

/// What an answer of the progress source is worth: its body where the
/// status is 200 and the body was received; the error of the body where it
/// was not received; the status, in words, otherwise.
pub open spec fn checked_body(
    what: Fetch,
    status: u16,
    body: Result<Seq<char>, Seq<char>>,
) -> Result<Seq<char>, Seq<char>> {
    match body {
        Err(error) => Err(error),
        Ok(text) => if status == 200 {
            Ok(text)
        } else {
            Err(status_failure(what, status))
        },
    }
}

/// The body of an answer of the progress source that is fit to be read,
/// or the error to report.
pub fn response_body(what: Fetch, status: u16, body: Result<String, String>) -> (checked: Result<
    String,
    String,
>)
    ensures
        text_result(checked) == checked_body(what, status, text_result(body)),
{
    match body {
        Err(error) => Err(error),
        Ok(text) => {
            if status == 200 {
                Ok(text)
            } else {
                let mut error = String::from_str("Failed to fetch ");
                match what {
                    Fetch::Skills => error.append("skills"),
                    Fetch::SkillQueue => error.append("skill queue"),
                    Fetch::SkillName => error.append("skill name"),
                }
                error.append(": status code ");
                append_decimal(&mut error, status as i128);
                Err(error)
            }
        },
    }
}

/// The address of the skills of a character.
pub fn skills_url(character_id: u64) -> (url: String)
    ensures
        url@ == "https://esi.evetech.net/v4/characters/"@ + decimal(character_id as int)
            + "/skills/"@,
{
    let mut url = String::from_str("https://esi.evetech.net/v4/characters/");
    append_decimal(&mut url, character_id as i128);
    url.append("/skills/");
    url
}

/// The address of the skill queue of a character.
pub fn skill_queue_url(character_id: u64) -> (url: String)
    ensures
        url@ == "https://esi.evetech.net/v2/characters/"@ + decimal(character_id as int)
            + "/skillqueue/"@,
{
    let mut url = String::from_str("https://esi.evetech.net/v2/characters/");
    append_decimal(&mut url, character_id as i128);
    url.append("/skillqueue/");
    url
}

/// The address at which names are asked for.
pub fn names_url() -> (url: &'static str)
    ensures
        url@ == "https://esi.evetech.net/v3/universe/names/"@,
{
    "https://esi.evetech.net/v3/universe/names/"
}

/// The body of the request for the name of one skill.
pub fn names_request_body(skill_id: i32) -> (body: String)
    ensures
        body@ == "["@ + decimal(skill_id as int) + "]"@,
{
    let mut body = String::from_str("[");
    append_decimal(&mut body, skill_id as i128);
    body.append("]");
    body
}

/// The authorization header that goes with an access credential.
pub fn bearer(access_token: &str) -> (header: String)
    ensures
        header@ == "Bearer "@ + access_token@,
{
    let mut header = String::from_str("Bearer ");
    header.append(access_token);
    header
}

/// The name shown for `skill_id`: the remembered one, or `Unknown`.
pub open spec fn display_name(names: Map<i32, Seq<char>>, skill_id: i32) -> Seq<char> {
    if names.contains_key(skill_id) {
        names[skill_id]
    } else {
        "Unknown"@
    }
}

} // verus!
