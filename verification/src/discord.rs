use crate::text::{append_decimal, decimal};
use vstd::prelude::*;
use vstd::string::*;

verus! {

/// The character that stands in a channel name for `c`: a dash for a
/// space or an apostrophe, which character names may hold and channel
/// names may not.
pub open spec fn slug_char(c: char) -> char {
    if c == ' ' || c == '\'' {
        '-'
    } else {
        c
    }
}

/// The channel name for a character name.
pub open spec fn slug_of(name: Seq<char>) -> Seq<char> {
    name.map_values(|c: char| slug_char(c))
}

/// The name of the channel of the character `name`.
pub fn channel_slug(name: &str) -> (slug: String)
    ensures
        slug@ == slug_of(name@),
{
    proof {
        reveal_strlit("-");
    }
    let len = name.unicode_len();
    let mut slug = String::new();
    let mut i: usize = 0;
    while i < len
        invariant
            i <= len,
            len == name@.len(),
            "-"@ == seq!['-'],
            slug@ == slug_of(name@.take(i as int)),
        decreases len - i,
    {
        let c = name.get_char(i);
        if c == ' ' || c == '\'' {
            slug.append("-");
        } else {
            slug.append(name.substring_char(i, i + 1));
        }
        assert(slug@ =~= slug_of(name@.take(i + 1)));
        i += 1;
    }
    assert(name@.take(len as int) =~= name@);
    slug
}

/// The topic of the channel of the character `name`.
pub fn channel_topic(name: &str) -> (topic: String)
    ensures
        topic@ == "Skill training status of "@ + name@ + "."@,
{
    let mut topic = String::from_str("Skill training status of ");
    topic.append(name);
    topic.append(".");
    topic
}

/// The first message in the activity thread of a new channel.
pub fn thread_greeting(discord_character_id: u64) -> (text: String)
    ensures
        text@ == "<@"@ + decimal(discord_character_id as int)
            + ">: here I will let you know when a skill training finished."@,
{
    let mut text = String::from_str("<@");
    append_decimal(&mut text, discord_character_id as i128);
    text.append(">: here I will let you know when a skill training finished.");
    text
}

/// The answer to the command that starts a registration: where to log in.
pub fn login_message(webserver_url: &str, state: &str) -> (text: String)
    ensures
        text@ == "Visit "@ + webserver_url@ + "/login?state="@ + state@
            + " to authenticate an EVE Online character to monitor."@,
{
    let mut text = String::from_str("Visit ");
    text.append(webserver_url);
    text.append("/login?state=");
    text.append(state);
    text.append(" to authenticate an EVE Online character to monitor.");
    text
}

/// The answer to a registration that succeeded.
pub fn monitored_message(discord_channel_id: u64) -> (text: String)
    ensures
        text@ == "Your character is now monitored in <#"@ + decimal(discord_channel_id as int)
            + ">"@,
{
    let mut text = String::from_str("Your character is now monitored in <#");
    append_decimal(&mut text, discord_channel_id as i128);
    text.append(">");
    text
}

/// The answer to a registration that failed for the reason `error`.
pub fn failed_message(error: &str) -> (text: String)
    ensures
        text@ == "Failed to create channel: "@ + error@,
{
    let mut text = String::from_str("Failed to create channel: ");
    text.append(error);
    text
}

} // verus!
