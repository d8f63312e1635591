use skill_monitor::esi::{
    bearer, names_request_body, names_url, response_body, skill_queue_url, skills_url, Esi, Fetch,
};

#[test]
fn nothing_is_remembered_at_first() {
    let esi = Esi::new("client".to_string(), "https://example.com".to_string());
    assert_eq!(esi.lookup_skill_name(3300), None);
    assert_eq!(esi.lookup_skill_name(0), None);
}

#[test]
fn remembered_name_is_found_again() {
    let mut esi = Esi::new("client".to_string(), "https://example.com".to_string());
    esi.remember_skill_name(3300, "Gunnery".to_string());
    esi.remember_skill_name(-1, "Negative".to_string());
    assert_eq!(esi.lookup_skill_name(3300), Some("Gunnery".to_string()));
    assert_eq!(esi.lookup_skill_name(-1), Some("Negative".to_string()));
    assert_eq!(esi.lookup_skill_name(3301), None);
}

#[test]
fn later_name_takes_the_place_of_the_earlier() {
    let mut esi = Esi::new("client".to_string(), "https://example.com".to_string());
    esi.remember_skill_name(3300, "Gunery".to_string());
    esi.remember_skill_name(3300, "Gunnery".to_string());
    assert_eq!(esi.lookup_skill_name(3300), Some("Gunnery".to_string()));
}

#[test]
fn authorization_url_asks_for_both_scopes() {
    let esi = Esi::new("my-client".to_string(), "https://example.com".to_string());
    assert_eq!(
        esi.get_authorization_url("abc123".to_string()),
        Some(
            "https://login.eveonline.com/v2/oauth/authorize?response_type=code&client_id=my-client&state=abc123&redirect_uri=https%3A%2F%2Fexample.com%2Fcallback&scope=esi-skills.read_skills.v1+esi-skills.read_skillqueue.v1"
                .to_string()
        )
    );
}

#[test]
fn authorization_url_escapes_the_state() {
    let esi = Esi::new("my client".to_string(), "http://localhost:3000".to_string());
    assert_eq!(
        esi.get_authorization_url("a b&c".to_string()),
        Some(
            "https://login.eveonline.com/v2/oauth/authorize?response_type=code&client_id=my+client&state=a+b%26c&redirect_uri=http%3A%2F%2Flocalhost%3A3000%2Fcallback&scope=esi-skills.read_skills.v1+esi-skills.read_skillqueue.v1"
                .to_string()
        )
    );
}

#[test]
fn authorization_url_needs_an_address_to_come_back_to() {
    let esi = Esi::new("my-client".to_string(), "not an address".to_string());
    assert_eq!(esi.get_authorization_url("abc123".to_string()), None);
    let esi = Esi::new("my-client".to_string(), "".to_string());
    assert_eq!(esi.get_authorization_url("abc123".to_string()), None);
}

#[test]
fn addresses_of_the_progress_source() {
    assert_eq!(skills_url(95465499), "https://esi.evetech.net/v4/characters/95465499/skills/");
    assert_eq!(
        skill_queue_url(95465499),
        "https://esi.evetech.net/v2/characters/95465499/skillqueue/"
    );
    assert_eq!(names_url(), "https://esi.evetech.net/v3/universe/names/");
    assert_eq!(skills_url(0), "https://esi.evetech.net/v4/characters/0/skills/");
    assert_eq!(
        skill_queue_url(u64::MAX),
        "https://esi.evetech.net/v2/characters/18446744073709551615/skillqueue/"
    );
}

#[test]
fn request_for_a_name() {
    assert_eq!(names_request_body(3300), "[3300]");
    assert_eq!(names_request_body(-5), "[-5]");
    assert_eq!(names_request_body(i32::MIN), "[-2147483648]");
    assert_eq!(bearer("token"), "Bearer token");
    assert_eq!(bearer(""), "Bearer ");
}

#[test]
fn answer_with_status_200_is_read() {
    assert_eq!(
        response_body(Fetch::Skills, 200, Ok("{}".to_string())),
        Ok("{}".to_string())
    );
    assert_eq!(response_body(Fetch::SkillName, 200, Ok(String::new())), Ok(String::new()));
}

#[test]
fn answer_with_another_status_is_an_error() {
    assert_eq!(
        response_body(Fetch::Skills, 403, Ok("{}".to_string())),
        Err("Failed to fetch skills: status code 403".to_string())
    );
    assert_eq!(
        response_body(Fetch::SkillQueue, 502, Ok("Bad Gateway".to_string())),
        Err("Failed to fetch skill queue: status code 502".to_string())
    );
    assert_eq!(
        response_body(Fetch::SkillName, 201, Ok("[]".to_string())),
        Err("Failed to fetch skill name: status code 201".to_string())
    );
    assert_eq!(
        response_body(Fetch::SkillName, 0, Ok("[]".to_string())),
        Err("Failed to fetch skill name: status code 0".to_string())
    );
}

#[test]
fn answer_whose_body_did_not_arrive_is_an_error() {
    assert_eq!(
        response_body(Fetch::Skills, 200, Err("connection reset".to_string())),
        Err("connection reset".to_string())
    );
    assert_eq!(
        response_body(Fetch::Skills, 500, Err("connection reset".to_string())),
        Err("connection reset".to_string())
    );
}
