use teamgate::error::CustomError;
use teamgate::flow::{InviteAction, InviteEvent, InviteFlow, Purpose};
use teamgate::invitation::{
    hash_invitation_verifier, team_full, verifier_matches, Invitation, UserRecord,
};

// The verifier `invitation-verifier-0001`, encoded, and the hash that the store keeps of it.
const VERIFIER: &str = "aW52aXRhdGlvbi12ZXJpZmllci0wMDAx";
const VERIFIER_HASH: &str = "ZkUPso1pGAC1BlGCMb7gJyuhZgz_Jv0Zh-MlMoYi2WQ";

/// A store whose reads find these records and whose writes go through.
struct Store {
    user_id: i32,
    invitation_hash: String,
    invitation_email: String,
    license_tier: i32,
    team_limit: i32,
    members: usize,
    user: (i32, String, Option<String>, Option<String>),
    user_by_email: (i32, String, Option<String>, Option<String>),
    fail_at: Option<&'static str>,
}

fn store() -> Store {
    Store {
        user_id: 7,
        invitation_hash: VERIFIER_HASH.to_string(),
        invitation_email: "ann@example.com".to_string(),
        license_tier: 1,
        team_limit: 5,
        members: 2,
        user: (7, "ann@example.com".to_string(), None, None),
        user_by_email: (7, "ann@example.com".to_string(), None, None),
        fail_at: None,
    }
}

fn record(u: &(i32, String, Option<String>, Option<String>)) -> UserRecord {
    UserRecord { id: u.0, email: u.1.clone(), first_name: u.2.clone(), last_name: u.3.clone() }
}

/// Runs the flow against the store; the answer and the actions, written as text.
fn drive(purpose: Purpose, verifier: &str, s: &Store) -> (Result<i32, CustomError>, Vec<String>) {
    let (mut flow, mut action) = InviteFlow::begin(purpose, "sel-1".to_string(), verifier.to_string());
    let mut trace = Vec::new();
    loop {
        let (name, event) = match &action {
            InviteAction::OpenSession => ("open".to_string(), InviteEvent::Session { user_id: s.user_id }),
            InviteAction::FetchInvitation { selector } => (
                format!("invitation {}", selector),
                InviteEvent::Invitation(Invitation {
                    team_id: 42,
                    email: s.invitation_email.clone(),
                    first_name: "Ann".to_string(),
                    last_name: "Lee".to_string(),
                    invitation_verifier_hash: s.invitation_hash.clone(),
                    roles: vec!["Collaborator".to_string()],
                }),
            ),
            InviteAction::FetchLicense { team_id } => {
                (format!("license {}", team_id), InviteEvent::License { tier: s.license_tier })
            }
            InviteAction::FetchTier { tier } => (format!("tier {}", tier), InviteEvent::Tier { team_limit: s.team_limit }),
            InviteAction::FetchTeamUsers { team_id } => {
                (format!("members {}", team_id), InviteEvent::TeamUsers { count: s.members })
            }
            InviteAction::FetchUser { user_id } => (format!("user {}", user_id), InviteEvent::User(record(&s.user))),
            InviteAction::FetchUserByEmail { email } => {
                (format!("user-by-email {}", email), InviteEvent::User(record(&s.user_by_email)))
            }
            InviteAction::AddUserToTeam { user_id, team_id, roles } => {
                (format!("add {} {} {:?}", user_id, team_id, roles), InviteEvent::Written)
            }
            InviteAction::SetName { first_name, last_name, user_id } => {
                (format!("name {} {} {}", first_name, last_name, user_id), InviteEvent::Written)
            }
            InviteAction::DeleteInvitation { email, team_id } => {
                (format!("delete {} {}", email, team_id), InviteEvent::Written)
            }
            InviteAction::Commit => ("commit".to_string(), InviteEvent::Written),
            InviteAction::Finish => break,
        };
        let failing = s.fail_at.map_or(false, |f| name.starts_with(f));
        trace.push(name);
        let event = if failing { InviteEvent::Failed("connection lost".to_string()) } else { event };
        let (next, next_action) = flow.step(event);
        flow = next;
        action = next_action;
    }
    assert!(flow.is_done());
    (flow.outcome().unwrap(), trace)
}

fn reads() -> Vec<String> {
    vec!["open", "invitation sel-1", "license 42", "tier 1", "members 42"].into_iter().map(String::from).collect()
}

#[test]
fn hash_of_verifier_is_base64_of_sha256() {
    assert_eq!(hash_invitation_verifier(VERIFIER).unwrap(), VERIFIER_HASH);
    assert_eq!(
        hash_invitation_verifier("-vv8_f7_ABA").unwrap(),
        "GL6SuCVbhU-IHM7JIwmw4-izPb7aiCzVyo0Aq0Ffw_U"
    );
    assert_eq!(hash_invitation_verifier("").unwrap(), "47DEQpj8HBSa-_TImW-5JCeuQeRkm5NMpJWZG3hSuFU");
}

#[test]
fn undecodable_verifier_is_faulty_setup() {
    assert_eq!(
        hash_invitation_verifier("ab!d"),
        Err(CustomError::FaultySetup("Invalid byte 33, offset 2.".to_string()))
    );
    let (outcome, trace) = drive(Purpose::Accept, "ab!d", &store());
    assert_eq!(outcome, Err(CustomError::FaultySetup("Invalid byte 33, offset 2.".to_string())));
    assert!(trace.is_empty());
    let (outcome, trace) = drive(Purpose::Reject, "ab!d", &store());
    assert!(matches!(outcome, Err(CustomError::FaultySetup(_))));
    assert!(trace.is_empty());
}

#[test]
fn verifier_matching() {
    let stored = VERIFIER_HASH.to_string();
    assert!(verifier_matches(&stored, &VERIFIER_HASH.to_string(), &VERIFIER.to_string()));
    // the stored hash given as the verifier itself is accepted too
    assert!(verifier_matches(&stored, &"other".to_string(), &VERIFIER_HASH.to_string()));
    assert!(!verifier_matches(&stored, &"other".to_string(), &VERIFIER.to_string()));
}

#[test]
fn team_full_rules() {
    assert!(team_full(5, 5));
    assert!(team_full(6, 5));
    assert!(!team_full(4, 5));
    assert!(team_full(0, 0));
    assert!(!team_full(0, 1));
    // a negative limit, read as a usize, is never reached
    assert!(!team_full(1000, -1));
}

#[test]
fn accept_unnamed_user_joins_and_is_named() {
    let (outcome, trace) = drive(Purpose::Accept, VERIFIER, &store());
    assert_eq!(outcome, Ok(42));
    let mut expected = reads();
    expected.extend(
        [
            "user 7",
            "user-by-email ann@example.com",
            "add 7 42 [\"Collaborator\"]",
            "name Ann Lee 7",
            "delete ann@example.com 42",
            "commit",
        ]
        .map(String::from),
    );
    assert_eq!(trace, expected);
}

#[test]
fn accept_named_user_keeps_name() {
    let mut s = store();
    s.user_by_email = (9, "ann@example.com".to_string(), Some("Annie".to_string()), None);
    let (outcome, trace) = drive(Purpose::Accept, VERIFIER, &s);
    assert_eq!(outcome, Ok(42));
    let mut expected = reads();
    expected.extend(
        ["user 7", "user-by-email ann@example.com", "add 9 42 [\"Collaborator\"]", "delete ann@example.com 42", "commit"]
            .map(String::from),
    );
    assert_eq!(trace, expected);
}

#[test]
fn accept_full_team_is_refused_without_writes() {
    let mut s = store();
    s.members = 5;
    let (outcome, trace) = drive(Purpose::Accept, VERIFIER, &s);
    assert_eq!(outcome, Err(CustomError::TeamFull));
    assert_eq!(trace, reads());
    let mut s = store();
    s.team_limit = 0;
    s.members = 0;
    let (outcome, _) = drive(Purpose::Accept, VERIFIER, &s);
    assert_eq!(outcome, Err(CustomError::TeamFull));
}

#[test]
fn accept_wrong_verifier_commits_nothing_else() {
    let mut s = store();
    s.invitation_hash = "someone-else".to_string();
    let (outcome, trace) = drive(Purpose::Accept, VERIFIER, &s);
    assert_eq!(outcome, Ok(42));
    let mut expected = reads();
    expected.push("commit".to_string());
    assert_eq!(trace, expected);
}

#[test]
fn accept_other_user_is_not_added() {
    let mut s = store();
    s.user = (7, "bob@example.com".to_string(), None, None);
    let (outcome, trace) = drive(Purpose::Accept, VERIFIER, &s);
    assert_eq!(outcome, Ok(42));
    let mut expected = reads();
    expected.extend(["user 7", "commit"].map(String::from));
    assert_eq!(trace, expected);
}

#[test]
fn reject_invited_user_deletes_invitation() {
    let (outcome, trace) = drive(Purpose::Reject, VERIFIER, &store());
    assert_eq!(outcome, Ok(42));
    let expected: Vec<String> =
        ["open", "invitation sel-1", "user 7", "delete ann@example.com 42", "commit"].map(String::from).to_vec();
    assert_eq!(trace, expected);
}

#[test]
fn reject_ignores_team_size_and_wrong_links() {
    let mut s = store();
    s.members = 100;
    s.invitation_hash = "someone-else".to_string();
    let (outcome, trace) = drive(Purpose::Reject, VERIFIER, &s);
    assert_eq!(outcome, Ok(42));
    let expected: Vec<String> = ["open", "invitation sel-1", "commit"].map(String::from).to_vec();
    assert_eq!(trace, expected);
    let mut s = store();
    s.user = (7, "bob@example.com".to_string(), None, None);
    let (_, trace) = drive(Purpose::Reject, VERIFIER, &s);
    let expected: Vec<String> = ["open", "invitation sel-1", "user 7", "commit"].map(String::from).to_vec();
    assert_eq!(trace, expected);
}

#[test]
fn store_failure_ends_with_database_error() {
    let mut s = store();
    s.fail_at = Some("add");
    let (outcome, trace) = drive(Purpose::Accept, VERIFIER, &s);
    assert_eq!(outcome, Err(CustomError::Database("connection lost".to_string())));
    assert_eq!(trace.last().unwrap(), "add 7 42 [\"Collaborator\"]");
    assert!(!trace.contains(&"commit".to_string()));
}

#[test]
fn answer_out_of_turn_ends_flow() {
    let (flow, action) = InviteFlow::begin(Purpose::Accept, "sel".to_string(), VERIFIER.to_string());
    assert!(matches!(action, InviteAction::OpenSession));
    let (flow, action) = flow.step(InviteEvent::Written);
    assert!(matches!(action, InviteAction::Finish));
    assert_eq!(
        flow.outcome(),
        Some(Err(CustomError::FaultySetup("the store answered out of turn".to_string())))
    );
}

#[test]
fn done_flow_stays_done() {
    let (flow, _) = InviteFlow::begin(Purpose::Reject, "sel".to_string(), "ab!d".to_string());
    let (flow, action) = flow.step(InviteEvent::Session { user_id: 1 });
    assert!(matches!(action, InviteAction::Finish));
    assert!(flow.is_done());
    assert!(matches!(flow.outcome(), Some(Err(CustomError::FaultySetup(_)))));
}
