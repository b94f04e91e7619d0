use tourney::auth::{AnonymousClaims, JwtClaims};
use tourney::error::{Error, Status};
use tourney::events::{next_action, pong_message, ClientMessage, ConnectionAction, ConnectionInput, TournamentEvent};
use tourney::guards::{authenticate_user, bearer_token, identify_participant, TournamentParticipant};
use tourney::ids::{ObjectId, VoterId};
use tourney::websocket::{open_connection, validate_token};

fn new_oid() -> ObjectId {
    let b = bson::oid::ObjectId::new().bytes();
    ObjectId::new(
        u32::from_be_bytes([b[0], b[1], b[2], b[3]]),
        u64::from_be_bytes([b[4], b[5], b[6], b[7], b[8], b[9], b[10], b[11]]),
    )
}

fn access_claims(token_type: &str, sub: String) -> JwtClaims {
    JwtClaims {
        sub,
        email: "test@test.com".to_string(),
        token_type: token_type.to_string(),
        exp: 9999999999,
        iat: 0,
    }
}

fn anonymous_claims(tournament_id: String) -> AnonymousClaims {
    AnonymousClaims {
        sub: "session-123".to_string(),
        tournament_id,
        display_name: "Player".to_string(),
        token_type: "anonymous".to_string(),
        exp: 9999999999,
        iat: 0,
    }
}

#[test]
fn test_validate_token_accepts_access_token() {
    let access = Some(access_claims("access", new_oid().to_hex()));
    assert!(validate_token(&access, &None).is_ok());
}

#[test]
fn test_validate_token_accepts_anonymous_token() {
    let anonymous = Some(anonymous_claims(new_oid().to_hex()));
    assert!(validate_token(&None, &anonymous).is_ok());
}

#[test]
fn test_validate_token_rejects_invalid() {
    assert!(validate_token(&None, &None).is_err());
    let refresh = Some(access_claims("refresh", new_oid().to_hex()));
    assert_eq!(validate_token(&refresh, &None).unwrap_err(), "Invalid token");
}

#[test]
fn test_tournament_event_clone_and_debug() {
    let event = TournamentEvent::TournamentPaused;
    let cloned = event.clone();
    assert_eq!(event, cloned);
    let debug = format!("{:?}", event);
    assert!(debug.contains("TournamentPaused"));
}

#[test]
fn event_tags() {
    assert_eq!(TournamentEvent::TournamentPaused.tag(), "tournament_paused");
    let cast = TournamentEvent::VoteCast {
        match_id: "m1".to_string(),
        vote_counts: vec![(new_oid(), 2)],
        total_needed: 3,
    };
    assert_eq!(cast.tag(), "vote_cast");
    assert_eq!(TournamentEvent::Error { message: "x".to_string() }.tag(), "error");
}

#[test]
fn connection_loop_decisions() {
    let e = TournamentEvent::TournamentResumed;
    assert!(matches!(next_action(ConnectionInput::Event(e.clone())), ConnectionAction::Forward(f) if f == e));
    assert!(matches!(next_action(ConnectionInput::Lagged), ConnectionAction::Continue));
    assert!(matches!(next_action(ConnectionInput::ChannelClosed), ConnectionAction::Close));
    assert!(matches!(
        next_action(ConnectionInput::ClientText(Some(ClientMessage::Ping))),
        ConnectionAction::ReplyPong
    ));
    assert!(matches!(next_action(ConnectionInput::ClientText(None)), ConnectionAction::Continue));
    assert!(matches!(next_action(ConnectionInput::ClientPing(vec![1, 2])), ConnectionAction::PongFrame(d) if d == vec![1, 2]));
    assert!(matches!(next_action(ConnectionInput::ClientClose), ConnectionAction::Close));
    assert!(matches!(next_action(ConnectionInput::StreamEnded), ConnectionAction::Close));
    assert!(matches!(next_action(ConnectionInput::ClientOther), ConnectionAction::Continue));
    assert!(matches!(next_action(ConnectionInput::HeartbeatTick), ConnectionAction::Heartbeat));
    assert!(matches!(next_action(ConnectionInput::SendFailed), ConnectionAction::Close));
    assert_eq!(pong_message(), r#"{"type":"pong"}"#);
}

#[test]
fn connection_entry_checks_id_then_token() {
    let id = new_oid();
    assert_eq!(open_connection(&id.to_hex(), true), Ok(id));
    assert_eq!(open_connection(&id.to_hex(), false), Err(Status::Unauthorized));
    assert_eq!(open_connection("not-an-id", true), Err(Status::BadRequest));
    assert_eq!(open_connection("not-an-id", false), Err(Status::BadRequest));
}

#[test]
fn bearer_header_parsing() {
    assert_eq!(bearer_token("Bearer abc.def"), Some("abc.def".to_string()));
    assert_eq!(bearer_token("InvalidBearer token"), None);
    assert_eq!(bearer_token("Bearer"), None);
}

#[test]
fn registered_user_authentication() {
    let id = new_oid();
    let user = authenticate_user(Some(access_claims("access", id.to_hex()))).unwrap();
    assert_eq!(user.user_id, id);
    assert_eq!(user.email, "test@test.com");
    match authenticate_user(None) {
        Err(Error::Unauthorized(m)) => assert_eq!(m, "Invalid token"),
        _ => panic!("expected a refusal"),
    }
    match authenticate_user(Some(access_claims("refresh", id.to_hex()))) {
        Err(Error::Unauthorized(m)) => assert_eq!(m, "Invalid token type: expected access token"),
        _ => panic!("expected a refusal"),
    }
    match authenticate_user(Some(access_claims("access", "nope".to_string()))) {
        Err(Error::Unauthorized(m)) => assert_eq!(m, "Invalid user ID"),
        _ => panic!("expected a refusal"),
    }
}

#[test]
fn participant_identification() {
    let uid = new_oid();
    let tid = new_oid();
    let p = identify_participant(Some(access_claims("access", uid.to_hex())), None).unwrap();
    assert_eq!(p.voter_id(), VoterId::Registered(uid));
    let p = identify_participant(None, Some(anonymous_claims(tid.to_hex()))).unwrap();
    match &p {
        TournamentParticipant::Anonymous { tournament_id, display_name, .. } => {
            assert_eq!(*tournament_id, tid);
            assert_eq!(display_name, "Player");
        }
        _ => panic!("expected an anonymous participant"),
    }
    assert_eq!(p.voter_id(), VoterId::Anonymous("session-123".to_string()));
    assert!(identify_participant(None, Some(anonymous_claims("bad".to_string()))).is_err());
}
