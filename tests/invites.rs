use tourney::engine::{create_tournament, TournamentError};
use tourney::ids::{ObjectId, VoterId};
use tourney::invites::{create_invite, redeem_invite, validate_join, DEFAULT_MAX_USES};
use tourney::model::{CreateInviteDto, CreateTournamentDto, OpponentDto, Tournament, UserDto};

fn new_oid() -> ObjectId {
    let b = bson::oid::ObjectId::new().bytes();
    ObjectId::new(
        u32::from_be_bytes([b[0], b[1], b[2], b[3]]),
        u64::from_be_bytes([b[4], b[5], b[6], b[7], b[8], b[9], b[10], b[11]]),
    )
}

fn tournament(owner: ObjectId) -> Tournament {
    create_tournament(
        CreateTournamentDto {
            name: "Cup".to_string(),
            opponents: vec![
                OpponentDto { id: new_oid(), url: "a".to_string() },
                OpponentDto { id: new_oid(), url: "b".to_string() },
            ],
            users: vec![UserDto { id: owner, name: "Owner".to_string() }],
        },
        owner,
    )
    .unwrap()
}

#[test]
fn invite_defaults() {
    let owner = new_oid();
    let tid = new_oid();
    let t = tournament(owner);
    let dto = CreateInviteDto { max_uses: None, expires_in_hours: None };
    let inv = create_invite(&t, tid, &dto, owner).unwrap();
    assert_eq!(inv.code.len(), 8);
    assert_eq!(inv.max_uses, DEFAULT_MAX_USES);
    assert_eq!(inv.current_uses, 0);
    assert_eq!(inv.tournament_id, tid);
    assert_eq!(inv.expires_at, inv.created_at + 24 * 3_600_000);
    let response = inv.to_response();
    assert_eq!(response.code, inv.code);
    assert_eq!(response.max_uses, 10);
}

#[test]
fn invite_custom_values_and_inactive_tournament() {
    let owner = new_oid();
    let mut t = tournament(owner);
    let dto = CreateInviteDto { max_uses: Some(3), expires_in_hours: Some(1) };
    let inv = create_invite(&t, new_oid(), &dto, owner).unwrap();
    assert_eq!(inv.max_uses, 3);
    assert_eq!(inv.expires_at, inv.created_at + 3_600_000);
    t.pause(owner).unwrap();
    assert_eq!(
        create_invite(&t, new_oid(), &dto, owner).unwrap_err(),
        TournamentError::NotActive
    );
}

#[test]
fn redemption_errors_are_distinct() {
    let owner = new_oid();
    let tid = new_oid();
    let t = tournament(owner);
    let dto = CreateInviteDto { max_uses: Some(1), expires_in_hours: None };
    let mut inv = create_invite(&t, tid, &dto, owner).unwrap();
    let now = inv.created_at;

    assert_eq!(validate_join("  ", Some(&inv), tid, now), Err(TournamentError::EmptyDisplayName));
    assert_eq!(validate_join("Guest", None, tid, now), Err(TournamentError::InvalidInviteCode));
    assert_eq!(
        validate_join("Guest", Some(&inv), new_oid(), now),
        Err(TournamentError::InviteTournamentMismatch)
    );
    assert_eq!(
        validate_join("Guest", Some(&inv), tid, inv.expires_at + 1),
        Err(TournamentError::InviteExpired)
    );
    assert_eq!(validate_join("Guest", Some(&inv), tid, inv.expires_at), Ok(()));
    inv.current_uses = inv.max_uses;
    assert_eq!(validate_join("Guest", Some(&inv), tid, now), Err(TournamentError::InviteExhausted));
    assert_eq!(TournamentError::InviteExpired.message(), "Invite code has expired");
    assert_eq!(
        TournamentError::InviteExhausted.message(),
        "Invite code has reached maximum uses"
    );
}

#[test]
fn redemption_adds_participant_and_counts_one_use() {
    let owner = new_oid();
    let tid = new_oid();
    let mut t = tournament(owner);
    let dto = CreateInviteDto { max_uses: None, expires_in_hours: None };
    let mut inv = create_invite(&t, tid, &dto, owner).unwrap();
    assert_eq!(validate_join("Guest", Some(&inv), tid, inv.created_at), Ok(()));
    redeem_invite(&mut t, &mut inv, "session-7".to_string(), "Guest".to_string());
    assert_eq!(inv.current_uses, 1);
    assert_eq!(t.users.len(), 2);
    assert_eq!(t.users[1].voter_id, VoterId::Anonymous("session-7".to_string()));
    assert_eq!(t.users[1].name, "Guest");
    assert!(t.has_participant(&VoterId::Anonymous("session-7".to_string())));
}
