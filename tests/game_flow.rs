use grid_game::account::{DelegationState, PlayerAccount};
use grid_game::game::Game;
use grid_game::grid::{apply_move, step, BOARD_SIZE};
use grid_game::identity::Identity;
use grid_game::player::{authorize, GameError, Player, SignerRole};

fn id(b: u8) -> Identity {
    Identity::new([b; 32])
}

fn joined_game(owner: &Identity) -> Game {
    let mut g = Game::new();
    assert_eq!(g.join_game(owner, 254), Ok(()));
    g
}

fn position(g: &Game, owner: &Identity) -> (u8, u8) {
    let p = g.get(owner).unwrap().current();
    (p.x, p.y)
}

#[test]
fn move_clamps_to_grid() {
    assert_eq!(apply_move(10, 10, -50, 5), (0, 15));
    assert_eq!(apply_move(10, 10, 127, 0), (99, 10));
    assert_eq!(apply_move(99, 0, 127, -128), (99, 0));
    assert_eq!(apply_move(0, 99, -1, 1), (0, 99));
    assert_eq!(step(50, -3), 47);
}

#[test]
fn move_clamps_over_every_input() {
    for x in 0..BOARD_SIZE {
        for d in i8::MIN..=i8::MAX {
            let r = step(x, d);
            let want = (x as i32 + d as i32).clamp(0, 99) as u8;
            assert_eq!(r, want);
        }
    }
}

#[test]
fn join_starts_at_spawn() {
    let owner = id(1);
    let g = joined_game(&owner);
    let a = g.get(&owner).unwrap();
    assert_eq!((a.base.x, a.base.y), (10, 10));
    assert_eq!(a.base.session_key, None);
    assert_eq!(a.base.bump, 254);
    assert_eq!(a.state, DelegationState::Resident);
    assert!(a.rollup.is_none());
}

#[test]
fn join_twice_is_refused() {
    let owner = id(1);
    let mut g = joined_game(&owner);
    assert_eq!(g.move_player(&owner, &owner, 3, 4), Ok(()));
    assert_eq!(g.join_game(&owner, 7), Err(GameError::AlreadyExists));
    assert_eq!(position(&g, &owner), (13, 14));
    assert_eq!(g.get(&owner).unwrap().base.bump, 254);
    assert_eq!(g.accounts.len(), 1);
    assert_eq!(g.join_game(&id(2), 7), Ok(()));
    assert_eq!(g.accounts.len(), 2);
}

#[test]
fn initialize_once() {
    let mut g = Game::new();
    assert_eq!(g.initialize(&id(5)), Ok(()));
    assert_eq!(g.initialize(&id(6)), Err(GameError::AlreadyExists));
    assert_eq!(g.board.unwrap().authority, id(5));
}

#[test]
fn unknown_player_not_found() {
    let mut g = joined_game(&id(1));
    assert_eq!(g.move_player(&id(2), &id(2), 1, 1), Err(GameError::NotFound));
    assert_eq!(g.request_delegate(&id(2), &id(2)), Err(GameError::NotFound));
    assert_eq!(g.commit_player(&id(2), true), Err(GameError::NotFound));
    assert!(g.get(&id(2)).is_err());
}

#[test]
fn move_gate_by_signer() {
    let owner = id(1);
    let key = id(2);
    let stranger = id(3);
    let mut g = joined_game(&owner);
    assert_eq!(g.move_player(&owner, &owner, 1, 0), Ok(()));
    assert_eq!(position(&g, &owner), (11, 10));
    assert_eq!(g.move_player(&owner, &stranger, 1, 0), Err(GameError::Unauthorized));
    assert_eq!(position(&g, &owner), (11, 10));
    assert_eq!(g.register_session_key(&owner, &owner, key), Ok(()));
    assert_eq!(g.move_player(&owner, &key, 0, -4), Ok(()));
    assert_eq!(position(&g, &owner), (11, 6));
    assert_eq!(g.revoke_session_key(&owner, &owner), Ok(()));
    assert_eq!(g.move_player(&owner, &key, 0, -4), Err(GameError::Unauthorized));
    assert_eq!(position(&g, &owner), (11, 6));
}

#[test]
fn authorize_reports_role() {
    let mut p = Player::new(id(1), 0);
    assert_eq!(authorize(&p, &id(1)), Ok(SignerRole::PrimaryAuthority));
    assert_eq!(authorize(&p, &id(2)), Err(GameError::Unauthorized));
    p.session_key = Some(id(2));
    assert_eq!(authorize(&p, &id(2)), Ok(SignerRole::SessionKey));
}

#[test]
fn session_key_cannot_manage_keys() {
    let owner = id(1);
    let key = id(2);
    let mut g = joined_game(&owner);
    assert_eq!(g.register_session_key(&owner, &owner, key), Ok(()));
    assert_eq!(g.register_session_key(&owner, &key, id(9)), Err(GameError::Unauthorized));
    assert_eq!(g.revoke_session_key(&owner, &key), Err(GameError::Unauthorized));
    assert_eq!(g.get(&owner).unwrap().current().session_key, Some(key));
    assert_eq!(g.register_session_key(&owner, &owner, id(9)), Ok(()));
    assert_eq!(g.get(&owner).unwrap().current().session_key, Some(id(9)));
}

#[test]
fn delegate_then_delegate_again() {
    let owner = id(1);
    let mut g = joined_game(&owner);
    assert_eq!(g.request_delegate(&owner, &id(2)), Err(GameError::Unauthorized));
    assert_eq!(g.request_delegate(&owner, &owner), Ok(()));
    assert_eq!(g.get(&owner).unwrap().state, DelegationState::Delegating);
    assert_eq!(g.move_player(&owner, &owner, 1, 1), Err(GameError::InvalidState));
    assert_eq!(g.complete_delegate(&owner, true), Ok(()));
    assert_eq!(g.get(&owner).unwrap().state, DelegationState::Delegated);
    assert_eq!(g.request_delegate(&owner, &owner), Err(GameError::InvalidState));
    assert_eq!(g.get(&owner).unwrap().state, DelegationState::Delegated);
}

#[test]
fn failed_handoff_stays_resident() {
    let owner = id(1);
    let mut g = joined_game(&owner);
    assert_eq!(g.request_delegate(&owner, &owner), Ok(()));
    assert_eq!(g.complete_delegate(&owner, false), Err(GameError::StoreFailure));
    let a = g.get(&owner).unwrap();
    assert_eq!(a.state, DelegationState::Resident);
    assert!(a.rollup.is_none());
    assert_eq!(g.complete_delegate(&owner, true), Err(GameError::InvalidState));
}

#[test]
fn delegated_moves_hit_venue_copy() {
    let owner = id(1);
    let mut g = joined_game(&owner);
    assert_eq!(g.request_delegate(&owner, &owner), Ok(()));
    assert_eq!(g.complete_delegate(&owner, true), Ok(()));
    assert_eq!(g.move_player(&owner, &owner, 5, 5), Ok(()));
    let a = g.get(&owner).unwrap();
    assert_eq!((a.base.x, a.base.y), (10, 10));
    assert_eq!(position(&g, &owner), (15, 15));
}

#[test]
fn commit_keeps_delegated() {
    let owner = id(1);
    let mut g = joined_game(&owner);
    assert_eq!(g.request_delegate(&owner, &owner), Ok(()));
    assert_eq!(g.complete_delegate(&owner, true), Ok(()));
    assert_eq!(g.move_player(&owner, &owner, 5, -5), Ok(()));
    let snap = g.get(&owner).unwrap().commit_snapshot().unwrap();
    assert_eq!((snap.x, snap.y), (15, 5));
    assert_eq!(g.commit_player(&owner, false), Err(GameError::StoreFailure));
    assert_eq!(g.get(&owner).unwrap().base.x, 10);
    assert_eq!(g.commit_player(&owner, true), Ok(()));
    let a = g.get(&owner).unwrap();
    assert_eq!(a.state, DelegationState::Delegated);
    assert_eq!((a.base.x, a.base.y), (15, 5));
    assert_eq!(g.move_player(&owner, &owner, 1, 0), Ok(()));
    assert_eq!(g.commit_player(&owner, true), Ok(()));
    assert_eq!(g.get(&owner).unwrap().base.x, 16);
}

#[test]
fn undelegate_returns_to_resident() {
    let owner = id(1);
    let key = id(2);
    let mut g = joined_game(&owner);
    assert_eq!(g.register_session_key(&owner, &owner, key), Ok(()));
    assert_eq!(g.request_delegate(&owner, &owner), Ok(()));
    assert_eq!(g.complete_delegate(&owner, true), Ok(()));
    assert_eq!(g.move_player(&owner, &key, -20, 30), Ok(()));
    assert_eq!(g.request_undelegate(&owner), Ok(()));
    assert_eq!(g.move_player(&owner, &key, 1, 1), Err(GameError::InvalidState));
    assert_eq!(g.complete_undelegate(&owner, false), Err(GameError::StoreFailure));
    assert_eq!(g.get(&owner).unwrap().state, DelegationState::Delegated);
    assert_eq!(g.request_undelegate(&owner), Ok(()));
    assert_eq!(g.complete_undelegate(&owner, true), Ok(()));
    let a = g.get(&owner).unwrap();
    assert_eq!(a.state, DelegationState::Resident);
    assert!(a.rollup.is_none());
    assert_eq!((a.base.x, a.base.y), (0, 40));
    assert_eq!(a.base.session_key, Some(key));
}

#[test]
fn resident_refuses_commit_and_undelegate() {
    let owner = id(1);
    let mut g = joined_game(&owner);
    assert_eq!(g.commit_player(&owner, true), Err(GameError::InvalidState));
    assert_eq!(g.request_undelegate(&owner), Err(GameError::InvalidState));
    assert_eq!(g.complete_undelegate(&owner, true), Err(GameError::InvalidState));
    assert_eq!(g.get(&owner).unwrap().commit_snapshot().map(|p| p.x), Err(GameError::InvalidState));
    assert_eq!(g.get(&owner).unwrap().state, DelegationState::Resident);
}

#[test]
fn account_copies_agree_on_owner() {
    let owner = id(4);
    let mut a = PlayerAccount::new(Player::new(owner, 1));
    assert_eq!(a.request_delegate(&owner), Ok(()));
    assert_eq!(a.complete_delegate(true), Ok(()));
    assert_eq!(a.rollup.unwrap().authority, owner);
    assert!(!id(4).same(&id(5)));
    assert!(id(4).same(&id(4)));
}
