use zk_roulette::hub::{GameHubContract, GameSession, HubError, SessionStatus};
use zk_roulette::types::{Identity, IdentityKind};

fn account(n: u8) -> Identity {
    Identity { kind: IdentityKind::Account, key: [n; 32] }
}

fn contract(n: u8) -> Identity {
    Identity { kind: IdentityKind::Contract, key: [n; 32] }
}

#[test]
fn test_start_and_end_game() {
    let admin = account(1);
    let mut client = GameHubContract::new(admin);

    let game_id = contract(2);
    let player1 = account(3);
    let player2 = account(4);

    // Start a game session
    client.start_game(game_id, 1u32, player1, player2, 100i128, 0i128).unwrap();

    assert_eq!(client.get_total_sessions(), 1);

    let session = client.get_session(1u32);
    assert!(session.is_some());
    let session = session.unwrap();
    assert_eq!(session.player1, player1);
    assert_eq!(session.player2, player2);
    assert_eq!(session.player1_points, 100);

    // End the game (verified settlement, bet = 10, result = 17)
    client.end_game(1u32, true, false, 10i128, 17u32).unwrap();

    let session = client.get_session(1u32).unwrap();
    assert!(session.player1_won);
    assert_eq!(session.status, SessionStatus::Finished);
    assert_eq!(session.player2_points, 10);
    assert_eq!(session.result, 17);
}

#[test]
fn test_multiple_sessions() {
    let admin = account(1);
    let mut client = GameHubContract::new(admin);

    let game_id = contract(2);
    let first = account(3);
    let second = account(4);

    client.start_game(game_id, 1u32, first, second, 50i128, 0i128).unwrap();
    client.start_game(game_id, 2u32, second, first, 75i128, 0i128).unwrap();

    assert_eq!(client.get_total_sessions(), 2);

    client.end_game(1u32, true, false, 20i128, 5u32).unwrap();
    client.end_game(2u32, false, false, 30i128, 0u32).unwrap();

    let s1 = client.get_session(1u32).unwrap();
    assert!(s1.player1_won);
    assert_eq!(s1.status, SessionStatus::Finished);
    assert_eq!(s1.player2_points, 20);
    assert_eq!(s1.result, 5);

    let s2 = client.get_session(2u32).unwrap();
    assert!(!s2.player1_won);
    assert_eq!(s2.status, SessionStatus::Finished);
    assert_eq!(s2.player2_points, 30);
    assert_eq!(s2.result, 0);
}

#[test]
fn test_timeout_session() {
    let admin = account(1);
    let mut client = GameHubContract::new(admin);

    let game_id = contract(2);
    let first = account(3);
    let second = account(4);

    client.start_game(game_id, 1u32, first, second, 50i128, 0i128).unwrap();

    // End with timeout (bet = 15, result = 37 sentinel)
    client.end_game(1u32, true, true, 15i128, 37u32).unwrap();

    let session = client.get_session(1u32).unwrap();
    assert!(session.player1_won);
    assert_eq!(session.status, SessionStatus::TimedOut);
    assert_eq!(session.player2_points, 15);
    assert_eq!(session.result, 37);
}

#[test]
fn a_session_opens_active_and_without_an_outcome() {
    let mut hub = GameHubContract::new(account(1));
    assert_eq!(hub.get_total_sessions(), 0);
    assert!(hub.get_session(0).is_none());
    hub.start_game(contract(2), 9, account(3), account(4), 5, 6).unwrap();
    let s = hub.get_session(9).unwrap();
    assert_eq!(s.game_id, contract(2));
    assert_eq!(s.session_id, 9);
    assert_eq!(s.player2_points, 6);
    assert_eq!(s.status, SessionStatus::Active);
    assert!(!s.player1_won);
    assert_eq!(s.result, 37);
    assert!(hub.get_session(8).is_none());
}

#[test]
fn ending_a_session_nobody_started_is_refused() {
    let mut hub = GameHubContract::new(account(1));
    assert_eq!(hub.end_game(1, true, false, 10, 17), Err(HubError::SessionNotFound));
    hub.start_game(contract(2), 1, account(3), account(4), 5, 0).unwrap();
    assert_eq!(hub.end_game(2, true, false, 10, 17), Err(HubError::SessionNotFound));
    assert_eq!(hub.get_session(1).unwrap().status, SessionStatus::Active);
}

#[test]
fn ending_keeps_who_played_and_what_the_first_player_brought() {
    let mut hub = GameHubContract::new(account(1));
    hub.start_game(contract(2), 1, account(3), account(4), 5, 0).unwrap();
    hub.end_game(1, false, false, 77, 36).unwrap();
    let s = hub.get_session(1).unwrap();
    assert_eq!(s.game_id, contract(2));
    assert_eq!(s.player1, account(3));
    assert_eq!(s.player2, account(4));
    assert_eq!(s.player1_points, 5);
    assert_eq!(s.player2_points, 77);
    assert_eq!(hub.get_total_sessions(), 1);
}

#[test]
fn starting_a_number_again_writes_over_it_and_still_counts() {
    let mut hub = GameHubContract::new(account(1));
    hub.start_game(contract(2), 1, account(3), account(4), 5, 0).unwrap();
    hub.start_game(contract(2), 2, account(3), account(4), 6, 0).unwrap();
    hub.end_game(1, true, false, 10, 17).unwrap();
    hub.start_game(contract(2), 1, account(5), account(6), 7, 0).unwrap();
    assert_eq!(hub.get_total_sessions(), 3);
    let s = hub.get_session(1).unwrap();
    assert_eq!(s.player1, account(5));
    assert_eq!(s.status, SessionStatus::Active);
    assert_eq!(s.result, 37);
    assert_eq!(hub.get_session(2).unwrap().player1_points, 6);
}

#[test]
fn a_hub_is_restored_only_from_sessions_numbered_once() {
    let session = |id: u32, points: i128| GameSession {
        game_id: contract(2),
        session_id: id,
        player1: account(3),
        player2: account(4),
        player1_points: points,
        player2_points: 0,
        status: SessionStatus::Active,
        player1_won: false,
        result: 37,
    };
    let mut hub = GameHubContract::restore(account(1), vec![session(4, 40), session(9, 90)], 12).unwrap();
    assert_eq!(hub.get_admin(), account(1));
    assert_eq!(hub.get_total_sessions(), 12);
    assert_eq!(hub.get_session(4), Some(session(4, 40)));
    assert_eq!(hub.get_session(9), Some(session(9, 90)));
    assert_eq!(hub.get_session(5), None);
    hub.end_game(9, true, true, 7, 37).unwrap();
    assert_eq!(hub.get_session(9).unwrap().status, SessionStatus::TimedOut);
    assert_eq!(hub.get_session(4), Some(session(4, 40)));

    assert!(GameHubContract::restore(account(1), vec![], 0).is_some());
    assert!(GameHubContract::restore(account(1), vec![session(4, 40), session(4, 41)], 2).is_none());
    assert!(GameHubContract::restore(account(1), vec![session(4, 40), session(5, 1), session(4, 40)], 3).is_none());
}

#[test]
fn the_count_of_sessions_stops_at_its_limit() {
    let mut hub = GameHubContract::restore(account(1), vec![], u32::MAX - 1).unwrap();
    assert_eq!(hub.start_game(contract(2), 1, account(3), account(4), 5, 0), Ok(()));
    assert_eq!(hub.get_total_sessions(), u32::MAX);
    assert_eq!(hub.start_game(contract(2), 2, account(3), account(4), 5, 0), Err(HubError::TooManySessions));
    assert_eq!(hub.get_session(2), None);
    assert_eq!(hub.get_total_sessions(), u32::MAX);
}
