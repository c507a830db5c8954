use truco_lobby::{
    authenticate, name_from_bytes, status_message, AuthError, BuilderCount, Lobby, LobbyError,
    NumeroJugadores, TableBuilder, NAME_BUFFER_LEN, NAME_PROMPT,
};

fn names(table: &truco_lobby::Table) -> Vec<String> {
    table.players().to_vec()
}

#[test]
fn two_players_in_order_then_finalize() {
    let mut lobby = Lobby::new(NumeroJugadores::Dos, 30);
    assert_eq!(lobby.add_player("Ana"), Ok(b"1/2".to_vec()));
    assert_eq!(lobby.add_player("Beto"), Ok(b"2/2".to_vec()));
    assert!(lobby.is_full());
    let table = lobby.finalize().unwrap();
    assert_eq!(names(&table), vec!["Ana".to_string(), "Beto".to_string()]);
    assert_eq!(table.hasta(), 30);
}

#[test]
fn third_player_is_refused_and_roster_kept() {
    let mut lobby = Lobby::new(NumeroJugadores::Dos, 30);
    lobby.add_player("Ana").unwrap();
    lobby.add_player("Beto").unwrap();
    assert_eq!(lobby.add_player("Carla"), Err(LobbyError::TooManyPlayers));
    assert_eq!(lobby.admitted(), 2);
    let table = lobby.finalize().unwrap();
    assert_eq!(names(&table), vec!["Ana".to_string(), "Beto".to_string()]);
}

#[test]
fn four_players_see_increasing_counts() {
    let mut lobby = Lobby::new(NumeroJugadores::Cuatro, 15);
    let mut seen = Vec::new();
    for name in ["a", "b", "c", "d"] {
        seen.push(String::from_utf8(lobby.add_player(name).unwrap()).unwrap());
    }
    assert_eq!(seen, vec!["1/4", "2/4", "3/4", "4/4"]);
    let table = lobby.finalize().unwrap();
    assert_eq!(names(&table), vec!["a", "b", "c", "d"]);
}

#[test]
fn six_players_finalize() {
    let mut lobby = Lobby::new(NumeroJugadores::Seis, 30);
    for name in ["p1", "p2", "p3", "p4", "p5", "p6"] {
        lobby.add_player(name).unwrap();
    }
    assert_eq!(lobby.add_player("p7"), Err(LobbyError::TooManyPlayers));
    assert_eq!(lobby.finalize().unwrap().players().len(), 6);
}

#[test]
fn finalize_before_full_is_unbuildable() {
    let mut lobby = Lobby::new(NumeroJugadores::Cuatro, 30);
    lobby.add_player("Ana").unwrap();
    lobby.add_player("Beto").unwrap();
    assert!(!lobby.is_full());
    assert_eq!(lobby.finalize().err(), Some(LobbyError::Unbuildable));
}

#[test]
fn empty_lobby_is_unbuildable() {
    let lobby = Lobby::new(NumeroJugadores::Dos, 30);
    assert_eq!(lobby.admitted(), 0);
    assert_eq!(lobby.target(), NumeroJugadores::Dos);
    assert_eq!(lobby.finalize().err(), Some(LobbyError::Unbuildable));
}

#[test]
fn builder_buildable_only_at_two_four_six() {
    let mut builder = BuilderCount::Cero(TableBuilder::new(30));
    let mut buildable = vec![builder.can_build()];
    for i in 0..6 {
        builder = builder.add_player(&format!("p{}", i));
        assert_eq!(builder.len(), i + 1);
        buildable.push(builder.can_build());
    }
    assert_eq!(buildable, vec![false, false, true, false, true, false, true]);
    let table = builder.build();
    assert_eq!(names(&table), vec!["p0", "p1", "p2", "p3", "p4", "p5"]);
}

#[test]
fn builder_of_two_builds_in_order() {
    let table = BuilderCount::new(21).add_player("Ana").add_player("Beto").build();
    assert_eq!(names(&table), vec!["Ana", "Beto"]);
    assert_eq!(table.hasta(), 21);
}

#[test]
fn target_counts() {
    assert_eq!(NumeroJugadores::Dos.count(), 2);
    assert_eq!(NumeroJugadores::Cuatro.count(), 4);
    assert_eq!(NumeroJugadores::Seis.count(), 6);
}

#[test]
fn status_message_digits() {
    assert_eq!(status_message(1, 2), b"1/2".to_vec());
    assert_eq!(status_message(0, 0), b"0/0".to_vec());
    assert_eq!(status_message(10, 255), b"10/255".to_vec());
    assert_eq!(status_message(u64::MAX, 6), format!("{}/6", u64::MAX).into_bytes());
}

#[test]
fn name_is_decoded_verbatim() {
    let mut buffer = [0u8; NAME_BUFFER_LEN];
    buffer[..6].copy_from_slice(b" Ana\r\n");
    assert_eq!(name_from_bytes(&buffer, 6), " Ana\r\n");
    assert_eq!(name_from_bytes(&buffer, 0), "");
}

#[test]
fn invalid_bytes_become_replacement_characters() {
    let buffer = [b'A', 0xff, b'B', 0xe2, 0x82];
    assert_eq!(name_from_bytes(&buffer, 5), "A\u{FFFD}B\u{FFFD}");
    assert_eq!(name_from_bytes(&buffer, 3), "A\u{FFFD}B");
    let utf8 = "Iñaki".as_bytes();
    assert_eq!(name_from_bytes(utf8, utf8.len()), "Iñaki");
}

#[test]
fn authenticate_outcomes() {
    let buffer = b"Beto....";
    assert_eq!(authenticate(true, Some(4), buffer), Ok("Beto".to_string()));
    assert_eq!(authenticate(false, Some(4), buffer), Err(AuthError::PromptWrite));
    assert_eq!(authenticate(false, None, buffer), Err(AuthError::PromptWrite));
    assert_eq!(authenticate(true, None, buffer), Err(AuthError::Read));
    assert_eq!(NAME_PROMPT, "Enter Name");
}
