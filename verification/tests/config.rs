use tictactoe::Backend;
use tictactoe::Config;
use tictactoe::GameUpdateRequest;

#[test]
fn address_is_localhost_and_port() {
    let config = Config { port: "3000".to_string(), storage_path: "_gamedata".to_string() };
    assert_eq!(config.get_address(), "localhost:3000");
}

#[test]
fn address_follows_the_configured_port() {
    let config = Config { port: "8080".to_string(), storage_path: "_gamedata".to_string() };
    assert_eq!(config.get_address(), "localhost:8080");
}

#[test]
fn update_request_carries_player_and_optional_move() {
    let start = GameUpdateRequest { move_position: None, player_id: "p1".to_string() };
    assert!(start.move_position.is_none());
    assert_eq!(start.player_id, "p1");
    let update = GameUpdateRequest { move_position: Some(5), player_id: "p1".to_string() };
    assert_eq!(update.move_position, Some(5));
    assert!(matches!(Backend::LocalJson, Backend::LocalJson));
}
