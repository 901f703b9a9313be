use ecosystem::configuration::ApplicationSettings;
use ecosystem::server::{peer_indices, server_address, server_name, FOOD_INTERVAL_SECS};

#[test]
fn server_names() {
    assert_eq!(server_name(1), "organism1");
    assert_eq!(server_name(12), "organism12");
    assert_eq!(server_name(0), "organism0");
}

#[test]
fn server_addresses_shift_the_base_port() {
    let settings = ApplicationSettings { addr_host: "[::1]".to_string(), addr_base_port: 1000 };
    assert_eq!(server_address(&settings, 1), "[::1]:1001");
    assert_eq!(server_address(&settings, 2), "[::1]:1002");
    assert_eq!(server_address(&settings, 0), "[::1]:1000");
}

#[test]
fn peers_are_everyone_else() {
    assert_eq!(peer_indices(4, 2), vec![1, 3, 4]);
    assert_eq!(peer_indices(2, 1), vec![2]);
    assert_eq!(peer_indices(2, 5), vec![1, 2]);
    assert_eq!(peer_indices(0, 1), Vec::<usize>::new());
    assert_eq!(peer_indices(1, 1), Vec::<usize>::new());
}

#[test]
fn food_is_sent_every_two_seconds() {
    assert_eq!(FOOD_INTERVAL_SECS, 2);
}
