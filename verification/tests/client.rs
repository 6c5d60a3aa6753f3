use hiven::client::has_body;
use hiven::{Client, GateKeeper, State, QUEUE_CAPACITY};

#[test]
fn new_client_has_the_default_hosts() {
    let client = Client::new("T");
    assert_eq!(client.token(), "T");
    assert_eq!(client.api_host(), "api.hiven.io");
    assert_eq!(client.gateway_host(), "swarm-dev.hiven.io");
}

#[test]
fn client_with_hosts_of_its_own() {
    let client = Client::with_hosts("secret", "api.example.org", "swarm.example.org");
    assert_eq!(client.token(), "secret");
    assert_eq!(client.api_host(), "api.example.org");
    assert_eq!(client.gateway_host(), "swarm.example.org");
}

#[test]
fn gateway_url_is_the_socket_path_over_tls() {
    assert_eq!(Client::new("T").gateway_url(), "wss://swarm-dev.hiven.io/socket");
    let client = Client::with_hosts("T", "a.example", "g.example");
    assert_eq!(client.gateway_url(), "wss://g.example/socket");
}

#[test]
fn api_url_is_under_the_first_version() {
    let client = Client::new("T");
    assert_eq!(client.api_url("/rooms/42/messages"), "https://api.hiven.io/v1/rooms/42/messages");
    assert_eq!(client.api_url(""), "https://api.hiven.io/v1");
    let client = Client::with_hosts("T", "a.example", "g.example");
    assert_eq!(client.api_url("/users/@me"), "https://a.example/v1/users/@me");
}

#[test]
fn only_get_goes_without_a_body() {
    assert!(!has_body("GET"));
    assert!(has_body("POST"));
    assert!(has_body("PUT"));
    assert!(has_body("DELETE"));
    assert!(has_body("get"));
    assert!(has_body(""));
}

#[test]
fn queues_hold_five_items() {
    assert_eq!(QUEUE_CAPACITY, 5);
    assert!(QUEUE_CAPACITY >= 1);
}

#[test]
fn a_new_dispatcher_awaits_hello_with_the_clients_token() {
    let client = Client::new("T");
    let keeper = GateKeeper::new(&client);
    assert_eq!(keeper.state(), State::AwaitingHello);
    assert_eq!(keeper.token(), "T");
}

#[test]
fn a_request_with_a_body_has_both_headers() {
    let client = Client::new("T");
    assert_eq!(
        client.headers("POST"),
        vec![
            ("authorization", String::from("T")),
            ("content-type", String::from("application/json"))
        ]
    );
}

#[test]
fn a_get_request_has_the_authorization_alone() {
    let client = Client::with_hosts("secret", "a.example", "g.example");
    assert_eq!(client.headers("GET"), vec![("authorization", String::from("secret"))]);
}
