use footsteps::gossip::{origin_label, proof_message, Inbound, NodeAnnouncer, P2PMessage};
use footsteps::input::{key_event, key_from_name};
use footsteps::movement::KeyInput;
use footsteps::state::{GameState, Status};

fn s(t: &str) -> String {
    t.to_string()
}

#[test]
fn origin_label_appends_player() {
    assert_eq!(origin_label(&s("alice")), "alice-player");
    assert_eq!(origin_label(&s("")), "-player");
}

#[test]
fn own_proof_is_ignored() {
    let mut st = GameState::new();
    let msg = proof_message(&s("alice"), 7u8, [1; 8]);
    assert_eq!(st.receive(&s("alice"), &msg), Inbound::Ignore);
    assert_eq!(st.status, Status::Waiting);
}

#[test]
fn remote_proof_is_verified() {
    let mut st = GameState::new();
    let msg = proof_message(&s("bob"), 7u8, [2; 8]);
    match &msg {
        P2PMessage::Proof { player_id, receipt, image_id } => {
            assert_eq!(player_id, "bob-player");
            assert_eq!(*receipt, 7u8);
            assert_eq!(*image_id, [2; 8]);
        }
        _ => panic!("not a proof"),
    }
    assert_eq!(st.receive(&s("alice"), &msg), Inbound::Verify);
    assert_eq!(st.status, Status::Verifying);
}

#[test]
fn node_with_prefix_name_is_not_self() {
    let mut st = GameState::new();
    let msg = proof_message(&s("node2"), (), [0; 8]);
    assert_eq!(st.receive(&s("node"), &msg), Inbound::Verify);
}

#[test]
fn other_envelopes_leave_state_alone() {
    let mut st = GameState::new();
    let joined: P2PMessage<()> = P2PMessage::PlayerJoined { player_id: s("b-player"), name: s("b") };
    let left: P2PMessage<()> = P2PMessage::PlayerLeft { player_id: s("b-player") };
    let info: P2PMessage<()> = P2PMessage::NodeInfo { node_id: s("12D3"), name: s("b"), custom_url: s("") };
    assert_eq!(st.receive(&s("a"), &joined), Inbound::Joined);
    assert_eq!(st.receive(&s("a"), &left), Inbound::Left);
    assert_eq!(st.receive(&s("a"), &info), Inbound::Announced);
    assert_eq!(st.status, Status::Waiting);
}

#[test]
fn announcer_retries_until_one_publish_succeeds() {
    let mut a = NodeAnnouncer::new();
    assert!(a.should_attempt());
    a.record_attempt(false);
    assert!(a.should_attempt());
    a.record_attempt(true);
    assert!(!a.should_attempt());
    a.record_attempt(false);
    assert!(!a.should_attempt());
}

#[test]
fn key_names_map_to_inputs() {
    assert_eq!(key_from_name("up"), KeyInput::Up);
    assert_eq!(key_from_name("down"), KeyInput::Down);
    assert_eq!(key_from_name("left"), KeyInput::Left);
    assert_eq!(key_from_name("right"), KeyInput::Right);
    assert_eq!(key_from_name("test"), KeyInput::TestConstraint);
    assert_eq!(key_from_name("space"), KeyInput::NoMove);
    assert_eq!(key_from_name("Up"), KeyInput::NoMove);
    assert_eq!(key_from_name(""), KeyInput::NoMove);
}

#[test]
fn only_key_press_messages_carry_input() {
    assert_eq!(key_event("key_press", Some("left")), Some(KeyInput::Left));
    assert_eq!(key_event("key_press", Some("jump")), Some(KeyInput::NoMove));
    assert_eq!(key_event("key_press", None), None);
    assert_eq!(key_event("chat", Some("up")), None);
}
