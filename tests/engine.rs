use pubtrust::data_client::DataClient;
use pubtrust::mqtt_controller::{Effect, MqttController, TransportEvent};
use pubtrust::packets::{decode, encode, Announcement, ChatMessage, Packet};
use pubtrust::registry::PeerRegistry;
use pubtrust::signing::sign;
use pubtrust::utils::{ClientSettings, UIAction, UIMessage};

fn settings() -> ClientSettings {
    ClientSettings {
        host: "localhost".to_string(),
        port: 1883,
        topic: "pubtrust-chat/general".to_string(),
        profile: "/tmp/profile".to_string(),
    }
}

fn engine(alias: &str) -> MqttController {
    let mut profile = DataClient::generate_profile().expect("key generation");
    profile.alias = alias.to_string();
    MqttController::new(settings(), profile).expect("usable key")
}

fn published(effects: &[Effect]) -> Vec<Vec<u8>> {
    effects
        .iter()
        .filter_map(|e| match e {
            Effect::Publish(b) => Some(b.clone()),
            _ => None,
        })
        .collect()
}

fn announcement_bytes(e: &MqttController) -> Vec<u8> {
    encode(&Packet::Announcement(Announcement {
        alias: e.data_client.database_file.alias.clone(),
        pub_key: e.data_client.pubkey(),
    }))
}

/// Lets `a` learn `b`'s identity by the request/announcement exchange.
fn handshake(a: &mut MqttController, b: &mut MqttController) {
    let request = published(&a.start());
    let answer = b.handle_publish_packet(&request[0]);
    let announcement = published(&answer);
    assert!(a.handle_publish_packet(&announcement[0]).is_empty());
}

#[test]
fn announcement_handshake() {
    let mut a = engine("alice");
    let mut b = engine("bob");
    let start = a.start();
    assert_eq!(start.len(), 1);
    let request = published(&start);
    match decode(&request[0]) {
        Ok(Packet::ReqAnnouncement(r)) => assert_eq!(r.version, "1.0.0"),
        _ => panic!("expected a request for announcements"),
    }
    let answer = b.handle_publish_packet(&request[0]);
    assert_eq!(answer.len(), 1);
    let announcement = published(&answer);
    match decode(&announcement[0]) {
        Ok(Packet::Announcement(p)) => {
            assert_eq!(p.alias, "bob");
            assert_eq!(p.pub_key, b.data_client.pubkey());
        }
        _ => panic!("expected an announcement"),
    }
    assert!(a.handle_publish_packet(&announcement[0]).is_empty());
    assert_eq!(a.chat_clients.len(), 1);
    assert_eq!(a.chat_clients.peers[0].alias, "bob");
    assert_eq!(a.chat_clients.peers[0].pubkey, b.data_client.pubkey().into_bytes());
}

#[test]
fn every_request_gets_a_fresh_announcement() {
    let a = engine("alice");
    let mut b = engine("bob");
    let request = published(&a.start());
    assert_eq!(published(&b.handle_publish_packet(&request[0])).len(), 1);
    assert_eq!(published(&b.handle_publish_packet(&request[0])).len(), 1);
}

#[test]
fn authenticated_chat() {
    let mut a = engine("alice");
    let mut b = engine("bob");
    handshake(&mut a, &mut b);
    let sent = b.dispatch_action(UIAction::SendMessage("hello".to_string()), Some(1_700_000_000));
    let packets = published(&sent);
    assert_eq!(packets.len(), 1);
    match decode(&packets[0]) {
        Ok(Packet::ChatMessage(m)) => {
            assert_eq!(m.message, "hello");
            assert_eq!(m.timestamp, 1_700_000_000);
        }
        _ => panic!("expected a chat message"),
    }
    let shown = a.handle_publish_packet(&packets[0]);
    assert_eq!(shown.len(), 1);
    match &shown[0] {
        Effect::Show(UIMessage::Chat(peer, text)) => {
            assert_eq!(peer.alias, "bob");
            assert_eq!(text, "hello");
        }
        _ => panic!("expected a chat event"),
    }
}

#[test]
fn missing_clock_sends_timestamp_zero() {
    let mut b = engine("bob");
    let sent = b.dispatch_action(UIAction::SendMessage("hi".to_string()), None);
    match decode(&published(&sent)[0]) {
        Ok(Packet::ChatMessage(m)) => assert_eq!(m.timestamp, 0),
        _ => panic!("expected a chat message"),
    }
}

#[test]
fn forged_message_is_dropped_silently() {
    let mut a = engine("alice");
    let mut b = engine("bob");
    let mallory = engine("mallory");
    handshake(&mut a, &mut b);
    let sk = mallory.data_client.database_file.private_key.as_bytes().to_vec();
    let forged_sig = sign(&sk, "hello", 5).expect("signature");
    let forged = encode(&Packet::ChatMessage(ChatMessage {
        message: "hello".to_string(),
        signature: forged_sig,
        timestamp: 5,
    }));
    assert!(a.handle_publish_packet(&forged).is_empty());
    let garbage_sig = encode(&Packet::ChatMessage(ChatMessage {
        message: "hello".to_string(),
        signature: "QUJD".to_string(),
        timestamp: 5,
    }));
    assert!(a.handle_publish_packet(&garbage_sig).is_empty());
    assert_eq!(a.chat_clients.len(), 1);
}

#[test]
fn alias_change() {
    let mut b = engine("bob");
    let key = b.data_client.pubkey();
    let effects = b.dispatch_action(UIAction::ChangeAlias("carol".to_string()), Some(1));
    assert_eq!(b.data_client.database_file.alias, "carol");
    assert_eq!(effects.len(), 3);
    assert!(matches!(effects[0], Effect::SaveProfile));
    match &effects[1] {
        Effect::Publish(bytes) => match decode(bytes) {
            Ok(Packet::Announcement(p)) => {
                assert_eq!(p.alias, "carol");
                assert_eq!(p.pub_key, key);
            }
            _ => panic!("expected an announcement"),
        },
        _ => panic!("expected a publish"),
    }
    match &effects[2] {
        Effect::Show(UIMessage::System(text)) => assert_eq!(text, "Restart client to apply changes"),
        _ => panic!("expected a system message"),
    }
    assert_eq!(b.data_client.pubkey(), key);
}

#[test]
fn unsupported_actions_are_reported() {
    let mut b = engine("bob");
    for action in [
        UIAction::ChangeTopic("other".to_string()),
        UIAction::SendDM("abc123".to_string(), "hi".to_string()),
    ] {
        let effects = b.dispatch_action(action, Some(1));
        assert_eq!(effects.len(), 1);
        match &effects[0] {
            Effect::Show(UIMessage::SystemError(text)) => assert_eq!(text, "unimplemented"),
            _ => panic!("expected an error message"),
        }
    }
    assert_eq!(b.data_client.database_file.alias, "bob");
}

#[test]
fn noise_is_dropped() {
    let mut a = engine("alice");
    for payload in [vec![], vec![2u8], vec![7u8, 1, 2], vec![2u8, 0xc1], vec![3u8, 0x90]] {
        assert!(a.handle_publish_packet(&payload).is_empty());
    }
    let bad_key = encode(&Packet::Announcement(Announcement {
        alias: "eve".to_string(),
        pub_key: "not a key".to_string(),
    }));
    assert!(a.handle_publish_packet(&bad_key).is_empty());
    assert_eq!(a.chat_clients.len(), 0);
}

#[test]
fn reannouncement_appends_a_second_peer() {
    let mut a = engine("alice");
    let b = engine("bob");
    let bytes = announcement_bytes(&b);
    a.handle_publish_packet(&bytes);
    a.handle_publish_packet(&bytes);
    assert_eq!(a.chat_clients.len(), 2);
}

#[test]
fn transport_events_become_messages() {
    let a = engine("alice");
    match &a.connected()[0] {
        Effect::Show(UIMessage::System(t)) => {
            assert_eq!(t, "Connected to room \"pubtrust-chat/general\"")
        }
        _ => panic!("expected a system message"),
    }
    match &a.transport_error("refused")[0] {
        Effect::Show(UIMessage::SystemError(t)) => assert_eq!(t, "MQTT Error: refused"),
        _ => panic!("expected an error message"),
    }
    match &a.save_failed("disk full".to_string())[0] {
        Effect::Show(UIMessage::SystemError(t)) => assert_eq!(t, "disk full"),
        _ => panic!("expected an error message"),
    }
}

#[test]
fn attribution_picks_the_signer_in_registration_order() {
    let peers: Vec<MqttController> = vec![engine("ann"), engine("ben"), engine("cat")];
    let mut registry = PeerRegistry::new();
    for p in &peers {
        registry.register(p.data_client.database_file.alias.clone(), p.data_client.pubkey().into_bytes());
    }
    for (p, alias) in peers.iter().zip(["ann", "ben", "cat"]) {
        let sig = p.data_client.signature(&"msg".to_string(), &77).expect("signature");
        let found = registry.find_sender(&"msg".to_string(), 77, &sig).expect("a sender");
        assert_eq!(found.alias, alias);
    }
    let stranger = engine("stranger");
    let sig = stranger.data_client.signature(&"msg".to_string(), &77).expect("signature");
    assert!(registry.find_sender(&"msg".to_string(), 77, &sig).is_none());
}

#[test]
fn duplicate_key_is_attributed_to_its_first_entry() {
    let p = engine("p");
    let mut registry = PeerRegistry::new();
    registry.register("first".to_string(), p.data_client.pubkey().into_bytes());
    registry.register("second".to_string(), p.data_client.pubkey().into_bytes());
    let sig = p.data_client.signature(&"m".to_string(), &1).expect("signature");
    assert_eq!(registry.find_sender(&"m".to_string(), 1, &sig).unwrap().alias, "first");
}

#[test]
fn transport_events_are_dispatched() {
    let mut a = engine("alice");
    let b = engine("bob");
    assert!(a.handle_packet(TransportEvent::Other).is_empty());
    match &a.handle_packet(TransportEvent::ConnAck)[0] {
        Effect::Show(UIMessage::System(t)) => assert!(t.starts_with("Connected to room")),
        _ => panic!("expected a system message"),
    }
    match &a.handle_packet(TransportEvent::Error("reset".to_string()))[0] {
        Effect::Show(UIMessage::SystemError(t)) => assert_eq!(t, "MQTT Error: reset"),
        _ => panic!("expected an error message"),
    }
    assert!(a.handle_packet(TransportEvent::Publish(announcement_bytes(&b))).is_empty());
    assert_eq!(a.chat_clients.len(), 1);
}
