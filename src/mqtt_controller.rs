//! The protocol engine: from the local identity, the peer registry and one
//! input (a user action, a received payload, a transport event) to the next
//! state and the effects that the caller carries out in order.

use vstd::prelude::*;
use vstd::utf8::encode_utf8;

use crate::data_client::{DataClient, IdentityModel};
use crate::packets::{
    decode, decoding, encode, encoding, Announcement, ChatMessage, Packet, PacketModel,
    ReqAnnouncement,
};
use crate::registry::{first_signer, PeerRegistry};
use crate::signing::{reencode_public_pem, reencoded_public_pem, signature_text};
use crate::utils::{ClientSettings, DatabaseFile, UIAction, UIActionModel, UIMessage, UIMessageModel};

verus! {

/// The protocol version that the engine asks peers to announce under.
pub const PROTOCOL_VERSION: &'static str = "1.0.0";

/// Something for the caller to do.
pub enum Effect {
    /// Publish these bytes on the topic, at least once.
    Publish(Vec<u8>),
    /// Hand this message to the user interface.
    Show(UIMessage),
    /// Write the profile (`data_client.database_file`) back to the store.
    SaveProfile,
}

pub enum EffectModel {
    Publish(Seq<u8>),
    Show(UIMessageModel),
    SaveProfile,
}

impl View for Effect {
    type V = EffectModel;

    open spec fn view(&self) -> EffectModel {
        match self {
            Effect::Publish(b) => EffectModel::Publish(b@),
            Effect::Show(m) => EffectModel::Show(m@),
            Effect::SaveProfile => EffectModel::SaveProfile,
        }
    }
}

pub open spec fn effects_view(v: Seq<Effect>) -> Seq<EffectModel> {
    v.map_values(|e: Effect| e@)
}

/// What the transport reports.
pub enum TransportEvent {
    /// A payload published on the topic.
    Publish(Vec<u8>),
    /// The connection to the broker is established.
    ConnAck,
    /// Any other protocol traffic.
    Other,
    /// The connection failed for good, with the transport's description.
    Error(String),
}

/// The engine's state: the local identity, the announced peers, the topic.
pub struct EngineModel {
    pub identity: IdentityModel,
    pub peers: Seq<(Seq<char>, Seq<u8>)>,
    pub topic: Seq<char>,
}

/// The announcement of an identity: its alias and its public key PEM.
pub open spec fn announcement_of(id: IdentityModel) -> PacketModel {
    PacketModel::Announcement { alias: id.alias, pub_key: id.public_pem }
}

/// The packet that asks listening peers to announce themselves.
pub open spec fn request_packet() -> PacketModel {
    PacketModel::ReqAnnouncement { version: PROTOCOL_VERSION@ }
}

/// What a user action does: sending signs and publishes the message (sent
/// at `now`, or at 0 when the clock gave nothing); changing the alias saves
/// the profile, announces the new alias and asks for a restart; the other
/// actions are reported as unsupported.
pub open spec fn action_step(s: EngineModel, action: UIActionModel, now: Option<u64>) -> (
    EngineModel,
    Seq<EffectModel>,
) {
    match action {
        UIActionModel::SendMessage(message) => {
            let timestamp = match now {
                Some(t) => t,
                None => 0,
            };
            (
                s,
                match signature_text(encode_utf8(s.identity.private_key), message, timestamp) {
                    Some(signature) => seq![
                        EffectModel::Publish(
                            encoding(PacketModel::ChatMessage { message, timestamp, signature }),
                        ),
                    ],
                    None => seq![
                        EffectModel::Show(UIMessageModel::SystemError("Couldn't sign message."@)),
                    ],
                },
            )
        },
        UIActionModel::ChangeAlias(alias) => {
            let identity = IdentityModel { alias, ..s.identity };
            (
                EngineModel { identity, ..s },
                seq![
                    EffectModel::SaveProfile,
                    EffectModel::Publish(encoding(announcement_of(identity))),
                    EffectModel::Show(UIMessageModel::System("Restart client to apply changes"@)),
                ],
            )
        },
        _ => (s, seq![EffectModel::Show(UIMessageModel::SystemError("unimplemented"@))]),
    }
}

/// What a received payload does: a request is answered with this identity's
/// announcement; an announcement whose key openssl reads registers the peer
/// under the key as openssl writes it back; a chat message is shown with the
/// first registered peer whose key its signature matches; anything else,
/// and a chat message that matches no key, is dropped without a word.
pub open spec fn packet_step(s: EngineModel, payload: Seq<u8>) -> (EngineModel, Seq<EffectModel>) {
    match decoding(payload) {
        Ok(PacketModel::ReqAnnouncement { .. }) => (
            s,
            seq![EffectModel::Publish(encoding(announcement_of(s.identity)))],
        ),
        Ok(PacketModel::Announcement { alias, pub_key }) => match reencoded_public_pem(
            encode_utf8(pub_key),
        ) {
            Some(pem) => (EngineModel { peers: s.peers.push((alias, pem)), ..s }, seq![]),
            None => (s, seq![]),
        },
        Ok(PacketModel::ChatMessage { message, timestamp, signature }) => (
            s,
            match first_signer(s.peers, message, timestamp, signature) {
                Some(peer) => seq![EffectModel::Show(UIMessageModel::Chat(peer, message))],
                None => seq![],
            },
        ),
        Err(_) => (s, seq![]),
    }
}

/// The protocol engine for one topic.
pub struct MqttController {
    pub client_settings: ClientSettings,
    pub data_client: DataClient,
    pub chat_clients: PeerRegistry,
}

impl View for MqttController {
    type V = EngineModel;

    open spec fn view(&self) -> EngineModel {
        EngineModel {
            identity: self.data_client@,
            peers: self.chat_clients@,
            topic: self.client_settings.topic@,
        }
    }
}

impl MqttController {
    /// An engine for the settings' topic with the identity of a stored
    /// profile and no known peers; none if the profile's key is unusable.
    pub fn new(client_settings: ClientSettings, database_file: DatabaseFile) -> (r: Option<
        MqttController,
    >)
        ensures
            r is Some <==> DataClient::new_ok(database_file),
            r matches Some(e) ==> e.data_client.wf() && e.data_client.database_file == database_file
                && e@.peers.len() == 0 && e.client_settings == client_settings,
    {
        match DataClient::new(database_file) {
            Some(data_client) => Some(
                MqttController { client_settings, data_client, chat_clients: PeerRegistry::new() },
            ),
            None => None,
        }
    }

    /// The first step once subscribed: ask the peers already listening to
    /// announce themselves.
    pub fn start(&self) -> (r: Vec<Effect>)
        ensures
            effects_view(r@) == seq![EffectModel::Publish(encoding(request_packet()))],
    {
        let packet = Packet::ReqAnnouncement(
            ReqAnnouncement { version: String::from_str(PROTOCOL_VERSION) },
        );
        let mut out: Vec<Effect> = Vec::new();
        out.push(Effect::Publish(encode(&packet)));
        assert(effects_view(out@) =~= seq![EffectModel::Publish(encoding(request_packet()))]);
        out
    }

    fn announcement(&self) -> (r: Effect)
        ensures
            r@ == EffectModel::Publish(encoding(announcement_of(self@.identity))),
    {
        let packet = Packet::Announcement(
            Announcement {
                alias: self.data_client.database_file.alias.clone(),
                pub_key: self.data_client.pubkey(),
            },
        );
        Effect::Publish(encode(&packet))
    }

    /// Carries out a user action; `now` is the time in seconds since the
    /// epoch, if the clock gave one.
    pub fn dispatch_action(&mut self, action: UIAction, now: Option<u64>) -> (r: Vec<Effect>)
        ensures
            (final(self)@, effects_view(r@)) == action_step(old(self)@, action@, now),
            old(self).data_client.wf() ==> final(self).data_client.wf(),
    {
        let mut out: Vec<Effect> = Vec::new();
        match action {
            UIAction::SendMessage(message) => {
                let timestamp: u64 = match now {
                    Some(t) => t,
                    None => 0,
                };
                match self.data_client.signature(&message, &timestamp) {
                    Some(signature) => {
                        let packet = Packet::ChatMessage(
                            ChatMessage { message, signature, timestamp },
                        );
                        out.push(Effect::Publish(encode(&packet)));
                    },
                    None => {
                        out.push(
                            Effect::Show(
                                UIMessage::SystemError(String::from_str("Couldn't sign message.")),
                            ),
                        );
                    },
                }
            },
            UIAction::ChangeAlias(alias) => {
                self.data_client.change_alias(alias);
                out.push(Effect::SaveProfile);
                let announcement = self.announcement();
                out.push(announcement);
                out.push(
                    Effect::Show(
                        UIMessage::System(String::from_str("Restart client to apply changes")),
                    ),
                );
            },
            _ => {
                out.push(Effect::Show(UIMessage::SystemError(String::from_str("unimplemented"))));
            },
        }
        assert(effects_view(out@) =~= action_step(old(self)@, action@, now).1);
        out
    }

    /// The transport's connection is established: tell the user which room
    /// (topic) this is.
    pub fn connected(&self) -> (r: Vec<Effect>)
        ensures
            effects_view(r@) == seq![
                EffectModel::Show(
                    UIMessageModel::System(
                        "Connected to room \""@ + self@.topic + "\""@,
                    ),
                ),
            ],
    {
        let text = String::from_str("Connected to room \"").concat(
            self.client_settings.topic.as_str(),
        ).concat("\"");
        let mut out: Vec<Effect> = Vec::new();
        out.push(Effect::Show(UIMessage::System(text)));
        assert(effects_view(out@) =~= seq![
            EffectModel::Show(UIMessageModel::System("Connected to room \""@ + self@.topic + "\""@)),
        ]);
        out
    }

    /// The transport failed for good: tell the user why. The engine stops.
    pub fn transport_error(&self, error_text: &str) -> (r: Vec<Effect>)
        ensures
            effects_view(r@) == seq![
                EffectModel::Show(UIMessageModel::SystemError("MQTT Error: "@ + error_text@)),
            ],
    {
        let text = String::from_str("MQTT Error: ").concat(error_text);
        let mut out: Vec<Effect> = Vec::new();
        out.push(Effect::Show(UIMessage::SystemError(text)));
        assert(effects_view(out@) =~= seq![
            EffectModel::Show(UIMessageModel::SystemError("MQTT Error: "@ + error_text@)),
        ]);
        out
    }

    /// Saving the profile failed: the in-memory identity stays in force and
    /// the user is told why.
    pub fn save_failed(&self, error_text: String) -> (r: Vec<Effect>)
        ensures
            effects_view(r@) == seq![EffectModel::Show(UIMessageModel::SystemError(error_text@))],
    {
        let ghost text = error_text@;
        let mut out: Vec<Effect> = Vec::new();
        out.push(Effect::Show(UIMessage::SystemError(error_text)));
        assert(effects_view(out@) =~= seq![EffectModel::Show(UIMessageModel::SystemError(text))]);
        out
    }

    /// Handles one transport event: a payload goes to
    /// `handle_publish_packet`, an established connection is announced to
    /// the user, a failure is reported, and other traffic is ignored.
    pub fn handle_packet(&mut self, event: TransportEvent) -> (r: Vec<Effect>)
        ensures
            match event {
                TransportEvent::Publish(payload) => (final(self)@, effects_view(r@)) == packet_step(
                    old(self)@,
                    payload@,
                ),
                TransportEvent::ConnAck => final(self)@ == old(self)@ && effects_view(r@) == seq![
                    EffectModel::Show(
                        UIMessageModel::System("Connected to room \""@ + old(self)@.topic + "\""@),
                    ),
                ],
                TransportEvent::Other => final(self)@ == old(self)@ && r@.len() == 0,
                TransportEvent::Error(e) => final(self)@ == old(self)@ && effects_view(r@) == seq![
                    EffectModel::Show(UIMessageModel::SystemError("MQTT Error: "@ + e@)),
                ],
            },
            final(self).data_client == old(self).data_client,
    {
        match event {
            TransportEvent::Publish(payload) => self.handle_publish_packet(payload.as_slice()),
            TransportEvent::ConnAck => self.connected(),
            TransportEvent::Other => Vec::new(),
            TransportEvent::Error(e) => self.transport_error(e.as_str()),
        }
    }

    /// Handles a payload received on the topic.
    pub fn handle_publish_packet(&mut self, payload: &[u8]) -> (r: Vec<Effect>)
        ensures
            (final(self)@, effects_view(r@)) == packet_step(old(self)@, payload@),
            final(self).data_client == old(self).data_client,
    {
        let mut out: Vec<Effect> = Vec::new();
        match decode(payload) {
            Ok(Packet::ReqAnnouncement(_)) => {
                let announcement = self.announcement();
                out.push(announcement);
            },
            Ok(Packet::Announcement(p)) => {
                match reencode_public_pem(p.pub_key.as_str().as_bytes()) {
                    Some(pem) => self.chat_clients.register(p.alias, pem),
                    None => {},
                }
            },
            Ok(Packet::ChatMessage(p)) => {
                match self.chat_clients.find_sender(&p.message, p.timestamp, &p.signature) {
                    Some(peer) => out.push(Effect::Show(UIMessage::Chat(peer, p.message))),
                    None => {},
                }
            },
            Err(_) => {},
        }
        assert(effects_view(out@) =~= packet_step(old(self)@, payload@).1);
        out
    }
}

} // verus!
