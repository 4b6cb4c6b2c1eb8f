//! The data that passes between the protocol engine, the user interface and
//! the profile store.

use vstd::prelude::*;

use crate::signing::{fingerprint, public_key_fingerprint, text_view};

verus! {

/// A peer known from an announcement: its alias and the PEM of its public key.
pub struct ChatClient {
    pub alias: String,
    pub pubkey: Vec<u8>,
}

impl View for ChatClient {
    type V = (Seq<char>, Seq<u8>);

    open spec fn view(&self) -> (Seq<char>, Seq<u8>) {
        (self.alias@, self.pubkey@)
    }
}

impl Clone for ChatClient {
    fn clone(&self) -> (r: ChatClient)
        ensures
            r@ == self@,
    {
        ChatClient { alias: self.alias.clone(), pubkey: self.pubkey.clone() }
    }
}

impl ChatClient {
    /// The short display fingerprint of this peer's public key.
    pub fn get_pubkey_hash(&self) -> (r: Option<String>)
        ensures
            text_view(r) == Some(fingerprint(self.pubkey@)),
            r matches Some(s) ==> s@.len() == 6,
    {
        Some(public_key_fingerprint(self.pubkey.as_slice()))
    }
}

/// What the engine hands to the user interface.
pub enum UIMessage {
    System(String),
    SystemError(String),
    Chat(ChatClient, String),
    DM(ChatClient, ChatClient, String),
}

/// What a message to the user interface holds, as mathematical values.
pub enum UIMessageModel {
    System(Seq<char>),
    SystemError(Seq<char>),
    Chat((Seq<char>, Seq<u8>), Seq<char>),
    DM((Seq<char>, Seq<u8>), (Seq<char>, Seq<u8>), Seq<char>),
}

impl View for UIMessage {
    type V = UIMessageModel;

    open spec fn view(&self) -> UIMessageModel {
        match self {
            UIMessage::System(m) => UIMessageModel::System(m@),
            UIMessage::SystemError(m) => UIMessageModel::SystemError(m@),
            UIMessage::Chat(c, m) => UIMessageModel::Chat(c@, m@),
            UIMessage::DM(a, b, m) => UIMessageModel::DM(a@, b@, m@),
        }
    }
}

/// A user-interface command and what it does, for the help listing.
#[derive(Clone, Debug)]
pub struct UIHelpCommand {
    pub name: String,
    pub description: String,
}

/// What the user asks the engine to do.
#[derive(Debug)]
pub enum UIAction {
    ChangeAlias(String),
    ChangeTopic(String),
    SendMessage(String),
    SendDM(String, String),
}

/// What a user action holds, as mathematical values.
pub enum UIActionModel {
    ChangeAlias(Seq<char>),
    ChangeTopic(Seq<char>),
    SendMessage(Seq<char>),
    SendDM(Seq<char>, Seq<char>),
}

impl View for UIAction {
    type V = UIActionModel;

    open spec fn view(&self) -> UIActionModel {
        match self {
            UIAction::ChangeAlias(a) => UIActionModel::ChangeAlias(a@),
            UIAction::ChangeTopic(t) => UIActionModel::ChangeTopic(t@),
            UIAction::SendMessage(m) => UIActionModel::SendMessage(m@),
            UIAction::SendDM(to, m) => UIActionModel::SendDM(to@, m@),
        }
    }
}

/// The stored profile: alias, private key (PEM text) and saved aliases as
/// ordered (key, value) pairs.
pub struct DatabaseFile {
    pub alias: String,
    pub private_key: String,
    pub saved_aliases: Vec<(String, String)>,
}

/// Where to connect, which topic to chat on, and where the profile lives.
#[derive(Clone, Debug)]
pub struct ClientSettings {
    pub host: String,
    pub port: u16,
    pub topic: String,
    pub profile: String,
}

} // verus!
