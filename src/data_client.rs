//! The local identity: the stored profile and the public key derived from
//! its private key.

use vstd::prelude::*;
use vstd::utf8::{decode_utf8, decode_utf8_encode_utf8, encode_utf8, valid_utf8};

use crate::signing::{
    generate_private_pem, public_pem_from_private, public_pem_of, sign, signature_matches,
    signature_text, string_from_utf8, text_view, verify,
};
use crate::utils::DatabaseFile;

verus! {

/// The profile's alias, private key, saved aliases, and the public key PEM.
pub struct IdentityModel {
    pub alias: Seq<char>,
    pub private_key: Seq<char>,
    pub saved_aliases: Seq<(Seq<char>, Seq<char>)>,
    pub public_pem: Seq<char>,
}

/// The local identity. `public_pem` is the PEM of the public half of the
/// profile's private key.
pub struct DataClient {
    pub database_file: DatabaseFile,
    pub public_pem: String,
}

impl View for DataClient {
    type V = IdentityModel;

    open spec fn view(&self) -> IdentityModel {
        IdentityModel {
            alias: self.database_file.alias@,
            private_key: self.database_file.private_key@,
            saved_aliases: self.database_file.saved_aliases@.map_values(
                |p: (String, String)| (p.0@, p.1@),
            ),
            public_pem: self.public_pem@,
        }
    }
}

/// The public key PEM text that belongs to a private key PEM text, if
/// openssl reads the key and writes its public half as UTF-8.
pub open spec fn public_text_of(private_key: Seq<char>) -> Option<Seq<char>> {
    match public_pem_of(encode_utf8(private_key)) {
        Some(pem) => if valid_utf8(pem) {
            Some(decode_utf8(pem))
        } else {
            None
        },
        None => None,
    }
}

impl DataClient {
    /// The public key is the one that belongs to the private key.
    pub open spec fn wf(&self) -> bool {
        public_text_of(self@.private_key) == Some(self@.public_pem)
    }

    /// Whether a stored profile's private key is usable.
    pub open spec fn new_ok(database_file: DatabaseFile) -> bool {
        public_text_of(database_file.private_key@) is Some
    }

    /// The identity of a stored profile; none if its private key is unusable.
    pub fn new(database_file: DatabaseFile) -> (r: Option<DataClient>)
        ensures
            r is Some <==> DataClient::new_ok(database_file),
            r matches Some(c) ==> c.wf() && c.database_file == database_file,
    {
        let pem = match public_pem_from_private(database_file.private_key.as_str().as_bytes()) {
            Some(pem) => pem,
            None => return None,
        };
        match string_from_utf8(pem) {
            Some(public_pem) => Some(DataClient { database_file, public_pem }),
            None => None,
        }
    }

    /// The profile for a private key PEM: the alias "Guest" and no saved
    /// aliases; none if the PEM is not UTF-8 text.
    pub fn profile_from_pem(pem: Vec<u8>) -> (r: Option<DatabaseFile>)
        ensures
            r is Some <==> valid_utf8(pem@),
            r matches Some(f) ==> f.private_key@ == decode_utf8(pem@) && f.alias@ == "Guest"@
                && f.saved_aliases@.len() == 0,
    {
        match string_from_utf8(pem) {
            Some(private_key) => Some(
                DatabaseFile {
                    alias: String::from_str("Guest"),
                    private_key,
                    saved_aliases: Vec::new(),
                },
            ),
            None => None,
        }
    }

    /// A fresh profile: a newly generated private key, the alias "Guest" and
    /// no saved aliases. None if no key could be made.
    pub fn generate_profile() -> (r: Option<DatabaseFile>)
        ensures
            r matches Some(f) ==> f.alias@ == "Guest"@ && f.saved_aliases@.len() == 0
                && DataClient::new_ok(f),
    {
        let pem = match generate_private_pem() {
            Some(pem) => pem,
            None => return None,
        };
        let ghost bytes = pem@;
        let r = DataClient::profile_from_pem(pem);
        proof {
            if r is Some {
                decode_utf8_encode_utf8(bytes);
            }
        }
        r
    }

    /// Sets the alias; the rest of the identity stays.
    pub fn change_alias(&mut self, new_alias: String)
        ensures
            final(self)@ == (IdentityModel { alias: new_alias@, ..old(self)@ }),
            old(self).wf() ==> final(self).wf(),
    {
        self.database_file.alias = new_alias;
    }

    /// The PEM text of the public key.
    pub fn pubkey(&self) -> (r: String)
        ensures
            r@ == self@.public_pem,
    {
        self.public_pem.clone()
    }

    /// The base64 signature of `message` sent at `timestamp`, made with the
    /// profile's private key.
    pub fn signature(&self, message: &String, timestamp: &u64) -> (r: Option<String>)
        ensures
            text_view(r) == signature_text(encode_utf8(self@.private_key), message@, *timestamp),
    {
        sign(self.database_file.private_key.as_str().as_bytes(), message.as_str(), *timestamp)
    }

    /// Whether `signature` is the signature of `message` sent at `timestamp`
    /// by the holder of the public key in `pubkey`.
    pub fn try_verify(message: &String, timestamp: &u64, signature: &String, pubkey: &Vec<u8>) -> (r:
        bool)
        ensures
            r == signature_matches(pubkey@, message@, *timestamp, signature@),
    {
        verify(pubkey.as_slice(), message.as_str(), *timestamp, signature.as_str())
    }
}

} // verus!
