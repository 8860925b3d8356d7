//! The `WIFI:` payload built from a network's name, key and encryption.

use vstd::prelude::*;
use vstd::string::StringExecFns;

use crate::escape::{escape_special_characters, escaped};

verus! {

/// The encryption token of a network that asks for no password.
pub open spec fn open_token() -> Seq<char> {
    "nopass"@
}

/// The key as it goes into the payload: nothing for an open network.
pub open spec fn key_field(key: Seq<char>, encryption: Seq<char>) -> Seq<char> {
    if encryption == open_token() {
        Seq::empty()
    } else {
        key
    }
}

/// The payload with the given encryption token and already escaped fields.
pub open spec fn payload(encryption: Seq<char>, ssid: Seq<char>, key: Seq<char>) -> Seq<char> {
    "WIFI:T:"@ + encryption + ";S:"@ + ssid + ";P:"@ + key + ";;"@
}

/// The payload for a network: `WIFI:T:<encryption>;S:<ssid>;P:<key>;;`,
/// with the name and the key escaped and the encryption token taken as it is.
pub open spec fn schema_of(ssid: Seq<char>, key: Seq<char>, encryption: Seq<char>) -> Seq<char> {
    payload(encryption, escaped(ssid), escaped(key_field(key, encryption)))
}

/// The encryption modes that the payload names.
#[derive(Clone, Copy, Debug, PartialEq, Eq, Structural)]
pub enum EncryptionMode {
    Wpa,
    Wep,
    Open,
}

/// The token that stands for `mode` in the payload.
pub open spec fn mode_token(mode: EncryptionMode) -> Seq<char> {
    match mode {
        EncryptionMode::Wpa => "WPA"@,
        EncryptionMode::Wep => "WEP"@,
        EncryptionMode::Open => open_token(),
    }
}

impl EncryptionMode {
    /// The token that stands for this mode in the payload.
    pub fn token(&self) -> (r: String)
        ensures
            r@ == mode_token(*self),
    {
        match self {
            EncryptionMode::Wpa => String::from_str("WPA"),
            EncryptionMode::Wep => String::from_str("WEP"),
            EncryptionMode::Open => String::from_str("nopass"),
        }
    }
}

/// What a network is joined with: its name, its key and its encryption token.
pub struct Config {
    pub ssid: String,
    pub key: String,
    pub encryption: String,
}

impl Config {
    /// A network with the given name, key and encryption token. The token is
    /// taken as it is, so that one this library does not know passes through.
    pub fn new(ssid: String, key: String, encryption: String) -> (r: Config)
        ensures
            r.ssid@ == ssid@,
            r.key@ == key@,
            r.encryption@ == encryption@,
    {
        Config { ssid, key, encryption }
    }

    /// A network whose encryption is one of the known modes.
    pub fn with_mode(ssid: String, key: String, mode: EncryptionMode) -> (r: Config)
        ensures
            r.ssid@ == ssid@,
            r.key@ == key@,
            r.encryption@ == mode_token(mode),
    {
        Config { ssid, key, encryption: mode.token() }
    }
}

/// Builds the `WIFI:` payload for `config`. For an open network the key is
/// left out and never escaped.
pub fn build_schema(config: Config) -> (r: String)
    ensures
        r@ == schema_of(config.ssid@, config.key@, config.encryption@),
{
    let open = String::from_str("nopass");
    let key = if config.encryption == open {
        String::new()
    } else {
        escape_special_characters(config.key.as_str())
    };
    let ssid = escape_special_characters(config.ssid.as_str());
    let mut r = String::from_str("WIFI:T:");
    r.append(config.encryption.as_str());
    r.append(";S:");
    r.append(ssid.as_str());
    r.append(";P:");
    r.append(key.as_str());
    r.append(";;");
    proof {
        assert(escaped(Seq::<char>::empty()) == Seq::<char>::empty());
    }
    r
}

/// For an open network the `P:` field is empty, whatever key was given.
pub proof fn lemma_open_network_has_empty_key(ssid: Seq<char>, key: Seq<char>, other: Seq<char>)
    ensures
        schema_of(ssid, key, open_token()) == payload(open_token(), escaped(ssid), Seq::empty()),
        schema_of(ssid, key, open_token()) == schema_of(ssid, other, open_token()),
{
    assert(escaped(Seq::<char>::empty()) == Seq::<char>::empty());
}

/// For any other encryption token the `P:` field is the escaped key.
pub proof fn lemma_key_is_escaped(ssid: Seq<char>, key: Seq<char>, encryption: Seq<char>)
    requires
        encryption != open_token(),
    ensures
        schema_of(ssid, key, encryption) == payload(encryption, escaped(ssid), escaped(key)),
{
}

} // verus!
