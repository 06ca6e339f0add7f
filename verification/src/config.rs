//! User configuration, authentication errors, and the lyrics provider's
//! response handling.

use crate::chars::string_chars;
use crate::model::Device;
use vstd::prelude::*;

verus! {

/// How the player pane renders artwork: as ASCII art, or through a
/// true-pixel terminal protocol.
#[derive(Debug, Clone, Copy, PartialEq, Eq, Structural)]
pub enum ImageKind {
    Ascii,
    Image,
}

/// The service credentials and runtime choices the application starts with.
pub struct Config {
    pub client_id: String,
    pub client_secret: String,
    pub port: Option<u16>,
    pub player_image_kind: ImageKind,
    pub device_id: Option<String>,
}

/// The fallback port of the authentication redirect listener.
pub const DEFAULT_PORT: u16 = 8888;

impl Config {
    /// The configured port, or the fallback.
    pub open spec fn spec_port(&self) -> u16 {
        match self.port {
            Some(p) => p,
            None => DEFAULT_PORT,
        }
    }

    /// A configuration from the values read at startup; no device is chosen
    /// yet.
    pub fn new(
        client_id: String,
        client_secret: String,
        port: Option<u16>,
        player_image_kind: ImageKind,
    ) -> (r: Config)
        ensures
            r.client_id == client_id,
            r.client_secret == client_secret,
            r.port == port,
            r.player_image_kind == player_image_kind,
            r.device_id is None,
    {
        Config { client_id, client_secret, port, player_image_kind, device_id: None }
    }

    /// Remembers the first of the available devices as the default.
    pub fn set_default_device(&mut self, devices: Vec<Device>)
        ensures
            final(self).device_id == (if devices@.len() > 0 {
                Some(devices@[0].id)
            } else {
                old(self).device_id
            }),
            final(self).client_id == old(self).client_id,
            final(self).client_secret == old(self).client_secret,
            final(self).port == old(self).port,
            final(self).player_image_kind == old(self).player_image_kind,
    {
        let mut devices = devices;
        if devices.len() > 0 {
            let dev = devices.remove(0);
            self.device_id = Some(dev.id);
        }
    }

    /// The configured port, or the fallback.
    #[verifier::when_used_as_spec(spec_port)]
    pub fn get_port(&self) -> (r: u16)
        ensures
            r == self.spec_port(),
    {
        match self.port {
            Some(p) => p,
            None => DEFAULT_PORT,
        }
    }

    /// The local callback address the authentication flow redirects to.
    pub fn get_redirect_uri(&self) -> (r: String)
        ensures
            r@ == "http://localhost:"@ + crate::format::spec_decimal(self.get_port() as nat)
                + "/callback"@,
    {
        let mut s = String::new();
        s.append("http://localhost:");
        let port = crate::format::u32_to_string(self.get_port() as u32);
        s.append(port.as_str());
        s.append("/callback");
        proof {
            assert(s@ =~= "http://localhost:"@ + crate::format::spec_decimal(
                self.get_port() as nat,
            ) + "/callback"@);
        }
        s
    }
}

/// What can go wrong before the event loop starts: finding the
/// configuration directory, reading input, or the authentication flow. The
/// carried text is the underlying error's message.
#[derive(Debug)]
pub enum AuthError {
    ConfigDir,
    InputError(String),
    OAuthConfig(String),
    Authentication(String),
    Io(String),
}

/// The token cache file inside the configuration directory.
pub fn token_cache_path(config_dir: &str) -> (r: String)
    ensures
        r@ == config_dir@ + "/token_cache.json"@,
{
    let mut s = String::new();
    s.append(config_dir);
    s.append("/token_cache.json");
    proof {
        assert(s@ =~= config_dir@ + "/token_cache.json"@);
    }
    s
}

/// The credentials file inside the configuration directory.
pub fn credentials_path(config_dir: &str) -> (r: String)
    ensures
        r@ == config_dir@ + "/credentials.txt"@,
{
    let mut s = String::new();
    s.append(config_dir);
    s.append("/credentials.txt");
    proof {
        assert(s@ =~= config_dir@ + "/credentials.txt"@);
    }
    s
}

/// What the lyrics provider answers a search with.
pub struct SearchResponse {
    pub plain_lyrics: Option<String>,
    pub synced_lyrics: Option<String>,
}

/// What can go wrong fetching lyrics. The carried text is the transport or
/// parsing error's message.
#[derive(Debug)]
pub enum Error {
    Client(String),
    Parse(String),
    NotFound,
}

/// The lyric text to show from a provider response, and whether it is
/// time-coded: the synced text when the provider has any, else the plain
/// text; no usable text at all is the not-found signal.
pub fn lyrics_from_response(response: SearchResponse) -> (r: Result<(String, bool), Error>)
    ensures
        ({
            let has_synced = response.synced_lyrics matches Some(s) && s@.len() > 0;
            let has_lyrics = has_synced || response.plain_lyrics is Some;
            match r {
                Ok((text, is_synced)) => {
                    &&& has_lyrics
                    &&& is_synced == (response.synced_lyrics is Some)
                    &&& text@ == (if response.synced_lyrics is Some {
                        response.synced_lyrics->0@
                    } else {
                        response.plain_lyrics->0@
                    })
                },
                Err(e) => e is NotFound && !has_lyrics,
            }
        }),
{
    let has_synced = match &response.synced_lyrics {
        Some(s) => s.as_str().unicode_len() > 0,
        None => false,
    };
    let has_lyrics = has_synced || matches!(&response.plain_lyrics, Some(_));
    if !has_lyrics {
        return Err(Error::NotFound);
    }
    match response.synced_lyrics {
        Some(s) => Ok((s, true)),
        None => match response.plain_lyrics {
            Some(p) => Ok((p, false)),
            None => Err(Error::NotFound),
        },
    }
}

/// The first hyphen of the text, or its length when it has none.
pub open spec fn spec_find_hyphen(s: Seq<char>) -> nat
    decreases s.len(),
{
    if s.len() == 0 {
        0
    } else if s[0] == '-' {
        0
    } else {
        1 + spec_find_hyphen(s.drop_first())
    }
}

/// The track title up to its first hyphen: what the provider is queried
/// with, so that version suffixes do not spoil the search.
pub fn primary_title(name: &str) -> (r: String)
    ensures
        r@ == name@.subrange(0, spec_find_hyphen(name@) as int),
{
    let cs = string_chars(name);
    let ghost whole = name@;
    let mut i: usize = 0;
    proof {
        assert(whole.subrange(0, whole.len() as int) =~= whole);
    }
    while i < cs.len() && cs[i] != '-'
        invariant
            i <= whole.len(),
            cs@ == whole,
            spec_find_hyphen(whole) == i + spec_find_hyphen(
                whole.subrange(i as int, whole.len() as int),
            ),
        decreases whole.len() - i,
    {
        proof {
            assert(whole.subrange(i as int, whole.len() as int).drop_first() =~= whole.subrange(
                i + 1 as int,
                whole.len() as int,
            ));
        }
        i += 1;
    }
    proof {
        if i < whole.len() {
            assert(spec_find_hyphen(whole.subrange(i as int, whole.len() as int)) == 0);
        } else {
            assert(whole.subrange(i as int, whole.len() as int) =~= Seq::<char>::empty());
        }
        assert(spec_find_hyphen(whole) == i);
    }
    let prefix = crate::chars::copy_range(&cs, 0, i);
    crate::chars::chars_to_string(&prefix)
}

} // verus!
