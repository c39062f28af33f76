//! The request-building side of the SteelSeries Sonar volume mixer client.
//! Reading its configuration file and sending HTTP requests is the caller's
//! part; this module parses what was read and builds what is sent.
use vstd::prelude::*;

verus! {

/// The string found at JSON pointer `pointer` in the JSON document `text`,
/// if `text` parses and holds a string there.
pub uninterp spec fn json_str_at(text: Seq<char>, pointer: Seq<char>) -> Option<Seq<char>>;

/// The lower-case form of `s`, as Unicode defines it.
pub uninterp spec fn lower_of(s: Seq<char>) -> Seq<char>;

/// Relies on serde_json::from_str (into a serde_json::Value), Value::pointer
/// and Value::as_str: the string at a JSON pointer of a JSON document, which
/// depends on the document and the pointer alone.
#[verifier::external_body]
fn read_json_string(text: &str, pointer: &str) -> (r: Option<String>)
    ensures
        r matches Some(s) ==> json_str_at(text@, pointer@) == Some(s@),
        r is None ==> json_str_at(text@, pointer@) is None,
{
    let value: serde_json::Value = serde_json::from_str(text).ok()?;
    value.pointer(pointer)?.as_str().map(String::from)
}

/// Relies on str::to_lowercase: the result depends on the characters alone.
#[verifier::external_body]
fn lowercase(s: &str) -> (r: String)
    ensures
        r@ == lower_of(s@),
{
    s.to_lowercase()
}

/// Whether two strings hold the same characters.
fn same_text(a: &str, b: &str) -> (r: bool)
    ensures
        r == (a@ == b@),
{
    String::from_str(a) == String::from_str(b)
}

/// Where the configuration file holds the address of the SteelSeries GG
/// server.
pub const CORE_PROPS_ADDRESS_POINTER: &'static str = "/ggEncryptedAddress";

/// Where the sub-apps response holds the address of Sonar's web server.
pub const WEB_SERVER_ADDRESS_POINTER: &'static str = "/subApps/sonar/metadata/webServerAddress";

/// Why a Sonar operation failed.
#[derive(Clone, Copy, Debug, PartialEq, Eq, Structural)]
pub enum SonarError {
    /// The configuration file is not JSON or lacks the server's address.
    InvalidCoreProps,
    /// The sub-apps response is not JSON or lacks the web server's address.
    InvalidSubApps,
    /// The mixer has no channel of that name.
    ChannelNotFound,
    /// The volume is outside 0 to 127.
    InvalidVolume,
}

impl SonarError {
    /// A short description for a notification.
    pub fn message(self) -> (r: &'static str)
        ensures
            r@ == sonar_error_message(self),
    {
        match self {
            SonarError::InvalidCoreProps => "Could not read the SteelSeries GG address",
            SonarError::InvalidSubApps => "Could not read the Sonar web server address",
            SonarError::ChannelNotFound => "Channel not found",
            SonarError::InvalidVolume => "Invalid volume",
        }
    }
}

/// The description of each error.
pub open spec fn sonar_error_message(e: SonarError) -> Seq<char> {
    match e {
        SonarError::InvalidCoreProps => "Could not read the SteelSeries GG address"@,
        SonarError::InvalidSubApps => "Could not read the Sonar web server address"@,
        SonarError::ChannelNotFound => "Channel not found"@,
        SonarError::InvalidVolume => "Invalid volume"@,
    }
}

/// The client's abstract state.
pub struct SonarView {
    pub streamer_mode: bool,
    pub volume_path: Seq<char>,
    pub base_url: Seq<char>,
    pub web_server_address: Seq<char>,
}

/// The client of the Sonar mixer.
#[derive(Debug)]
pub struct Sonar {
    streamer_mode: bool,
    volume_path: String,
    base_url: String,
    web_server_address: String,
}

impl View for Sonar {
    type V = SonarView;

    closed spec fn view(&self) -> SonarView {
        SonarView {
            streamer_mode: self.streamer_mode,
            volume_path: self.volume_path@,
            base_url: self.base_url@,
            web_server_address: self.web_server_address@,
        }
    }
}

/// The path of the volume settings for the mode.
pub open spec fn volume_path_spec(streamer_mode: bool) -> Seq<char> {
    if streamer_mode {
        "/volumeSettings/streamer/monitoring"@
    } else {
        "/volumeSettings/classic"@
    }
}

/// The server's base URL for an address read from the configuration file.
pub open spec fn base_url_spec(gg_encrypted_address: Seq<char>) -> Seq<char> {
    "https://"@ + gg_encrypted_address
}

/// The channels the mixer has.
pub open spec fn sonar_channels() -> Seq<Seq<char>> {
    seq!["master"@, "game"@, "chatRender"@, "media"@, "aux"@, "chatCapture"@]
}

/// The URL of a volume request, without the volume itself, which the
/// caller appends as a decimal fraction of one.
pub open spec fn volume_url_prefix_spec(s: SonarView, channel: Seq<char>) -> Seq<char> {
    s.web_server_address + s.volume_path + "/"@ + channel + "/Volume/"@
}

/// Whether the mixer has a channel named `channel`.
pub fn is_known_channel(channel: &str) -> (r: bool)
    ensures
        r == sonar_channels().contains(channel@),
{
    proof {
        assert(sonar_channels()[0] == "master"@);
        assert(sonar_channels()[1] == "game"@);
        assert(sonar_channels()[2] == "chatRender"@);
        assert(sonar_channels()[3] == "media"@);
        assert(sonar_channels()[4] == "aux"@);
        assert(sonar_channels()[5] == "chatCapture"@);
    }
    same_text(channel, "master") || same_text(channel, "game") || same_text(channel, "chatRender")
        || same_text(channel, "media") || same_text(channel, "aux") || same_text(
        channel,
        "chatCapture",
    )
}

/// Whether a mode read from Sonar's database, already in lower case, is
/// streamer mode.
pub fn is_stream_mode_name(lowered: &str) -> (r: bool)
    ensures
        r == (lowered@ == "stream"@),
{
    same_text(lowered, "stream")
}

/// Whether a mode read from Sonar's database is streamer mode, compared
/// without regard to case.
pub fn is_stream_mode(mode: &str) -> (r: bool)
    ensures
        r == (lower_of(mode@) == "stream"@),
{
    let lowered = lowercase(mode);
    is_stream_mode_name(lowered.as_str())
}

impl Sonar {
    /// A client for the mode, with the server's address read from the
    /// configuration file's contents `core_props`.
    pub fn new(streamer_mode: bool, core_props: &str) -> (r: Result<Sonar, SonarError>)
        ensures
            json_str_at(core_props@, CORE_PROPS_ADDRESS_POINTER@) matches Some(a) ==> (r matches Ok(s)
                && s@ == (SonarView {
                streamer_mode,
                volume_path: volume_path_spec(streamer_mode),
                base_url: base_url_spec(a),
                web_server_address: Seq::empty(),
            })),
            json_str_at(core_props@, CORE_PROPS_ADDRESS_POINTER@) is None ==> r == Err::<
                Sonar,
                SonarError,
            >(SonarError::InvalidCoreProps),
    {
        match read_json_string(core_props, CORE_PROPS_ADDRESS_POINTER) {
            Some(address) => Ok(Sonar::with_address(streamer_mode, address.as_str())),
            None => Err(SonarError::InvalidCoreProps),
        }
    }

    /// A client for the mode, with the server's address already read.
    pub fn with_address(streamer_mode: bool, gg_encrypted_address: &str) -> (r: Sonar)
        ensures
            r@ == (SonarView {
                streamer_mode,
                volume_path: volume_path_spec(streamer_mode),
                base_url: base_url_spec(gg_encrypted_address@),
                web_server_address: Seq::empty(),
            }),
    {
        let volume_path = if streamer_mode {
            String::from_str("/volumeSettings/streamer/monitoring")
        } else {
            String::from_str("/volumeSettings/classic")
        };
        let mut base_url = String::from_str("https://");
        base_url.append(gg_encrypted_address);
        Sonar { streamer_mode, volume_path, base_url, web_server_address: String::new() }
    }

    /// Reads the server's address from the configuration file's contents.
    /// On failure the client is unchanged.
    pub fn load_base_url(&mut self, core_props: &str) -> (r: Result<(), SonarError>)
        ensures
            json_str_at(core_props@, CORE_PROPS_ADDRESS_POINTER@) matches Some(a) ==> r is Ok
                && final(self)@ == (SonarView { base_url: base_url_spec(a), ..old(self)@ }),
            json_str_at(core_props@, CORE_PROPS_ADDRESS_POINTER@) is None ==> r == Err::<
                (),
                SonarError,
            >(SonarError::InvalidCoreProps) && final(self)@ == old(self)@,
    {
        match read_json_string(core_props, CORE_PROPS_ADDRESS_POINTER) {
            Some(address) => {
                self.set_base_address(address.as_str());
                Ok(())
            },
            None => Err(SonarError::InvalidCoreProps),
        }
    }

    /// Points the client at the server with the given address.
    pub fn set_base_address(&mut self, gg_encrypted_address: &str)
        ensures
            final(self)@ == (SonarView { base_url: base_url_spec(gg_encrypted_address@), ..old(self)@ }),
    {
        let mut base_url = String::from_str("https://");
        base_url.append(gg_encrypted_address);
        self.base_url = base_url;
    }

    /// Reads the web server's address from a sub-apps response body. On
    /// failure the client is unchanged.
    pub fn update_web_server_address(&mut self, body: &str) -> (r: Result<(), SonarError>)
        ensures
            json_str_at(body@, WEB_SERVER_ADDRESS_POINTER@) matches Some(a) ==> r is Ok
                && final(self)@ == (SonarView { web_server_address: a, ..old(self)@ }),
            json_str_at(body@, WEB_SERVER_ADDRESS_POINTER@) is None ==> r == Err::<
                (),
                SonarError,
            >(SonarError::InvalidSubApps) && final(self)@ == old(self)@,
    {
        match read_json_string(body, WEB_SERVER_ADDRESS_POINTER) {
            Some(address) => {
                self.web_server_address = address;
                Ok(())
            },
            None => Err(SonarError::InvalidSubApps),
        }
    }

    /// Whether the client works in streamer mode.
    pub fn streamer_mode(&self) -> (r: bool)
        ensures
            r == self@.streamer_mode,
    {
        self.streamer_mode
    }

    /// The server's base URL.
    pub fn base_url(&self) -> (r: &str)
        ensures
            r@ == self@.base_url,
    {
        self.base_url.as_str()
    }

    /// The web server's address, empty until it was read.
    pub fn web_server_address(&self) -> (r: &str)
        ensures
            r@ == self@.web_server_address,
    {
        self.web_server_address.as_str()
    }

    /// The URL that lists the sub-apps, among them Sonar's web server.
    pub fn sub_apps_url(&self) -> (r: String)
        ensures
            r@ == self@.base_url + "/subApps"@,
    {
        let mut url = String::from_str(self.base_url.as_str());
        url.append("/subApps");
        url
    }

    /// Checks a volume request and builds its URL, all but the volume. The
    /// channel must be one the mixer has, and `level`, the volume in 127ths,
    /// at most 127.
    pub fn volume_url_prefix(&self, channel: &str, level: u8) -> (r: Result<String, SonarError>)
        ensures
            !sonar_channels().contains(channel@) ==> r == Err::<String, SonarError>(
                SonarError::ChannelNotFound,
            ),
            sonar_channels().contains(channel@) && level > 127 ==> r == Err::<String, SonarError>(
                SonarError::InvalidVolume,
            ),
            sonar_channels().contains(channel@) && level <= 127 ==> (r matches Ok(url) && url@
                == volume_url_prefix_spec(self@, channel@)),
    {
        if !is_known_channel(channel) {
            return Err(SonarError::ChannelNotFound);
        }
        if level > 127 {
            return Err(SonarError::InvalidVolume);
        }
        let mut url = String::from_str(self.web_server_address.as_str());
        url.append(self.volume_path.as_str());
        url.append("/");
        url.append(channel);
        url.append("/Volume/");
        Ok(url)
    }
}

} // verus!
