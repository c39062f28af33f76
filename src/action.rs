//! The side effects the router asks its collaborators to perform.
use vstd::prelude::*;
use crate::layout::Layout;
use crate::profile::{Profile, profile_name_spec};

verus! {

/// A key that the key emitter can press, release or click.
#[derive(Clone, Copy, Debug, PartialEq, Eq, Structural)]
pub enum KeyCode {
    Char(char),
    Alt,
    MediaPrevTrack,
    MediaPlayPause,
    MediaNextTrack,
}

/// How a key is emitted.
#[derive(Clone, Copy, Debug, PartialEq, Eq, Structural)]
pub enum KeyDirection {
    Press,
    Release,
    Click,
}

/// A volume channel of the volume controller.
#[derive(Clone, Copy, Debug, PartialEq, Eq, Structural)]
pub enum VolumeChannel {
    Master,
    Game,
    Chat,
    Media,
}

/// An application that can be launched.
#[derive(Clone, Copy, Debug, PartialEq, Eq, Structural)]
pub enum App {
    Terminal,
    VsCode,
    SteelSeriesGg,
    Tidal,
}

/// A web page that can be opened.
#[derive(Clone, Copy, Debug, PartialEq, Eq, Structural)]
pub enum Site {
    HoyoLab,
    TeyvatMap,
    ZenlessWiki,
}

/// A notification shown to the user.
#[derive(Clone, Copy, Debug, PartialEq, Eq, Structural)]
pub enum Notice {
    /// The active profile changed to the given one.
    ProfileChanged(Profile),
    /// The active layout changed to the given one.
    LayoutChanged(Layout),
}

/// One side effect for a collaborator.
#[derive(Clone, Copy, Debug, PartialEq, Eq, Structural)]
pub enum Action {
    /// Emit a key through the key emitter.
    Key { key: KeyCode, direction: KeyDirection },
    /// Set a channel's volume to `level / 127`.
    SetVolume { channel: VolumeChannel, level: u8 },
    /// Launch an application.
    Launch { app: App },
    /// Open a web page in the browser.
    OpenUrl { site: Site },
    /// Notify the user.
    Notify { notice: Notice },
}

/// The name of each channel.
pub open spec fn volume_channel_name_spec(c: VolumeChannel) -> Seq<char> {
    match c {
        VolumeChannel::Master => "master"@,
        VolumeChannel::Game => "game"@,
        VolumeChannel::Chat => "chat"@,
        VolumeChannel::Media => "media"@,
    }
}

/// The name of each channel in the Sonar mixer.
pub open spec fn sonar_channel_name_spec(c: VolumeChannel) -> Seq<char> {
    match c {
        VolumeChannel::Master => "master"@,
        VolumeChannel::Game => "game"@,
        VolumeChannel::Chat => "chatRender"@,
        VolumeChannel::Media => "media"@,
    }
}

impl VolumeChannel {
    /// The channel's name: "master", "game", "chat" or "media".
    pub fn name(self) -> (r: &'static str)
        ensures
            r@ == volume_channel_name_spec(self),
    {
        match self {
            VolumeChannel::Master => "master",
            VolumeChannel::Game => "game",
            VolumeChannel::Chat => "chat",
            VolumeChannel::Media => "media",
        }
    }

    /// The channel's name in the Sonar mixer, where chat is "chatRender".
    pub fn sonar_name(self) -> (r: &'static str)
        ensures
            r@ == sonar_channel_name_spec(self),
    {
        match self {
            VolumeChannel::Master => "master",
            VolumeChannel::Game => "game",
            VolumeChannel::Chat => "chatRender",
            VolumeChannel::Media => "media",
        }
    }
}

/// The executable path of an application for the user named `user`.
pub open spec fn app_path_spec(app: App, user: Seq<char>) -> Seq<char> {
    match app {
        App::Terminal => "C:\\Program Files\\WindowsApps\\Microsoft.WindowsTerminalPreview_1.20.10822.0_x64__8wekyb3d8bbwe\\WindowsTerminal.exe"@,
        App::VsCode => "C:\\Users\\"@ + user
            + "\\AppData\\Local\\Programs\\Microsoft VS Code\\Code.exe"@,
        App::SteelSeriesGg => "C:\\Program Files\\SteelSeries\\GG"@,
        App::Tidal => "C:\\Users\\"@ + user + "\\AppData\\Local\\TIDAL\\TIDAL.exe"@,
    }
}

impl App {
    /// The path to launch, for the user named `user` (resolved once at
    /// start-up by the caller).
    pub fn path(self, user: &str) -> (r: String)
        ensures
            r@ == app_path_spec(self, user@),
    {
        match self {
            App::Terminal => String::from_str(
                "C:\\Program Files\\WindowsApps\\Microsoft.WindowsTerminalPreview_1.20.10822.0_x64__8wekyb3d8bbwe\\WindowsTerminal.exe",
            ),
            App::VsCode => {
                let mut p = String::from_str("C:\\Users\\");
                p.append(user);
                p.append("\\AppData\\Local\\Programs\\Microsoft VS Code\\Code.exe");
                p
            },
            App::SteelSeriesGg => String::from_str("C:\\Program Files\\SteelSeries\\GG"),
            App::Tidal => {
                let mut p = String::from_str("C:\\Users\\");
                p.append(user);
                p.append("\\AppData\\Local\\TIDAL\\TIDAL.exe");
                p
            },
        }
    }
}

/// The address of each page.
pub open spec fn site_url_spec(site: Site) -> Seq<char> {
    match site {
        Site::HoyoLab => "https://www.hoyolab.com/"@,
        Site::TeyvatMap => "https://act.hoyolab.com/ys/app/interactive-map/index.html?bbs_presentation_style=no_header&utm_id=2&utm_medium=tool&utm_source=hoyolab&bbs_theme=dark&bbs_theme_device=1&lang=en-us#/map/2?shown_types=&center=2008.50,-1084.00&zoom=-3.00"@,
        Site::ZenlessWiki => "https://zenless-zone-zero.fandom.com/wiki/Zenless_Zone_Zero"@,
    }
}

impl Site {
    /// The page's address.
    pub fn url(self) -> (r: &'static str)
        ensures
            r@ == site_url_spec(self),
    {
        match self {
            Site::HoyoLab => "https://www.hoyolab.com/",
            Site::TeyvatMap => "https://act.hoyolab.com/ys/app/interactive-map/index.html?bbs_presentation_style=no_header&utm_id=2&utm_medium=tool&utm_source=hoyolab&bbs_theme=dark&bbs_theme_device=1&lang=en-us#/map/2?shown_types=&center=2008.50,-1084.00&zoom=-3.00",
            Site::ZenlessWiki => "https://zenless-zone-zero.fandom.com/wiki/Zenless_Zone_Zero",
        }
    }
}

/// The title of each notification.
pub open spec fn notice_title_spec(n: Notice) -> Seq<char> {
    match n {
        Notice::ProfileChanged(_) => "Profile Changed"@,
        Notice::LayoutChanged(_) => "Music Layout Change"@,
    }
}

/// The text of each notification.
pub open spec fn notice_body_spec(n: Notice) -> Seq<char> {
    match n {
        Notice::ProfileChanged(p) => profile_name_spec(p) + " profile is now active."@,
        Notice::LayoutChanged(Layout::Complete) => "Toggled to Layout 1: Complete"@,
        Notice::LayoutChanged(Layout::Lows) => "Toggled to Layout 2: Lows"@,
        Notice::LayoutChanged(Layout::Highs) => "Toggled to Layout 2: Highs"@,
    }
}

impl Notice {
    /// The notification's title.
    pub fn title(self) -> (r: &'static str)
        ensures
            r@ == notice_title_spec(self),
    {
        match self {
            Notice::ProfileChanged(_) => "Profile Changed",
            Notice::LayoutChanged(_) => "Music Layout Change",
        }
    }

    /// The notification's text.
    pub fn body(self) -> (r: String)
        ensures
            r@ == notice_body_spec(self),
    {
        match self {
            Notice::ProfileChanged(p) => {
                let mut b = String::from_str(p.name());
                b.append(" profile is now active.");
                b
            },
            Notice::LayoutChanged(Layout::Complete) => String::from_str(
                "Toggled to Layout 1: Complete",
            ),
            Notice::LayoutChanged(Layout::Lows) => String::from_str("Toggled to Layout 2: Lows"),
            Notice::LayoutChanged(Layout::Highs) => String::from_str("Toggled to Layout 2: Highs"),
        }
    }
}

} // verus!
