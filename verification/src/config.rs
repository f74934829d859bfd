//! How the bot is configured: from a file, or on the command line.

use vstd::prelude::*;
use vstd::string::StringExecFns;

verus! {

/// Where the configuration file lies.
#[derive(Debug)]
pub struct ConfigPath {
    buf: String,
}

impl View for ConfigPath {
    type V = Seq<char>;

    closed spec fn view(&self) -> Seq<char> {
        self.buf@
    }
}

impl Default for ConfigPath {
    fn default() -> (path: Self)
        ensures
            path@ == "./config/config.json"@,
    {
        Self { buf: String::from_str("./config/config.json") }
    }
}

impl ConfigPath {
    /// The path that `s` writes.
    pub fn from_str(s: &str) -> (path: Self)
        ensures
            path@ == s@,
    {
        Self { buf: String::from_str(s) }
    }

    /// The path as text.
    pub fn to_string(&self) -> (text: String)
        ensures
            text@ == self@,
    {
        self.buf.clone()
    }
}

/// The settings of the bot.
#[derive(Clone, Debug)]
pub struct BotConfig {
    /// The token by which the bot logs in.
    pub token: String,
    /// The users that own the bot.
    pub owner_ids: Option<Vec<u64>>,
    /// Whether the bot answers direct messages.
    pub allow_dm: bool,
    /// Whether the bot answers other bots, itself among them.
    pub allow_bots: bool,
    /// What a command begins with.
    pub prefix: String,
    /// Where the assets file lies.
    pub assets_file: String,
    /// Where the embeds file lies.
    pub embeds_file: String,
}

impl Default for BotConfig {
    fn default() -> (config: Self)
        ensures
            config.token@ == Seq::<char>::empty(),
            config.owner_ids is None,
            config.allow_dm,
            !config.allow_bots,
            config.prefix@ == "!"@,
            config.assets_file@ == "./config/assets.json"@,
            config.embeds_file@ == "./config/embeds.json"@,
    {
        Self {
            token: String::new(),
            owner_ids: None,
            allow_dm: true,
            allow_bots: false,
            prefix: String::from_str("!"),
            assets_file: String::from_str("./config/assets.json"),
            embeds_file: String::from_str("./config/embeds.json"),
        }
    }
}

/// Where the settings come from.
#[derive(Debug)]
pub enum ConfigMode {
    /// From the file at `path`.
    File { path: ConfigPath },
    /// From the command line.
    Cmd(BotConfig),
}

/// Why there are no settings.
#[derive(Debug)]
pub enum ConfigError {
    /// The file at this path gave none.
    Unreadable(ConfigPath),
}

impl ConfigMode {
    /// The file that the settings are to be read from, where they come
    /// from a file.
    pub fn config_file(&self) -> (path: Option<&ConfigPath>)
        ensures
            path == match self {
                ConfigMode::File { path } => Some(path),
                ConfigMode::Cmd(_) => None,
            },
    {
        match self {
            ConfigMode::File { path } => Some(path),
            ConfigMode::Cmd(_) => None,
        }
    }

    /// The settings. Those of the command line are taken as they are, and
    /// `loaded` is not looked at. Those of a file are what was read from
    /// it, `loaded`, and where nothing could be read the path comes back
    /// as the error.
    pub fn into_config(self, loaded: Option<BotConfig>) -> (config: Result<BotConfig, ConfigError>)
        ensures
            config == match (self, loaded) {
                (ConfigMode::Cmd(given), _) => Ok::<BotConfig, ConfigError>(given),
                (ConfigMode::File { path }, Some(read)) => Ok::<BotConfig, ConfigError>(read),
                (ConfigMode::File { path }, None) => Err::<BotConfig, ConfigError>(
                    ConfigError::Unreadable(path),
                ),
            },
    {
        match self {
            ConfigMode::Cmd(given) => Ok(given),
            ConfigMode::File { path } => match loaded {
                Some(read) => Ok(read),
                None => Err(ConfigError::Unreadable(path)),
            },
        }
    }
}

} // verus!
