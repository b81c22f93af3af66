//! The startup configuration: where to listen and which directory to serve.
//!
//! Reading the command line is the host's part. It hands over what it found
//! as a [`CliConfig`], and [`load_cfg`] fills in what was left out.

use vstd::prelude::*;
use vstd::std_specs::convert::FromSpecImpl;

verus! {

/// The address the server listens on when none is given.
pub const DEFAULT_URL: &'static str = "127.0.0.1:9812";

/// The directory that is served when none is given.
pub const DEFAULT_DIR: &'static str = ".";

/// What a [`Config`] stands for.
pub struct ConfigView {
    pub url: Seq<char>,
    pub dir: Seq<char>,
}

/// The listen address, as `host:port`, and the asset directory.
#[derive(Clone, Debug, PartialEq, Eq)]
pub struct Config {
    pub url: String,
    pub dir: String,
}

impl View for Config {
    type V = ConfigView;

    open spec fn view(&self) -> ConfigView {
        ConfigView { url: self.url@, dir: self.dir@ }
    }
}

/// What a [`CliConfig`] stands for.
pub struct CliConfigView {
    pub url: Option<Seq<char>>,
    pub dir: Seq<char>,
}

/// What the command line gave: the asset directory, and the listen address
/// if there was one.
#[derive(Clone, Debug, PartialEq, Eq)]
pub struct CliConfig {
    pub url: Option<String>,
    pub dir: String,
}

impl View for CliConfig {
    type V = CliConfigView;

    open spec fn view(&self) -> CliConfigView {
        CliConfigView {
            url: match self.url {
                Some(url) => Some(url@),
                None => None,
            },
            dir: self.dir@,
        }
    }
}

/// The configuration that a command line stands for: its directory, and its
/// listen address or else the default one.
pub open spec fn config_of(cli: CliConfigView) -> ConfigView {
    ConfigView {
        url: match cli.url {
            Some(url) => url,
            None => DEFAULT_URL@,
        },
        dir: cli.dir,
    }
}

impl Config {
    /// The configuration with this listen address and asset directory.
    pub fn new(url: String, dir: String) -> (cfg: Self)
        ensures
            cfg.url == url,
            cfg.dir == dir,
    {
        Config { url, dir }
    }
}

impl Default for Config {
    /// The default listen address and the current directory.
    fn default() -> (cfg: Self)
        ensures
            cfg@ == (ConfigView { url: DEFAULT_URL@, dir: DEFAULT_DIR@ }),
    {
        Config::new(DEFAULT_URL.to_owned(), DEFAULT_DIR.to_owned())
    }
}

impl From<CliConfig> for Config {
    /// The configuration that the command line stands for.
    fn from(value: CliConfig) -> (cfg: Self)
        ensures
            cfg@ == config_of(value@),
    {
        let default = Config::default();
        let dir = value.dir;
        let url = match value.url {
            Some(url) => url,
            None => default.url,
        };
        Config::new(url, dir)
    }
}

/// The conversion may allocate the default address, so its result is stated
/// through views, in the contract of `from` itself, and not as a value.
impl FromSpecImpl<CliConfig> for Config {
    open spec fn obeys_from_spec() -> bool {
        false
    }

    open spec fn from_spec(value: CliConfig) -> Config {
        Config {
            url: match value.url {
                Some(url) => url,
                None => arbitrary(),
            },
            dir: value.dir,
        }
    }
}

/// Makes the configuration from what the command line gave.
pub fn load_cfg(cli: CliConfig) -> (cfg: Config)
    ensures
        cfg@ == config_of(cli@),
{
    Config::from(cli)
}

} // verus!
