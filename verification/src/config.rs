//! The configuration of the program, as read from its configuration file.

use vstd::prelude::*;
use vstd::string::StringExecFns;

verus! {

/// A category as configured: a name for a bundle of tags and aspect ratios.
pub struct CategoryConfig {
    pub name: String,
    pub tags: Vec<String>,
    pub aspect_ratios: Option<Vec<String>>,
}

/// A supplier as configured: its name, and the file that describes it.
pub struct SupplierFile {
    pub name: String,
    pub file: String,
}

/// The configuration of the program.
pub struct GlobalConfig {
    /// The command that assigns a wallpaper, with `{path}` for the image.
    pub set_command: Option<String>,
    pub private_key_path: Option<String>,
    pub categories: Vec<CategoryConfig>,
    pub suppliers: Vec<SupplierFile>,
    pub aspect_ratios: Vec<String>,
}

/// What reading the configuration file came to.
pub enum ConfigFile {
    /// The file could not be opened.
    Unopened,
    /// The file was opened and could not be read; the reason says why.
    Unreadable(String),
    /// The file does not hold a configuration; the reason says why.
    Unparseable(String),
    /// The file holds this configuration.
    Parsed(GlobalConfig),
}

/// Why there is no configuration.
#[derive(Debug)]
pub enum ConfigError {
    /// The file could not be read.
    Unreadable(String),
    /// The file is malformed.
    Malformed(String),
}

impl Default for GlobalConfig {
    fn default() -> (config: Self)
        ensures
            config.set_command is None,
            config.private_key_path is None,
            config.categories@.len() == 0,
            config.suppliers@.len() == 0,
            config.aspect_ratios@.len() == 0,
    {
        GlobalConfig {
            set_command: None,
            private_key_path: None,
            categories: Vec::new(),
            suppliers: Vec::new(),
            aspect_ratios: Vec::new(),
        }
    }
}

impl GlobalConfig {
    /// Whether nothing is configured.
    pub open spec fn is_empty(self) -> bool {
        &&& self.set_command is None
        &&& self.private_key_path is None
        &&& self.categories@.len() == 0
        &&& self.suppliers@.len() == 0
        &&& self.aspect_ratios@.len() == 0
    }

    /// The path of the configuration file in the configuration directory.
    pub fn get_config_path(config_dir: &str) -> (path: String)
        ensures
            path@ == config_dir@ + "/config.toml"@,
    {
        String::from_str(config_dir).concat("/config.toml")
    }

    /// The configuration that the configuration file gives: the one it
    /// holds; an empty one where the file cannot be opened. A file that
    /// cannot be read or understood is an error.
    pub fn read(file: ConfigFile) -> (config: Result<Self, ConfigError>)
        ensures
            match file {
                ConfigFile::Unopened => config matches Ok(c) && c.is_empty(),
                ConfigFile::Parsed(parsed) => config matches Ok(c) && c == parsed,
                ConfigFile::Unreadable(why) => config matches Err(ConfigError::Unreadable(reason))
                    && reason@ == why@,
                ConfigFile::Unparseable(why) => config matches Err(ConfigError::Malformed(reason))
                    && reason@ == why@,
            },
    {
        match file {
            ConfigFile::Unopened => Ok(GlobalConfig::default()),
            ConfigFile::Parsed(parsed) => Ok(parsed),
            ConfigFile::Unreadable(why) => Err(ConfigError::Unreadable(why)),
            ConfigFile::Unparseable(why) => Err(ConfigError::Malformed(why)),
        }
    }
}

} // verus!
