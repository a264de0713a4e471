//! The config file of the command line: where the ledger is reached and where
//! the two signing keys lie. On disk it is one JSON object of five strings.

use vstd::prelude::*;
use vstd::string::StringExecFns;
use crate::cli::instructions::InitProgramParams;

verus! {

/// The settings of the command line.
#[derive(Debug, PartialEq, Eq)]
pub struct ConfigFile {
    pub config_file: String,
    pub rpc_url: String,
    pub wss_url: String,
    pub approver_path: String,
    pub authority_path: String,
}

/// Why the text of a config file was refused, or could not be written.
#[derive(Clone, Copy, Debug, PartialEq, Eq, Structural)]
pub enum ConfigFileError {
    /// The text is not a JSON object whose values are all strings.
    Parse,
    /// The object lacks one of the five settings.
    MissingField,
    /// A setting could not be written as a JSON string.
    Serialize,
}

/// The JSON string that stands for a text, quotes and escapes included, if
/// there is one.
pub uninterp spec fn json_string_literal(text: Seq<char>) -> Option<Seq<char>>;

/// The names and values of a JSON object whose values are all strings, in the
/// order of the names, if the text is such an object.
pub uninterp spec fn json_string_fields(text: Seq<char>) -> Option<Seq<(Seq<char>, Seq<char>)>>;

/// A text, if there is one, as a sequence of characters.
pub open spec fn text_view(text: Option<String>) -> Option<Seq<char>> {
    match text {
        Some(text) => Some(text@),
        None => None,
    }
}

/// Names and values as sequences of characters.
pub open spec fn fields_view(fields: Option<Vec<(String, String)>>) -> Option<
    Seq<(Seq<char>, Seq<char>)>,
> {
    match fields {
        Some(fields) => Some(Seq::new(fields@.len(), |i: int| (fields@[i].0@, fields@[i].1@))),
        None => None,
    }
}

/// Calls `serde_json::to_string` on a string slice. Trusted: the JSON string
/// is a function of the text alone; the outside error is given as `None`.
#[verifier::external_body]
fn to_json_string(text: &str) -> (literal: Option<String>)
    ensures
        text_view(literal) == json_string_literal(text@),
{
    match serde_json::to_string(text) {
        Ok(literal) => Some(literal),
        Err(_) => None,
    }
}

/// Calls `serde_json::from_str` for a map from strings to strings. Trusted:
/// the names and values are a function of the text alone; the outside error
/// is given as `None`.
#[verifier::external_body]
fn parse_string_fields(text: &str) -> (fields: Option<Vec<(String, String)>>)
    ensures
        fields_view(fields) == json_string_fields(text@),
{
    match serde_json::from_str::<std::collections::BTreeMap<String, String>>(text) {
        Ok(fields) => Some(fields.into_iter().collect()),
        Err(_) => None,
    }
}

/// The value of the first field from `start` on that bears the name, if any does.
pub open spec fn field_value_from(fields: Seq<(Seq<char>, Seq<char>)>, name: Seq<char>, start: int) -> Option<
    Seq<char>,
>
    decreases fields.len() - start,
{
    if start < 0 || start >= fields.len() {
        None
    } else if fields[start].0 == name {
        Some(fields[start].1)
    } else {
        field_value_from(fields, name, start + 1)
    }
}

/// The value of the first field that bears the name, if any does.
pub open spec fn field_value(fields: Seq<(Seq<char>, Seq<char>)>, name: Seq<char>) -> Option<Seq<char>> {
    field_value_from(fields, name, 0)
}

/// Looks a setting up by its name.
pub fn find_field(fields: &Vec<(String, String)>, name: &str) -> (value: Option<String>)
    ensures
        text_view(value) == field_value(fields_view(Some(*fields)).unwrap(), name@),
{
    let wanted = String::from_str(name);
    let ghost all = fields_view(Some(*fields)).unwrap();
    let mut i: usize = 0;
    while i < fields.len()
        invariant
            i <= fields@.len(),
            wanted@ == name@,
            all == fields_view(Some(*fields)).unwrap(),
            field_value(all, name@) == field_value_from(all, name@, i as int),
        decreases fields@.len() - i,
    {
        if fields[i].0 == wanted {
            return Some(fields[i].1.clone());
        }
        i += 1;
    }
    None
}

/// The settings that a list of fields holds, where it holds all five.
pub open spec fn settings_of(fields: Seq<(Seq<char>, Seq<char>)>) -> Option<ConfigFileView> {
    if field_value(fields, "config_file"@) is Some && field_value(fields, "rpc_url"@) is Some
        && field_value(fields, "wss_url"@) is Some && field_value(fields, "approver_path"@) is Some
        && field_value(fields, "authority_path"@) is Some {
        Some(
            ConfigFileView {
                config_file: field_value(fields, "config_file"@).unwrap(),
                rpc_url: field_value(fields, "rpc_url"@).unwrap(),
                wss_url: field_value(fields, "wss_url"@).unwrap(),
                approver_path: field_value(fields, "approver_path"@).unwrap(),
                authority_path: field_value(fields, "authority_path"@).unwrap(),
            },
        )
    } else {
        None
    }
}

/// The settings as sequences of characters.
pub ghost struct ConfigFileView {
    pub config_file: Seq<char>,
    pub rpc_url: Seq<char>,
    pub wss_url: Seq<char>,
    pub approver_path: Seq<char>,
    pub authority_path: Seq<char>,
}

impl View for ConfigFile {
    type V = ConfigFileView;

    open spec fn view(&self) -> ConfigFileView {
        ConfigFileView {
            config_file: self.config_file@,
            rpc_url: self.rpc_url@,
            wss_url: self.wss_url@,
            approver_path: self.approver_path@,
            authority_path: self.authority_path@,
        }
    }
}

/// The text of a config file, given the JSON string of each setting.
pub open spec fn config_text(
    config_file: Seq<char>,
    rpc_url: Seq<char>,
    wss_url: Seq<char>,
    approver_path: Seq<char>,
    authority_path: Seq<char>,
) -> Seq<char> {
    "{\"config_file\":"@ + config_file + ",\"rpc_url\":"@ + rpc_url + ",\"wss_url\":"@ + wss_url
        + ",\"approver_path\":"@ + approver_path + ",\"authority_path\":"@ + authority_path + "}"@
}

/// What saving gives: the text of the object with the five settings in their
/// order, or the error where a setting has no JSON string.
pub open spec fn saved_text(settings: ConfigFileView) -> Result<Seq<char>, ConfigFileError> {
    if json_string_literal(settings.config_file) is Some && json_string_literal(
        settings.rpc_url,
    ) is Some && json_string_literal(settings.wss_url) is Some && json_string_literal(
        settings.approver_path,
    ) is Some && json_string_literal(settings.authority_path) is Some {
        Ok(
            config_text(
                json_string_literal(settings.config_file).unwrap(),
                json_string_literal(settings.rpc_url).unwrap(),
                json_string_literal(settings.wss_url).unwrap(),
                json_string_literal(settings.approver_path).unwrap(),
                json_string_literal(settings.authority_path).unwrap(),
            ),
        )
    } else {
        Err(ConfigFileError::Serialize)
    }
}

/// What loading gives for the fields that parsing found, or for none.
pub open spec fn loaded_settings(fields: Option<Seq<(Seq<char>, Seq<char>)>>) -> Result<
    ConfigFileView,
    ConfigFileError,
> {
    match fields {
        None => Err(ConfigFileError::Parse),
        Some(fields) => match settings_of(fields) {
            Some(settings) => Ok(settings),
            None => Err(ConfigFileError::MissingField),
        },
    }
}

/// A loaded config file, as plain values.
pub open spec fn loaded_view(result: Result<ConfigFile, ConfigFileError>) -> Result<
    ConfigFileView,
    ConfigFileError,
> {
    match result {
        Ok(config) => Ok(config@),
        Err(error) => Err(error),
    }
}

/// A saved text, as plain values.
pub open spec fn saved_view(result: Result<String, ConfigFileError>) -> Result<
    Seq<char>,
    ConfigFileError,
> {
    match result {
        Ok(text) => Ok(text@),
        Err(error) => Err(error),
    }
}

impl ConfigFile {
    /// The settings of a new installation: the main network, and the
    /// authority's key at the path given.
    pub fn with_authority_path(authority_path: String) -> (config: ConfigFile)
        ensures
            config@ == (ConfigFileView {
                config_file: ""@,
                rpc_url: "https://api.mainnet-beta.solana.com"@,
                wss_url: ""@,
                approver_path: ""@,
                authority_path: authority_path@,
            }),
    {
        ConfigFile {
            config_file: String::from_str(""),
            rpc_url: String::from_str("https://api.mainnet-beta.solana.com"),
            wss_url: String::from_str(""),
            authority_path,
            approver_path: String::from_str(""),
        }
    }

    /// Takes the settings out of the fields that parsing found.
    pub fn from_fields(fields: Option<Vec<(String, String)>>) -> (result: Result<
        ConfigFile,
        ConfigFileError,
    >)
        ensures
            loaded_view(result) == loaded_settings(fields_view(fields)),
    {
        let fields = match fields {
            Some(fields) => fields,
            None => {
                return Err(ConfigFileError::Parse);
            },
        };
        let config_file = find_field(&fields, "config_file");
        let rpc_url = find_field(&fields, "rpc_url");
        let wss_url = find_field(&fields, "wss_url");
        let approver_path = find_field(&fields, "approver_path");
        let authority_path = find_field(&fields, "authority_path");
        match (config_file, rpc_url, wss_url, approver_path, authority_path) {
            (
                Some(config_file),
                Some(rpc_url),
                Some(wss_url),
                Some(approver_path),
                Some(authority_path),
            ) => Ok(ConfigFile { config_file, rpc_url, wss_url, approver_path, authority_path }),
            _ => Err(ConfigFileError::MissingField),
        }
    }

    /// Reads the settings from the text of a config file.
    pub fn load_config(text: &str) -> (result: Result<ConfigFile, ConfigFileError>)
        ensures
            loaded_view(result) == loaded_settings(json_string_fields(text@)),
    {
        ConfigFile::from_fields(parse_string_fields(text))
    }

    /// Puts the text of a config file together from the JSON string of each
    /// setting, where each has one.
    pub fn join_fields(
        config_file: Option<String>,
        rpc_url: Option<String>,
        wss_url: Option<String>,
        approver_path: Option<String>,
        authority_path: Option<String>,
    ) -> (result: Result<String, ConfigFileError>)
        ensures
            saved_view(result) == (if config_file is Some && rpc_url is Some && wss_url is Some
                && approver_path is Some && authority_path is Some {
                Ok::<Seq<char>, ConfigFileError>(
                    config_text(
                        config_file.unwrap()@,
                        rpc_url.unwrap()@,
                        wss_url.unwrap()@,
                        approver_path.unwrap()@,
                        authority_path.unwrap()@,
                    ),
                )
            } else {
                Err::<Seq<char>, ConfigFileError>(ConfigFileError::Serialize)
            }),
    {
        match (config_file, rpc_url, wss_url, approver_path, authority_path) {
            (
                Some(config_file),
                Some(rpc_url),
                Some(wss_url),
                Some(approver_path),
                Some(authority_path),
            ) => {
                let mut text = String::from_str("{\"config_file\":");
                text.append(config_file.as_str());
                text.append(",\"rpc_url\":");
                text.append(rpc_url.as_str());
                text.append(",\"wss_url\":");
                text.append(wss_url.as_str());
                text.append(",\"approver_path\":");
                text.append(approver_path.as_str());
                text.append(",\"authority_path\":");
                text.append(authority_path.as_str());
                text.append("}");
                Ok(text)
            },
            _ => Err(ConfigFileError::Serialize),
        }
    }

    /// Writes the settings as the text of a config file.
    pub fn save_config(&self) -> (result: Result<String, ConfigFileError>)
        ensures
            saved_view(result) == saved_text(self@),
    {
        ConfigFile::join_fields(
            to_json_string(self.config_file.as_str()),
            to_json_string(self.rpc_url.as_str()),
            to_json_string(self.wss_url.as_str()),
            to_json_string(self.approver_path.as_str()),
            to_json_string(self.authority_path.as_str()),
        )
    }

    /// Changes the settings that a request names and keeps the others.
    pub fn set(
        &mut self,
        rpc_url: Option<String>,
        authority_path: Option<String>,
        approver_path: Option<String>,
    )
        ensures
            final(self)@ == (ConfigFileView {
                rpc_url: match rpc_url {
                    Some(rpc_url) => rpc_url@,
                    None => old(self).rpc_url@,
                },
                authority_path: match authority_path {
                    Some(authority_path) => authority_path@,
                    None => old(self).authority_path@,
                },
                approver_path: match approver_path {
                    Some(approver_path) => approver_path@,
                    None => old(self).approver_path@,
                },
                ..old(self)@
            }),
    {
        if let Some(rpc_url) = rpc_url {
            self.rpc_url = rpc_url;
        }
        if let Some(authority_path) = authority_path {
            self.authority_path = authority_path;
        }
        if let Some(approver_path) = approver_path {
            self.approver_path = approver_path;
        }
    }

    /// How the command line reaches the program under these settings.
    pub fn program_params(&self) -> (params: InitProgramParams)
        ensures
            params.rpc_url@ == self.rpc_url@,
            params.wss_url@ == self.wss_url@,
            params.authority_path@ == self.authority_path@,
            params.approver_path@ == self.approver_path@,
    {
        InitProgramParams {
            rpc_url: self.rpc_url.clone(),
            wss_url: self.wss_url.clone(),
            authority_path: self.authority_path.clone(),
            approver_path: self.approver_path.clone(),
        }
    }
}

} // verus!
