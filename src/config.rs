use vstd::prelude::*;

use crate::node::Node;
use crate::render::{export_lines, render_exports, texts};
use crate::yaml::{load_documents, yaml_documents};

verus! {

/// The name of the configuration file in the home directory.
pub const CONF_FILE_NAME: &'static str = ".envyrc.yaml";

/// Why a configuration could not be rendered.
#[derive(Debug, PartialEq)]
pub enum ConfigError {
    /// No path was given and the home directory is unknown.
    Location,
    /// The file at this path could not be opened or read.
    Io(String),
    /// The text of the file at this path is not valid YAML.
    Parse(String),
    /// The first document of the file at this path is missing or not a mapping.
    InvalidConfig(String),
}

/// The default configuration path under the home directory `home`.
pub open spec fn default_path_of(home: Seq<char>) -> Seq<char> {
    home + "/"@ + CONF_FILE_NAME@
}

/// The entries of the first document, where there is one and it is a mapping.
pub open spec fn first_mapping(docs: Seq<Node>) -> Option<Seq<(Node, Node)>> {
    if docs.len() > 0 && docs[0] is Dict {
        Some(docs[0]->Dict_0@)
    } else {
        None
    }
}

/// The export lines of a configuration text, or `None` where the text is not
/// YAML or its first document is not a mapping.
pub open spec fn rendered_config(text: Seq<char>) -> Option<Seq<Seq<char>>> {
    match yaml_documents(text) {
        Some(docs) => match first_mapping(docs) {
            Some(entries) => Some(export_lines(entries)),
            None => None,
        },
        None => None,
    }
}

/// Relies on dirs::home_dir: the current user's home directory as the
/// environment gives it, if there is one and it is valid UTF-8.
#[verifier::external_body]
fn get_home_directory() -> (r: Option<String>) {
    Some(dirs::home_dir()?.to_str()?.to_string())
}

/// The path of the file `CONF_FILE_NAME` in the directory `home`.
pub fn default_config_path(home: &str) -> (r: String)
    ensures
        r@ == default_path_of(home@),
{
    let mut path = String::from_str(home);
    path.append("/");
    path.append(CONF_FILE_NAME);
    path
}

/// The configuration path: `config_file` where one is given, else the default
/// file under `home`; `Location` where neither is known.
pub fn resolve_config_path(config_file: Option<String>, home: Option<String>) -> (r: Result<
    String,
    ConfigError,
>)
    ensures
        match config_file {
            Some(p) => r == Ok::<String, ConfigError>(p),
            None => match home {
                Some(h) => r matches Ok(q) && q@ == default_path_of(h@),
                None => r == Err::<String, ConfigError>(ConfigError::Location),
            },
        },
{
    match config_file {
        Some(p) => Ok(p),
        None => match home {
            Some(h) => Ok(default_config_path(h.as_str())),
            None => Err(ConfigError::Location),
        },
    }
}

/// The configuration path: `config_file` where one is given, else the default
/// file in the current user's home directory; `Location` where that is unknown.
/// The home directory is asked for only when no path is given.
pub fn config_path(config_file: Option<String>) -> (r: Result<String, ConfigError>)
    ensures
        match config_file {
            Some(p) => r == Ok::<String, ConfigError>(p),
            None => match r {
                Ok(q) => exists|h: Seq<char>| q@ == default_path_of(h),
                Err(e) => e == ConfigError::Location,
            },
        },
{
    match config_file {
        Some(p) => Ok(p),
        None => {
            let home = get_home_directory();
            let r = resolve_config_path(None, home);
            if let Ok(q) = &r {
                assert(q@ == default_path_of(home->Some_0@));
            }
            r
        },
    }
}

/// The entries of the first document, which must be a mapping; later
/// documents are ignored. `InvalidConfig(path)` where there is no document or
/// the first is not a mapping.
pub fn config_entries(docs: Vec<Node>, path: &str) -> (r: Result<Vec<(Node, Node)>, ConfigError>)
    ensures
        match first_mapping(docs@) {
            Some(entries) => r matches Ok(e) && e@ == entries,
            None => r matches Err(ConfigError::InvalidConfig(p)) && p@ == path@,
        },
{
    let mut docs = docs;
    if docs.len() == 0 {
        return Err(ConfigError::InvalidConfig(String::from_str(path)));
    }
    match docs.remove(0) {
        Node::Dict(entries) => Ok(entries),
        _ => Err(ConfigError::InvalidConfig(String::from_str(path))),
    }
}

/// The export lines of parsed documents: those of the first document's
/// entries, or `InvalidConfig(path)` as `config_entries` gives it.
pub fn render_documents(docs: Vec<Node>, path: &str) -> (r: Result<Vec<String>, ConfigError>)
    ensures
        match first_mapping(docs@) {
            Some(entries) => r matches Ok(lines) && texts(lines@) == export_lines(entries),
            None => r matches Err(ConfigError::InvalidConfig(p)) && p@ == path@,
        },
{
    match config_entries(docs, path) {
        Ok(entries) => Ok(render_exports(&entries)),
        Err(e) => Err(e),
    }
}

/// The entries of the configuration `text` read from `path`: `Parse(path)`
/// where the text is not YAML, `InvalidConfig(path)` where its first document
/// is missing or not a mapping.
pub fn parse_config(text: &str, path: &str) -> (r: Result<Vec<(Node, Node)>, ConfigError>)
    ensures
        match yaml_documents(text@) {
            None => r matches Err(ConfigError::Parse(p)) && p@ == path@,
            Some(docs) => match first_mapping(docs) {
                Some(entries) => r matches Ok(e) && e@ == entries,
                None => r matches Err(ConfigError::InvalidConfig(p)) && p@ == path@,
            },
        },
{
    match load_documents(text) {
        Ok(docs) => config_entries(docs, path),
        Err(_) => Err(ConfigError::Parse(String::from_str(path))),
    }
}

/// The export lines of the configuration `text` read from `path`, with the
/// errors of `parse_config`; an error leaves no line at all.
pub fn render_config(text: &str, path: &str) -> (r: Result<Vec<String>, ConfigError>)
    ensures
        match rendered_config(text@) {
            Some(lines) => r matches Ok(l) && texts(l@) == lines,
            None => r is Err,
        },
        yaml_documents(text@) is None ==> (r matches Err(ConfigError::Parse(p)) && p@ == path@),
        (yaml_documents(text@) matches Some(docs) && first_mapping(docs) is None) ==> (r matches Err(
            ConfigError::InvalidConfig(p),
        ) && p@ == path@),
{
    match parse_config(text, path) {
        Ok(entries) => Ok(render_exports(&entries)),
        Err(e) => Err(e),
    }
}

/// The export lines of the file at `path`, given its content, or `None` where
/// it could not be opened or read: then `Io(path)`, and no line.
pub fn render_source(path: &str, content: Option<String>) -> (r: Result<Vec<String>, ConfigError>)
    ensures
        match content {
            None => r matches Err(ConfigError::Io(p)) && p@ == path@,
            Some(text) => match rendered_config(text@) {
                Some(lines) => r matches Ok(l) && texts(l@) == lines,
                None => r is Err,
            },
        },
{
    match content {
        Some(text) => render_config(text.as_str(), path),
        None => Err(ConfigError::Io(String::from_str(path))),
    }
}

} // verus!
