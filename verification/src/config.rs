use vstd::prelude::*;
use vstd::string::StrSliceExecFns;

verus! {

/// The settings a run needs: the sink's API token and the identifiers of
/// the source and feed collections.
#[derive(Clone, Debug, PartialEq, Eq)]
pub struct Config {
    pub notion_api_token: String,
    pub notion_source_database_id: String,
    pub notion_feed_database_id: String,
}

/// The values the caller read from the process environment, where they were
/// set.
#[derive(Clone, Debug, PartialEq, Eq)]
pub struct EnvConfig {
    pub notion_api_token: Option<String>,
    pub notion_source_database_id: Option<String>,
    pub notion_feed_database_id: Option<String>,
}

/// The setting a given argument and environment value resolve to: the
/// argument where one was passed and is non-empty, else the environment
/// value where it is set and non-empty; nothing otherwise. A passed but
/// empty argument is invalid and never falls back to the environment.
pub open spec fn spec_config_value(
    name: Option<Seq<char>>,
    env_value: Option<Seq<char>>,
) -> Option<Seq<char>> {
    match name {
        Some(n) => if n.len() > 0 {
            Some(n)
        } else {
            None
        },
        None => match env_value {
            Some(e) => if e.len() > 0 {
                Some(e)
            } else {
                None
            },
            None => None,
        },
    }
}

pub fn get_config_value(name: Option<String>, env_value: Option<String>) -> (r: Result<
    String,
    String,
>)
    ensures
        match spec_config_value(name.deep_view(), env_value.deep_view()) {
            Some(v) => r is Ok && r->Ok_0@ == v,
            None => r is Err,
        },
{
    if let Some(name) = name {
        if name.as_str().unicode_len() > 0 {
            return Ok(name);
        }
        return Err("invalid config variable".to_owned());
    }
    if let Some(env_value) = env_value {
        if env_value.as_str().unicode_len() > 0 {
            return Ok(env_value);
        }
    }
    Err("invalid config variable".to_owned())
}

impl Config {
    /// Resolves the run's settings from the given arguments and the
    /// environment values; every setting must resolve, or the whole
    /// configuration is an error.
    pub fn new(
        notion_source_database_id: Option<String>,
        notion_feed_database_id: Option<String>,
        env: EnvConfig,
    ) -> (r: Result<Config, String>)
        ensures
            ({
                let token = spec_config_value(None, env.notion_api_token.deep_view());
                let source = spec_config_value(
                    notion_source_database_id.deep_view(),
                    env.notion_source_database_id.deep_view(),
                );
                let feed = spec_config_value(
                    notion_feed_database_id.deep_view(),
                    env.notion_feed_database_id.deep_view(),
                );
                match r {
                    Ok(c) => {
                        &&& token is Some && c.notion_api_token@ == token->Some_0
                        &&& source is Some && c.notion_source_database_id@ == source->Some_0
                        &&& feed is Some && c.notion_feed_database_id@ == feed->Some_0
                    },
                    Err(_) => token is None || source is None || feed is None,
                }
            }),
    {
        let notion_api_token = match get_config_value(None, env.notion_api_token) {
            Ok(v) => v,
            Err(e) => {
                return Err(e);
            },
        };
        let notion_source_database_id = match get_config_value(
            notion_source_database_id,
            env.notion_source_database_id,
        ) {
            Ok(v) => v,
            Err(e) => {
                return Err(e);
            },
        };
        let notion_feed_database_id = match get_config_value(
            notion_feed_database_id,
            env.notion_feed_database_id,
        ) {
            Ok(v) => v,
            Err(e) => {
                return Err(e);
            },
        };
        Ok(Config { notion_api_token, notion_source_database_id, notion_feed_database_id })
    }
}

} // verus!
