use vstd::prelude::*;

verus! {

/// Process-wide settings, read once at start.
pub struct AppConfig {
    pub server_port: String,
    pub db_connect_str: String,
    pub token_secret_key: String,
}

/// A required setting that is absent; it holds the variable's name.
pub enum ConfigError {
    MissingVar(String),
}

impl ConfigError {
    pub fn message(&self) -> (r: String)
        ensures
            self matches ConfigError::MissingVar(k) && r@ == "failed to load environment variable "@ + k@,
    {
        match self {
            ConfigError::MissingVar(k) => {
                let mut s = "failed to load environment variable ".to_owned();
                s.append(k.as_str());
                s
            },
        }
    }
}

pub open spec fn default_port() -> Seq<char> {
    "8080"@
}

impl AppConfig {
    /// Builds the settings from the values of the variables `SERVER_PORT`
    /// (default `8080`), `DB_CONNECT_STR` and `TOKEN_SECRET_KEY`, the
    /// latter two required.
    pub fn from_env(
        server_port: Option<String>,
        db_connect_str: Option<String>,
        token_secret_key: Option<String>,
    ) -> (r: Result<AppConfig, ConfigError>)
        ensures
            r is Ok <==> db_connect_str is Some && token_secret_key is Some,
            db_connect_str is None ==> (r matches Err(ConfigError::MissingVar(k)) && k@
                == "DB_CONNECT_STR"@),
            db_connect_str is Some && token_secret_key is None ==> (r matches Err(
                ConfigError::MissingVar(k),
            ) && k@ == "TOKEN_SECRET_KEY"@),
            r matches Ok(c) ==> c.db_connect_str == db_connect_str->Some_0 && c.token_secret_key
                == token_secret_key->Some_0 && c.server_port@ == match server_port {
                Some(p) => p@,
                None => default_port(),
            },
    {
        let server_port = match server_port {
            Some(p) => p,
            None => "8080".to_owned(),
        };
        let db_connect_str = match db_connect_str {
            Some(d) => d,
            None => {
                return Err(ConfigError::MissingVar("DB_CONNECT_STR".to_owned()));
            },
        };
        let token_secret_key = match token_secret_key {
            Some(t) => t,
            None => {
                return Err(ConfigError::MissingVar("TOKEN_SECRET_KEY".to_owned()));
            },
        };
        Ok(AppConfig { server_port, db_connect_str, token_secret_key })
    }
}

} // verus!
