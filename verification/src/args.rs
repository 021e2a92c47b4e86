//! The run's command-line parameters and their validation into a run
//! configuration, with one distinct diagnostic per missing parameter.

use vstd::prelude::*;

use crate::app::AppMode;
use crate::mail::LoginMethod;
use crate::mail::Server;

verus! {

/// The parameters a run may receive, before validation.
#[derive(Debug)]
pub struct Args {
    pub auth_url: Option<String>,
    pub client_id: Option<String>,
    pub client_secret: Option<String>,
    pub fetch_size: usize,
    pub file_path: Option<String>,
    pub login_type: Option<LoginMethod>,
    pub mode: AppMode,
    pub password: Option<String>,
    pub port: u16,
    pub refresh_token: Option<String>,
    pub server: Option<String>,
    pub token_url: Option<String>,
    pub query: Option<String>,
    pub user: Option<String>,
}

/// A required parameter that the chosen mode or login method lacks.
#[derive(Clone, Copy, Debug, PartialEq, Eq, Structural)]
pub enum ConfigError {
    MissingLoginType,
    MissingServer,
    MissingUser,
    MissingAuthUrl,
    MissingClientId,
    MissingClientSecret,
    MissingRefreshToken,
    MissingTokenUrl,
    MissingPassword,
    MissingQuery,
    MissingFilePath,
}

/// How a remote run logs in: a password, or the material for a bearer
/// token exchanged from a refresh token.
pub enum Credentials {
    Password { user: String, password: String },
    OAuth2 { user: String, auth_url: String, client_id: String, client_secret: String,
        refresh_token: String, token_url: String },
}

/// A validated run configuration.
pub enum RunConfig {
    Remote { server: Server, query: String, fetch_size: usize, credentials: Credentials },
    Local { file_path: String },
}

/// Validate the parameters against the chosen mode and login method,
/// reporting the first missing one in the order the run would need them.
pub fn validate_args(args: &Args) -> (r: Result<RunConfig, ConfigError>)
    ensures
        match r {
            Result::Ok(c) => match c {
                RunConfig::Remote { server, query, fetch_size, credentials } => {
                    &&& args.mode == AppMode::Remote
                    &&& args.server matches Option::Some(a) && server.address@ == a@
                    &&& server.port == args.port
                    &&& args.query matches Option::Some(q) && query@ == q@
                    &&& fetch_size == args.fetch_size
                    &&& match credentials {
                        Credentials::Password { user, password } => {
                            &&& args.login_type == Option::Some(LoginMethod::Password)
                            &&& args.user matches Option::Some(u) && user@ == u@
                            &&& args.password matches Option::Some(p) && password@ == p@
                        },
                        Credentials::OAuth2 {
                            user,
                            auth_url,
                            client_id,
                            client_secret,
                            refresh_token,
                            token_url,
                        } => {
                            &&& args.login_type == Option::Some(LoginMethod::OAuth2)
                            &&& args.user matches Option::Some(u) && user@ == u@
                            &&& args.auth_url matches Option::Some(v) && auth_url@ == v@
                            &&& args.client_id matches Option::Some(v) && client_id@ == v@
                            &&& args.client_secret matches Option::Some(v) && client_secret@ == v@
                            &&& args.refresh_token matches Option::Some(v) && refresh_token@ == v@
                            &&& args.token_url matches Option::Some(v) && token_url@ == v@
                        },
                    }
                },
                RunConfig::Local { file_path } => {
                    &&& args.mode == AppMode::Local
                    &&& args.file_path matches Option::Some(p) && file_path@ == p@
                },
            },
            Result::Err(e) => spec_config_err(*args, e),
        },
{
    match args.mode {
        AppMode::Remote => {
            let login_type = match &args.login_type {
                Option::Some(l) => *l,
                Option::None => {
                    return Result::Err(ConfigError::MissingLoginType);
                },
            };
            let address = match &args.server {
                Option::Some(s) => s.clone(),
                Option::None => {
                    return Result::Err(ConfigError::MissingServer);
                },
            };
            let user = match &args.user {
                Option::Some(u) => u.clone(),
                Option::None => {
                    return Result::Err(ConfigError::MissingUser);
                },
            };
            let credentials = match login_type {
                LoginMethod::OAuth2 => {
                    let auth_url = match &args.auth_url {
                        Option::Some(v) => v.clone(),
                        Option::None => {
                            return Result::Err(ConfigError::MissingAuthUrl);
                        },
                    };
                    let client_id = match &args.client_id {
                        Option::Some(v) => v.clone(),
                        Option::None => {
                            return Result::Err(ConfigError::MissingClientId);
                        },
                    };
                    let client_secret = match &args.client_secret {
                        Option::Some(v) => v.clone(),
                        Option::None => {
                            return Result::Err(ConfigError::MissingClientSecret);
                        },
                    };
                    let refresh_token = match &args.refresh_token {
                        Option::Some(v) => v.clone(),
                        Option::None => {
                            return Result::Err(ConfigError::MissingRefreshToken);
                        },
                    };
                    let token_url = match &args.token_url {
                        Option::Some(v) => v.clone(),
                        Option::None => {
                            return Result::Err(ConfigError::MissingTokenUrl);
                        },
                    };
                    Credentials::OAuth2 {
                        user,
                        auth_url,
                        client_id,
                        client_secret,
                        refresh_token,
                        token_url,
                    }
                },
                LoginMethod::Password => {
                    let password = match &args.password {
                        Option::Some(p) => p.clone(),
                        Option::None => {
                            return Result::Err(ConfigError::MissingPassword);
                        },
                    };
                    Credentials::Password { user, password }
                },
            };
            let query = match &args.query {
                Option::Some(q) => q.clone(),
                Option::None => {
                    return Result::Err(ConfigError::MissingQuery);
                },
            };
            Result::Ok(
                RunConfig::Remote {
                    server: Server { address, port: args.port },
                    query,
                    fetch_size: args.fetch_size,
                    credentials,
                },
            )
        },
        AppMode::Local => {
            match &args.file_path {
                Option::Some(p) => Result::Ok(RunConfig::Local { file_path: p.clone() }),
                Option::None => Result::Err(ConfigError::MissingFilePath),
            }
        },
    }
}

/// The exact validation failure: the first missing parameter in the order
/// the run would need it, under the chosen mode and login method.
pub open spec fn spec_config_err(args: Args, e: ConfigError) -> bool {
    match e {
        ConfigError::MissingLoginType => args.mode == AppMode::Remote && args.login_type is None,
        ConfigError::MissingServer => {
            &&& args.mode == AppMode::Remote
            &&& args.login_type is Some
            &&& args.server is None
        },
        ConfigError::MissingUser => {
            &&& args.mode == AppMode::Remote
            &&& args.login_type is Some
            &&& args.server is Some
            &&& args.user is None
        },
        ConfigError::MissingAuthUrl => {
            &&& spec_remote_oauth2_base(args)
            &&& args.auth_url is None
        },
        ConfigError::MissingClientId => {
            &&& spec_remote_oauth2_base(args)
            &&& args.auth_url is Some
            &&& args.client_id is None
        },
        ConfigError::MissingClientSecret => {
            &&& spec_remote_oauth2_base(args)
            &&& args.auth_url is Some
            &&& args.client_id is Some
            &&& args.client_secret is None
        },
        ConfigError::MissingRefreshToken => {
            &&& spec_remote_oauth2_base(args)
            &&& args.auth_url is Some
            &&& args.client_id is Some
            &&& args.client_secret is Some
            &&& args.refresh_token is None
        },
        ConfigError::MissingTokenUrl => {
            &&& spec_remote_oauth2_base(args)
            &&& args.auth_url is Some
            &&& args.client_id is Some
            &&& args.client_secret is Some
            &&& args.refresh_token is Some
            &&& args.token_url is None
        },
        ConfigError::MissingPassword => {
            &&& args.mode == AppMode::Remote
            &&& args.login_type == Option::Some(LoginMethod::Password)
            &&& args.server is Some
            &&& args.user is Some
            &&& args.password is None
        },
        ConfigError::MissingQuery => {
            &&& args.mode == AppMode::Remote
            &&& args.login_type is Some
            &&& args.server is Some
            &&& args.user is Some
            &&& (args.login_type == Option::Some(LoginMethod::Password) ==> args.password is Some)
            &&& (args.login_type == Option::Some(LoginMethod::OAuth2) ==> args.auth_url is Some
                && args.client_id is Some && args.client_secret is Some && args.refresh_token
                is Some && args.token_url is Some)
            &&& args.query is None
        },
        ConfigError::MissingFilePath => args.mode == AppMode::Local && args.file_path is None,
    }
}

/// The state in which the bearer-token parameters come to be checked.
pub open spec fn spec_remote_oauth2_base(args: Args) -> bool {
    &&& args.mode == AppMode::Remote
    &&& args.login_type == Option::Some(LoginMethod::OAuth2)
    &&& args.server is Some
    &&& args.user is Some
}

} // verus!
