use vstd::prelude::*;

verus! {

/// The variable that holds the instance's base URL.
pub const INSTANCE_URL_VAR: &'static str = "MASTODON_INSTANCE_URL";

/// The variable that holds the account's access token.
pub const ACCESS_TOKEN_VAR: &'static str = "MASTODON_ACCESS_TOKEN";

/// Where and as whom to post.
pub struct Environment {
    pub instance_url: String,
    pub access_token: String,
}

/// A variable that the environment lacks.
#[derive(Debug, Clone, Copy, PartialEq, Eq, Structural)]
pub enum EnvError {
    InstanceUrlNotSet,
    AccessTokenNotSet,
}

impl EnvError {
    /// What went wrong, in words.
    pub fn message(&self) -> (r: &'static str)
        ensures
            r@ == match self {
                EnvError::InstanceUrlNotSet => "MASTODON_INSTANCE_URL not set"@,
                EnvError::AccessTokenNotSet => "MASTODON_ACCESS_TOKEN not set"@,
            },
    {
        match self {
            EnvError::InstanceUrlNotSet => "MASTODON_INSTANCE_URL not set",
            EnvError::AccessTokenNotSet => "MASTODON_ACCESS_TOKEN not set",
        }
    }
}

impl Environment {
    /// Builds the environment from the values of its two variables, as far as
    /// they are set. The instance URL is looked at first.
    pub fn from_vars(instance_url: Option<String>, access_token: Option<String>) -> (r: Result<
        Environment,
        EnvError,
    >)
        ensures
            instance_url is None ==> r == Err::<Environment, EnvError>(EnvError::InstanceUrlNotSet),
            instance_url is Some && access_token is None ==> r == Err::<Environment, EnvError>(
                EnvError::AccessTokenNotSet,
            ),
            instance_url is Some && access_token is Some <==> r is Ok,
            r matches Ok(env) ==> env.instance_url == instance_url.unwrap()
                && env.access_token == access_token.unwrap(),
    {
        let instance_url = match instance_url {
            Some(url) => url,
            None => return Err(EnvError::InstanceUrlNotSet),
        };
        let access_token = match access_token {
            Some(token) => token,
            None => return Err(EnvError::AccessTokenNotSet),
        };
        Ok(Environment { instance_url, access_token })
    }
}

} // verus!
