//! The bot's settings, resolved from the environment and the settings file.

use vstd::prelude::*;

verus! {

#[derive(Debug, Clone, Copy, PartialEq, Eq, Structural)]
pub enum SettingsError {
    /// Neither the environment nor the settings file gives a token.
    MissingToken,
}

/// The settings the bot runs with.
#[derive(Debug)]
pub struct SettingsContainer {
    pub token: String,
    pub debug: bool,
}

pub open spec fn environment_name(debug: bool) -> Seq<char> {
    if debug {
        seq!['S', 't', 'a', 'g', 'i', 'n', 'g']
    } else {
        seq!['P', 'r', 'o', 'd', 'u', 'c', 't', 'i', 'o', 'n']
    }
}

impl SettingsContainer {
    /// The token from the environment wins over the one in the settings
    /// file; `debug` is off unless the file turns it on.
    pub fn resolve(env_token: Option<String>, file_token: Option<String>, debug: Option<bool>) -> (r: Result<SettingsContainer, SettingsError>)
        ensures
            match (env_token, file_token) {
                (Some(t), _) => r matches Ok(s) && s.token@ == t@,
                (None, Some(t)) => r matches Ok(s) && s.token@ == t@,
                (None, None) => r == Err::<SettingsContainer, SettingsError>(SettingsError::MissingToken),
            },
            r matches Ok(s) ==> s.debug == (debug == Some(true)),
    {
        let debug = match debug {
            Some(d) => d,
            None => false,
        };
        match env_token {
            Some(token) => Ok(SettingsContainer { token, debug }),
            None => match file_token {
                Some(token) => Ok(SettingsContainer { token, debug }),
                None => Err(SettingsError::MissingToken),
            },
        }
    }

    /// The name of the deployment these settings describe.
    pub fn environment(&self) -> (r: String)
        ensures
            r@ == environment_name(self.debug),
    {
        if self.debug {
            let r = String::from_str("Staging");
            proof {
                reveal_strlit("Staging");
            }
            assert(r@ =~= environment_name(true));
            r
        } else {
            let r = String::from_str("Production");
            proof {
                reveal_strlit("Production");
            }
            assert(r@ =~= environment_name(false));
            r
        }
    }
}

} // verus!
