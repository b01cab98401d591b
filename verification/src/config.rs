use vstd::prelude::*;

verus! {

/// Credentials of a Bitget API account.
#[derive(Debug, Clone)]
pub struct BitgetCredentials {
    pub api_key: String,
    pub api_secret: String,
    pub passphrase: String,
}

/// Credentials of a MetaTrader account (XM accounts use the same shape).
#[derive(Debug, Clone)]
pub struct MetaTraderCredentials {
    pub login: String,
    pub password: String,
    pub server: String,
    /// Token of a bridging service such as MetaApi, when one is used.
    pub api_token: Option<String>,
}

/// The broker credentials known to the terminal.
#[derive(Debug, Clone)]
pub struct BrokerCredentials {
    pub bitget: Option<BitgetCredentials>,
    pub metatrader: Option<MetaTraderCredentials>,
    pub xm: Option<MetaTraderCredentials>,
}

/// The values of the credential environment variables, `None` for a
/// variable that is unset (or not valid unicode).
#[derive(Debug, Clone)]
pub struct CredentialVariables {
    pub bitget_api_key: Option<String>,
    pub bitget_api_secret: Option<String>,
    pub bitget_passphrase: Option<String>,
    pub metatrader_login: Option<String>,
    pub metatrader_password: Option<String>,
    pub metatrader_server: Option<String>,
    pub metatrader_api_token: Option<String>,
    pub xm_login: Option<String>,
    pub xm_password: Option<String>,
    pub xm_server: Option<String>,
}

/// The text of a variable, or the empty text when it is unset.
pub open spec fn or_empty(v: Option<String>) -> Seq<char> {
    match v {
        Some(s) => s@,
        None => Seq::empty(),
    }
}

fn value_or_empty(v: Option<String>) -> (s: String)
    ensures
        s@ == or_empty(v),
{
    match v {
        Some(s) => s,
        None => String::new(),
    }
}

impl BrokerCredentials {
    /// The credentials that the variables describe: an account is present
    /// exactly when its key (Bitget) or login (MetaTrader, XM) is set; its other
    /// unset values become empty, except the MetaTrader API token, which stays
    /// optional, and XM accounts carry no token.
    pub fn from_variables(vars: CredentialVariables) -> (c: Self)
        ensures
            (c.bitget is Some) == (vars.bitget_api_key is Some),
            c.bitget matches Some(b) ==> b.api_key@ == or_empty(vars.bitget_api_key)
                && b.api_secret@ == or_empty(vars.bitget_api_secret) && b.passphrase@ == or_empty(
                vars.bitget_passphrase,
            ),
            (c.metatrader is Some) == (vars.metatrader_login is Some),
            c.metatrader matches Some(m) ==> m.login@ == or_empty(vars.metatrader_login)
                && m.password@ == or_empty(vars.metatrader_password) && m.server@ == or_empty(
                vars.metatrader_server,
            ) && m.api_token == vars.metatrader_api_token,
            (c.xm is Some) == (vars.xm_login is Some),
            c.xm matches Some(x) ==> x.login@ == or_empty(vars.xm_login) && x.password@ == or_empty(
                vars.xm_password,
            ) && x.server@ == or_empty(vars.xm_server) && x.api_token is None,
    {
        let bitget = match vars.bitget_api_key {
            Some(key) => Some(
                BitgetCredentials {
                    api_key: key,
                    api_secret: value_or_empty(vars.bitget_api_secret),
                    passphrase: value_or_empty(vars.bitget_passphrase),
                },
            ),
            None => None,
        };
        let metatrader = match vars.metatrader_login {
            Some(login) => Some(
                MetaTraderCredentials {
                    login,
                    password: value_or_empty(vars.metatrader_password),
                    server: value_or_empty(vars.metatrader_server),
                    api_token: vars.metatrader_api_token,
                },
            ),
            None => None,
        };
        let xm = match vars.xm_login {
            Some(login) => Some(
                MetaTraderCredentials {
                    login,
                    password: value_or_empty(vars.xm_password),
                    server: value_or_empty(vars.xm_server),
                    api_token: None,
                },
            ),
            None => None,
        };
        BrokerCredentials { bitget, metatrader, xm }
    }

    /// No credentials for any broker.
    pub fn empty() -> (c: Self)
        ensures
            c.bitget is None,
            c.metatrader is None,
            c.xm is None,
    {
        BrokerCredentials { bitget: None, metatrader: None, xm: None }
    }
}

} // verus!
