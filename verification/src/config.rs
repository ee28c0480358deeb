//! The service settings, read from the values of its environment variables.

use vstd::prelude::*;

use crate::models::opt_str;
use crate::text::{blank, is_blank, owned, parse_u16, parse_u16_spec};

verus! {

/// The settings of the service.
#[derive(Debug, Clone, PartialEq, Eq)]
pub struct Config {
    /// The bot token.
    pub token: String,
    /// The host to listen on.
    pub host: String,
    /// The port to listen on.
    pub port: u16,
    /// Where the key/value pairs are saved.
    pub kv_path: String,
    /// The guild to register the `/kv` command in, if any.
    pub guild_id: Option<String>,
}

/// Why the settings cannot be read.
#[derive(Debug, Clone, Copy, PartialEq, Eq, Structural)]
pub enum ConfigError {
    /// `DISCORD_TOKEN` is not set.
    MissingToken,
    /// `PORT` is not a valid port number.
    InvalidPort,
}

/// The port variable is unset or a valid port number.
pub open spec fn port_ok(port: Option<String>) -> bool {
    match port {
        Some(p) => parse_u16_spec(p@) is Some,
        None => true,
    }
}

/// The settings read from the variables `DISCORD_TOKEN`, `HOST`, `PORT`,
/// `KV_PATH` and `GUILD_ID` (each absent where unset): the token is
/// required; the host defaults to `127.0.0.1`, the port to 3000 and the path
/// to `storage/kv.json`; a blank guild id counts as none.
pub fn config_from_values(
    token: Option<String>,
    host: Option<String>,
    port: Option<String>,
    kv_path: Option<String>,
    guild_id: Option<String>,
) -> (r: Result<Config, ConfigError>)
    ensures
        token is None ==> r == Err::<Config, ConfigError>(ConfigError::MissingToken),
        token is Some && !port_ok(port) ==> r == Err::<Config, ConfigError>(ConfigError::InvalidPort),
        r matches Ok(c) ==> {
            &&& token is Some && c.token@ == token->0@
            &&& c.host@ == match host {
                Some(h) => h@,
                None => "127.0.0.1"@,
            }
            &&& Some(c.port) == match port {
                Some(p) => parse_u16_spec(p@),
                None => Some(3000u16),
            }
            &&& c.kv_path@ == match kv_path {
                Some(k) => k@,
                None => "storage/kv.json"@,
            }
            &&& opt_str(c.guild_id) == match guild_id {
                Some(g) => if is_blank(g@) {
                    None
                } else {
                    Some(g@)
                },
                None => None,
            }
        },
        token is Some && port_ok(port) ==> r is Ok,
{
    let token = match token {
        Some(t) => t,
        None => return Err(ConfigError::MissingToken),
    };
    let host = match host {
        Some(h) => h,
        None => owned("127.0.0.1"),
    };
    let port = match port {
        Some(p) => match parse_u16(p.as_str()) {
            Some(n) => n,
            None => return Err(ConfigError::InvalidPort),
        },
        None => 3000,
    };
    let kv_path = match kv_path {
        Some(k) => k,
        None => owned("storage/kv.json"),
    };
    let guild_id = match guild_id {
        Some(g) => if blank(g.as_str()) {
            None
        } else {
            Some(g)
        },
        None => None,
    };
    Ok(Config { token, host, port, kv_path, guild_id })
}

/// The character of a decimal digit.
pub open spec fn digit_char(d: nat) -> char {
    if d == 0 { '0' }
    else if d == 1 { '1' }
    else if d == 2 { '2' }
    else if d == 3 { '3' }
    else if d == 4 { '4' }
    else if d == 5 { '5' }
    else if d == 6 { '6' }
    else if d == 7 { '7' }
    else if d == 8 { '8' }
    else { '9' }
}

/// The decimal text of a number, without leading zeros (as `format!` writes it).
pub open spec fn decimal_text(n: nat) -> Seq<char>
    decreases n,
{
    if n < 10 {
        seq![digit_char(n)]
    } else {
        decimal_text(n / 10).push(digit_char(n % 10))
    }
}

fn digit_text(d: u16) -> (r: &'static str)
    requires
        d < 10,
    ensures
        r@ == seq![digit_char(d as nat)],
{
    proof {
        reveal_strlit("0");
        reveal_strlit("1");
        reveal_strlit("2");
        reveal_strlit("3");
        reveal_strlit("4");
        reveal_strlit("5");
        reveal_strlit("6");
        reveal_strlit("7");
        reveal_strlit("8");
        reveal_strlit("9");
    }
    if d == 0 {
        "0"
    } else if d == 1 {
        "1"
    } else if d == 2 {
        "2"
    } else if d == 3 {
        "3"
    } else if d == 4 {
        "4"
    } else if d == 5 {
        "5"
    } else if d == 6 {
        "6"
    } else if d == 7 {
        "7"
    } else if d == 8 {
        "8"
    } else {
        "9"
    }
}

fn decimal(n: u16) -> (r: String)
    ensures
        r@ == decimal_text(n as nat),
    decreases n,
{
    if n < 10 {
        owned(digit_text(n))
    } else {
        let mut r = decimal(n / 10);
        r.append(digit_text(n % 10));
        r
    }
}

impl Config {
    /// The address text to listen on, `host:port`, with the port in decimal;
    /// this is the text that is read as a socket address.
    pub fn bind_address(&self) -> (r: String)
        ensures
            r@ == self.host@ + ":"@ + decimal_text(self.port as nat),
    {
        let mut r = self.host.clone();
        r.append(":");
        r.append(decimal(self.port).as_str());
        r
    }
}

} // verus!
