use vstd::prelude::*;
use crate::sql::all_decimal;
use crate::sql::digits_value;

verus! {

pub const DEFAULT_PORT: u16 = 80;
pub const DEFAULT_PORT_DEV: u16 = 8001;
pub const PG_CONFIG: &'static str = "host=postgres-server user=postgres dbname=postgres";
pub const PG_CONFIG_DEV: &'static str = "host=localhost user=postgres dbname=postgres";

/// The `u16` that `s` writes: an optional `+`, then one or more ASCII digits,
/// nothing else, in range.
pub open spec fn u16_of(s: Seq<char>) -> Option<u16> {
    let digits = if s.len() > 0 && s[0] == '+' { s.drop_first() } else { s };
    if all_decimal(digits) && digits_value(digits) <= u16::MAX {
        Some(digits_value(digits) as u16)
    } else {
        None
    }
}

/// Relies on `u16`'s `FromStr`: an optional `+` and ASCII digits, in range.
#[verifier::external_body]
fn parse_u16(s: &str) -> (r: Option<u16>)
    ensures
        r == u16_of(s@),
{
    match s.parse::<u16>() {
        Ok(v) => Some(v),
        Err(_) => None,
    }
}

/// The port that the `--port` argument asks for, if it was given and is a port number.
pub fn args_port(value: Option<&str>) -> (r: Option<u16>)
    ensures
        match value {
            Some(v) => r == u16_of(v@),
            None => r is None,
        },
{
    match value {
        Some(v) => parse_u16(v),
        None => None,
    }
}

/// The port to listen on: the one asked for where it is a port number, else
/// the default of the mode.
pub fn server_port(dev: bool, port_arg: Option<&str>) -> (r: u16)
    ensures
        match port_arg {
            Some(v) if u16_of(v@) is Some => r == u16_of(v@)->Some_0,
            _ => r == (if dev { DEFAULT_PORT_DEV } else { DEFAULT_PORT }),
        },
{
    match args_port(port_arg) {
        Some(p) => p,
        None => if dev {
            DEFAULT_PORT_DEV
        } else {
            DEFAULT_PORT
        },
    }
}

/// The database connection settings of the mode.
pub fn pg_config(dev: bool) -> (r: &'static str)
    ensures
        r@ == (if dev { PG_CONFIG_DEV@ } else { PG_CONFIG@ }),
{
    if dev {
        PG_CONFIG_DEV
    } else {
        PG_CONFIG
    }
}

} // verus!
