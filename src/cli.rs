use vstd::prelude::*;
use crate::text::{
    decimal,
    decimal_string,
    parse_u16,
    parse_u16_spec,
    push_text,
    same_text,
    text_of,
};

verus! {

/// Host listened on when no `--host` flag is given.
pub const DEFAULT_HOST: &'static str = "127.0.0.1";

/// Port listened on when neither `--port` nor `PORT` gives a valid one.
pub const DEFAULT_PORT: u16 = 8080;

/// The characters of each argument.
pub open spec fn arg_views(args: Seq<String>) -> Seq<Seq<char>> {
    args.map_values(|a: String| a@)
}

/// The argument right after the first occurrence of `name` that has one
/// after it.
pub open spec fn flag_value_spec(args: Seq<Seq<char>>, name: Seq<char>) -> Option<Seq<char>>
    decreases args.len(),
{
    if args.len() < 2 {
        None
    } else if args[0] == name {
        Some(args[1])
    } else {
        flag_value_spec(args.drop_first(), name)
    }
}

/// The value given to flag `name`: the argument that follows the first
/// argument equal to `name`, among adjacent pairs.
pub fn parse_flag_value(args: &[String], name: &str) -> (r: Option<String>)
    ensures
        text_of(r) == flag_value_spec(arg_views(args@), name@),
{
    let ghost views = arg_views(args@);
    let mut i: usize = 0;
    assert(views.subrange(0, views.len() as int) == views);
    while args.len() - i >= 2
        invariant
            i <= args@.len(),
            views == arg_views(args@),
            flag_value_spec(views, name@) == flag_value_spec(
                views.subrange(i as int, views.len() as int),
                name@,
            ),
        decreases args.len() - i,
    {
        let ghost rest = views.subrange(i as int, views.len() as int);
        assert(rest[0] == args@[i as int]@);
        assert(rest[1] == args@[i + 1]@);
        if same_text(&args[i], name) {
            return Some(args[i + 1].clone());
        }
        assert(rest.drop_first() == views.subrange(i + 1, views.len() as int));
        i = i + 1;
    }
    None
}

/// The port that the arguments and the `PORT` value select, if any: a valid
/// `--port` value first, else a valid `PORT` value.
pub open spec fn port_spec(args: Seq<Seq<char>>, env_port: Option<Seq<char>>) -> Option<u16> {
    let from_flag = match flag_value_spec(args, "--port"@) {
        Some(v) => parse_u16_spec(v),
        None => None,
    };
    if from_flag is Some {
        from_flag
    } else {
        match env_port {
            Some(e) => parse_u16_spec(e),
            None => None,
        }
    }
}

/// Picks the port from a `--port` flag, else from the value of `PORT`;
/// a value that is no valid port counts as absent.
pub fn parse_port(args: &[String], env_port: Option<String>) -> (r: Option<u16>)
    ensures
        r == port_spec(arg_views(args@), text_of(env_port)),
{
    let from_flag = match parse_flag_value(args, "--port") {
        Some(v) => parse_u16(v.as_str()),
        None => None,
    };
    if from_flag.is_some() {
        return from_flag;
    }
    match env_port {
        Some(e) => parse_u16(e.as_str()),
        None => None,
    }
}

/// The help text printed for an unknown command.
pub fn usage() -> (r: &'static str)
    ensures
        r@ == "Usage: zeroclaw gateway [--host <ip>] [--port <port>]\nExample: zeroclaw gateway --host 0.0.0.0 --port 8080"@,
{
    "Usage: zeroclaw gateway [--host <ip>] [--port <port>]\nExample: zeroclaw gateway --host 0.0.0.0 --port 8080"
}

/// Where the gateway listens.
pub struct Listen {
    pub host: String,
    pub port: u16,
}

/// Whether the arguments start with the `gateway` command.
pub open spec fn is_gateway_command(args: Seq<Seq<char>>) -> bool {
    args.len() > 0 && args[0] == "gateway"@
}

impl Listen {
    /// The `host:port` text to bind to.
    pub fn address(&self) -> (r: String)
        ensures
            r@ == self.host@ + ":"@ + decimal(self.port as nat),
    {
        let mut r = self.host.clone();
        push_text(&mut r, ":");
        let digits = decimal_string(self.port as usize);
        push_text(&mut r, digits.as_str());
        r
    }
}

/// What to listen on for these arguments and `PORT` value, or `None` when
/// the first argument is not `gateway` (the caller then prints the usage).
pub fn gateway_config(args: &[String], env_port: Option<String>) -> (r: Option<Listen>)
    ensures
        r is Some <==> is_gateway_command(arg_views(args@)),
        r matches Some(l) ==> {
            &&& l.host@ == match flag_value_spec(arg_views(args@), "--host"@) {
                Some(h) => h,
                None => DEFAULT_HOST@,
            }
            &&& l.port == match port_spec(arg_views(args@), text_of(env_port)) {
                Some(p) => p,
                None => DEFAULT_PORT,
            }
        },
{
    if args.len() == 0 || !same_text(&args[0], "gateway") {
        return None;
    }
    let host = match parse_flag_value(args, "--host") {
        Some(h) => h,
        None => DEFAULT_HOST.to_owned(),
    };
    let port = match parse_port(args, env_port) {
        Some(p) => p,
        None => DEFAULT_PORT,
    };
    Some(Listen { host, port })
}

} // verus!
