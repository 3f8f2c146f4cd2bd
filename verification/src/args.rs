//! The command-line arguments, as plain values, and the session they build.

use crate::session::Joker;
use crate::session::JokerView;
use vstd::prelude::*;
use vstd::string::*;

verus! {

/// How many workers mining may use.
pub struct MineArgs {
    pub threads: u8,
}

/// Which task the process was asked to run.
pub enum Commands {
    Mine(MineArgs),
    Info,
    Records,
}

/// The command-line arguments.
pub struct Args {
    pub cookie: String,
    pub session_cookie: Option<String>,
    pub authorization: String,
    pub cf_response: Option<String>,
    pub proxy: Option<String>,
    pub command: Commands,
}

fn clone_opt_string(o: &Option<String>) -> (r: Option<String>)
    ensures
        r.deep_view() == o.deep_view(),
{
    match o {
        Some(v) => Some(v.clone()),
        None => None,
    }
}

/// The session a command line yields: named after the protocol, the bearer
/// prefix on the token, and two workers until told otherwise.
pub fn create_joker_instance(args: &Args) -> (r: Joker)
    requires
        args.session_cookie is Some,
    ensures
        r@ == (JokerView {
            name: "Joker"@,
            cookie: args.cookie@,
            session_cookie: args.session_cookie.unwrap()@,
            authorization: "Bearer "@ + args.authorization@,
            cf_response: args.cf_response.deep_view(),
            pow_id: None,
            proxy: args.proxy.deep_view(),
            threads: 2,
            chained: true,
            cycle_count: 0,
            cumulative_solve_time_ms: 0,
        }),
{
    let mut authorization = String::from_str("Bearer ");
    authorization.append(args.authorization.as_str());
    Joker::new(
        String::from_str("Joker"),
        args.cookie.clone(),
        args.session_cookie.as_ref().unwrap().clone(),
        authorization,
        clone_opt_string(&args.cf_response),
        None,
        clone_opt_string(&args.proxy),
        2,
    )
}

} // verus!
