//! The Mattermost notification: a script posts the club status to the
//! `clubstatus` channel and renames the channel after it. The library decides
//! how the script is run.
pub mod client;
pub mod configuration;
pub mod types;

use vstd::prelude::*;
use vstd::string::*;

use self::configuration::MatterMost;
use crate::text::{bool_text, bool_word, decimal, decimal_text};

verus! {

/// A program and its arguments. No `Debug`: the arguments hold the API token.
#[derive(Clone)]
pub struct ScriptCall {
    pub program: String,
    pub args: Vec<String>,
}

/// The arguments the posting script gets: the script text after `-c`, then
/// the server's host, login, API token, scheme and port, and the lock switch
/// state as `true` or `false`.
pub open spec fn script_arguments(configuration: MatterMost, code: Seq<char>, state: bool) -> Seq<
    Seq<char>,
> {
    seq![
        "-c"@,
        code,
        configuration.url@,
        configuration.loginid@,
        configuration.apitoken@,
        configuration.scheme@,
        decimal(configuration.port as nat),
        bool_word(state),
    ]
}

/// How the posting script `code` is run for the lock switch `state`: with the
/// configured interpreter and the arguments `script_arguments` lists. Nothing
/// is run where Mattermost is disabled.
pub fn script_call(configuration: &MatterMost, code: &str, state: bool) -> (r: Option<ScriptCall>)
    ensures
        r is None <==> !configuration.enable,
        r matches Some(call) ==> {
            &&& call.program@ == configuration.python@
            &&& call.args.deep_view() == script_arguments(*configuration, code@, state)
        },
{
    if !configuration.enable {
        return None;
    }
    let mut args: Vec<String> = Vec::new();
    args.push(String::from_str("-c"));
    args.push(String::from_str(code));
    args.push(configuration.url.clone());
    args.push(configuration.loginid.clone());
    args.push(configuration.apitoken.clone());
    args.push(configuration.scheme.clone());
    args.push(decimal_text(configuration.port as u64));
    args.push(bool_text(state));
    proof {
        assert(args.deep_view() =~= script_arguments(*configuration, code@, state));
    }
    Some(ScriptCall { program: configuration.python.clone(), args })
}

/// The posting script gets the configured values verbatim, whatever their
/// length: eight arguments, `-c` and the script text, then host, login,
/// API token and scheme unchanged, the port in decimal, and `true` for an
/// open lock or `false` for a closed one.
pub proof fn lemma_script_arguments_verbatim(configuration: MatterMost, code: Seq<char>, state: bool)
    ensures
        ({
            let args = script_arguments(configuration, code, state);
            &&& args.len() == 8
            &&& args[0] == "-c"@
            &&& args[1] == code
            &&& args[2] == configuration.url@
            &&& args[3] == configuration.loginid@
            &&& args[4] == configuration.apitoken@
            &&& args[5] == configuration.scheme@
            &&& args[6].len() > 0
            &&& crate::text::decimal_value(args[6]) == configuration.port as int
            &&& (forall|i: int| 0 <= i < args[6].len() ==> '0' <= #[trigger] args[6][i] <= '9')
            &&& (args[6][0] == '0' ==> configuration.port == 0)
            &&& args[7] == (if state { "true"@ } else { "false"@ })
        }),
{
    crate::text::lemma_decimal_is_notation(configuration.port as nat);
}

} // verus!
