//! Startup-level failures of the gateway process, and the output choice
//! of the configuration-inspection command.

use vstd::prelude::*;
use vstd::string::StringExecFns;

verus! {

/// Everything that can stop the gateway before it serves: settings that
/// do not load, a backend address that does not resolve, a connection
/// pool that cannot be built, a backend that fails the version check, or
/// a log file that cannot be opened. Each variant carries the collaborator's
/// own message.
#[derive(Debug, Clone, PartialEq)]
pub enum Error {
    ElasticsearchConnectionPoolCreation { msg: String },
    ElasticsearchConnection { msg: String },
    SettingsProcessing { msg: String },
    SockAddr { host: String, port: u16, msg: String },
    AddrResolution { msg: String },
    InitLog { msg: String },
}

/// What the configuration-inspection command prints, given the rendering
/// of the whole settings value, the key asked for (if any), and the
/// rendering of that key's value (when the key exists): with no key the
/// whole settings; with a key that exists, its value; with a key that
/// does not, a fixed complaint naming the key.
pub fn config_output(setting: Option<String>, looked_up: Option<String>, whole: String) -> (out:
    String)
    ensures
        setting is None ==> out == whole,
        setting is Some && looked_up is Some ==> out == looked_up->0,
        setting is Some && looked_up is None ==> out@ == "could not find key '"@ + (setting->0)@
            + "'"@,
{
    match setting {
        None => whole,
        Some(key) => match looked_up {
            Some(value) => value,
            None => {
                let mut out = String::from_str("could not find key '");
                out.append(key.as_str());
                out.append("'");
                out
            },
        },
    }
}

} // verus!
