//! The line-based request protocol between the desktop shell and the core:
//! which methods there are and how their parameters are checked.
use vstd::prelude::*;

use crate::text::{owned, str_eq};

verus! {

/// The methods a request may name.
#[derive(Clone, Copy, PartialEq, Eq, Debug, Structural)]
pub enum RpcMethod {
    ConfigSave,
    HistoryGet,
    HistoryRemove,
    HistoryClear,
    ModelsList,
    ModelsSearch,
    ModelsDownload,
    ModelsDelete,
    ModelsReveal,
    AudioListDevices,
    RuntimeStart,
    RuntimeStop,
}

/// The name of each method on the wire.
pub open spec fn method_name(m: RpcMethod) -> Seq<char> {
    match m {
        RpcMethod::ConfigSave => "config.save"@,
        RpcMethod::HistoryGet => "history.get"@,
        RpcMethod::HistoryRemove => "history.remove"@,
        RpcMethod::HistoryClear => "history.clear"@,
        RpcMethod::ModelsList => "models.whisper.list"@,
        RpcMethod::ModelsSearch => "models.whisper.search"@,
        RpcMethod::ModelsDownload => "models.whisper.download"@,
        RpcMethod::ModelsDelete => "models.whisper.delete"@,
        RpcMethod::ModelsReveal => "models.whisper.reveal"@,
        RpcMethod::AudioListDevices => "audio.list_devices"@,
        RpcMethod::RuntimeStart => "runtime.start"@,
        RpcMethod::RuntimeStop => "runtime.stop"@,
    }
}

/// Each method has a name of its own, so a request naming a method is read
/// back as that method.
pub proof fn law_method_names_distinct(m: RpcMethod, n: RpcMethod)
    ensures
        method_name(m) == method_name(n) ==> m == n,
{
    reveal_strlit("config.save");
    reveal_strlit("history.get");
    reveal_strlit("history.remove");
    reveal_strlit("history.clear");
    reveal_strlit("models.whisper.list");
    reveal_strlit("models.whisper.search");
    reveal_strlit("models.whisper.download");
    reveal_strlit("models.whisper.delete");
    reveal_strlit("models.whisper.reveal");
    reveal_strlit("audio.list_devices");
    reveal_strlit("runtime.start");
    reveal_strlit("runtime.stop");
    if method_name(m) == method_name(n) && m != n {
        let a = method_name(m);
        let b = method_name(n);
        assert(a.len() == b.len());
        assert(a[0] == b[0]);
        assert(a[a.len() - 1] == b[b.len() - 1]);
        assert(a[a.len() - 2] == b[b.len() - 2]);
        assert(a[8] == b[8]);
        assert(a[14] == b[14]);
    }
}

/// The method a request names; a name that is none of them is refused.
pub fn rpc_method(name: &str) -> (r: Result<RpcMethod, String>)
    ensures
        r matches Ok(m) ==> method_name(m) == name@,
        forall|m: RpcMethod| method_name(m) == name@ ==> r == Ok::<RpcMethod, String>(m),
        r matches Err(e) ==> (forall|m: RpcMethod| method_name(m) != name@) && e@
            == "unknown method: "@ + name@,
{
    let r = rpc_method_lookup(name);
    proof {
        assert forall|m: RpcMethod| method_name(m) == name@ implies r == Ok::<RpcMethod, String>(m) by {
            if let Ok(found) = r {
                law_method_names_distinct(found, m);
            }
        }
    }
    r
}

fn rpc_method_lookup(name: &str) -> (r: Result<RpcMethod, String>)
    ensures
        r matches Ok(m) ==> method_name(m) == name@,
        r matches Err(e) ==> (forall|m: RpcMethod| method_name(m) != name@) && e@
            == "unknown method: "@ + name@,
{
    if str_eq(name, "config.save") {
        Ok(RpcMethod::ConfigSave)
    } else if str_eq(name, "history.get") {
        Ok(RpcMethod::HistoryGet)
    } else if str_eq(name, "history.remove") {
        Ok(RpcMethod::HistoryRemove)
    } else if str_eq(name, "history.clear") {
        Ok(RpcMethod::HistoryClear)
    } else if str_eq(name, "models.whisper.list") {
        Ok(RpcMethod::ModelsList)
    } else if str_eq(name, "models.whisper.search") {
        Ok(RpcMethod::ModelsSearch)
    } else if str_eq(name, "models.whisper.download") {
        Ok(RpcMethod::ModelsDownload)
    } else if str_eq(name, "models.whisper.delete") {
        Ok(RpcMethod::ModelsDelete)
    } else if str_eq(name, "models.whisper.reveal") {
        Ok(RpcMethod::ModelsReveal)
    } else if str_eq(name, "audio.list_devices") {
        Ok(RpcMethod::AudioListDevices)
    } else if str_eq(name, "runtime.start") {
        Ok(RpcMethod::RuntimeStart)
    } else if str_eq(name, "runtime.stop") {
        Ok(RpcMethod::RuntimeStop)
    } else {
        Err(crate::text::concat2("unknown method: ", name))
    }
}

/// The field of the result object with which a method that returns no data
/// acknowledges success (`{"saved": true}` and so on); none for the
/// methods that return data.
pub fn acknowledgement(m: RpcMethod) -> (r: Option<&'static str>)
    ensures
        match m {
            RpcMethod::ConfigSave => r matches Some(k) && k@ == "saved"@,
            RpcMethod::HistoryRemove => r matches Some(k) && k@ == "removed"@,
            RpcMethod::HistoryClear => r matches Some(k) && k@ == "cleared"@,
            RpcMethod::ModelsDelete => r matches Some(k) && k@ == "deleted"@,
            RpcMethod::ModelsReveal => r matches Some(k) && k@ == "revealed"@,
            RpcMethod::RuntimeStart => r matches Some(k) && k@ == "started"@,
            RpcMethod::RuntimeStop => r matches Some(k) && k@ == "stopped"@,
            _ => r is None,
        },
{
    match m {
        RpcMethod::ConfigSave => Some("saved"),
        RpcMethod::HistoryRemove => Some("removed"),
        RpcMethod::HistoryClear => Some("cleared"),
        RpcMethod::ModelsDelete => Some("deleted"),
        RpcMethod::ModelsReveal => Some("revealed"),
        RpcMethod::RuntimeStart => Some("started"),
        RpcMethod::RuntimeStop => Some("stopped"),
        _ => None,
    }
}

/// A required string parameter: `params_given` tells whether the request
/// had parameters, `field` is the parameter `key` where it is a string.
pub fn required_string_param(params_given: bool, field: Option<String>, key: &str) -> (r: Result<
    String,
    String,
>)
    ensures
        !params_given ==> (r matches Err(e) && e@ == "missing params"@),
        params_given && field is None ==> (r matches Err(e) && e@ == "missing string param: "@
            + key@),
        params_given && field is Some ==> (r matches Ok(v) && v@ == field->Some_0@),
{
    if !params_given {
        return Err(owned("missing params"));
    }
    match field {
        Some(v) => Ok(v),
        None => Err(crate::text::concat2("missing string param: ", key)),
    }
}

/// The configuration a `config.save` request carries: `params_given` tells
/// whether it had parameters, `config_given` whether they hold `config`,
/// and `parsed` is that value read as a configuration (or the reason it
/// could not be).
pub fn config_params<C>(params_given: bool, config_given: bool, parsed: Result<C, String>) -> (r:
    Result<C, String>)
    ensures
        !params_given ==> (r matches Err(e) && e@ == "missing params"@),
        params_given && !config_given ==> (r matches Err(e) && e@ == "missing config param"@),
        params_given && config_given ==> match parsed {
            Ok(c) => r matches Ok(x) && x == c,
            Err(p) => r matches Err(e) && e@ == "invalid config params: "@ + p@,
        },
{
    if !params_given {
        return Err(owned("missing params"));
    }
    if !config_given {
        return Err(owned("missing config param"));
    }
    match parsed {
        Ok(c) => Ok(c),
        Err(p) => Err(crate::text::concat2("invalid config params: ", p.as_str())),
    }
}

} // verus!
