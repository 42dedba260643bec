use vstd::prelude::*;

verus! {

/// The message returned when the host cannot resolve a configuration directory.
pub const CONFIG_DIR_UNAVAILABLE: &'static str = "Could not determine app config directory";

/// Turns the host platform's answer into the reply of the configuration
/// directory command: the resolved path verbatim, or the one error message
/// when the host resolved none.
pub fn get_app_config_dir(resolved: Option<String>) -> (r: Result<String, String>)
    ensures
        resolved is Some <==> r is Ok,
        resolved is Some ==> r->Ok_0@ == resolved->Some_0@,
        resolved is None ==> r->Err_0@ == CONFIG_DIR_UNAVAILABLE@,
{
    match resolved {
        Some(path) => Ok(path),
        None => Err(String::from_str(CONFIG_DIR_UNAVAILABLE)),
    }
}

} // verus!
