//! Where each host module lies relative to the host executable's directory,
//! and how it is opened.

use vstd::prelude::*;

verus! {

/// The host modules the plugin reads from.
#[derive(Clone, Copy, Debug, PartialEq, Eq, Structural)]
pub enum Module {
    Engine,
    Server,
    Client,
    MaterialSystem,
}

/// Relies on `libloading::library_filename`: the platform's library prefix,
/// then the name, then the platform's library suffix.
#[verifier::external_body]
fn library_filename(name: &str) -> (r: String)
    ensures
        exists|p: Seq<char>, q: Seq<char>| r@ == p + name@ + q,
{
    libloading::library_filename(name).to_string_lossy().into_owned()
}

/// The path of a module, one component per element, relative to the
/// executable's directory: the server's platform library name at the top,
/// the other modules under `bin/x64_retail`.
pub fn module_location(m: Module) -> (r: Vec<String>)
    ensures
        m == Module::Server ==> r@.len() == 1 && exists|p: Seq<char>, q: Seq<char>| r@[0]@ == p
            + "server"@ + q,
        m != Module::Server ==> {
            &&& r@.len() == 3
            &&& r@[0]@ == "bin"@
            &&& r@[1]@ == "x64_retail"@
            &&& m == Module::Engine ==> r@[2]@ == "engine.dll"@
            &&& m == Module::Client ==> r@[2]@ == "client.dll"@
            &&& m == Module::MaterialSystem ==> r@[2]@ == "materialsystem_dx11.dll"@
        },
{
    let mut r: Vec<String> = Vec::new();
    match m {
        Module::Server => {
            r.push(library_filename("server"));
        },
        _ => {
            r.push("bin".to_owned());
            r.push("x64_retail".to_owned());
            let file = match m {
                Module::Engine => "engine.dll",
                Module::Client => "client.dll",
                _ => "materialsystem_dx11.dll",
            };
            r.push(file.to_owned());
        },
    }
    r
}

/// Whether the module is opened with the search path altered to its own
/// directory, so that its dependencies resolve beside it. The server is
/// opened by name alone.
pub fn uses_altered_search_path(m: Module) -> (r: bool)
    ensures
        r == (m != Module::Server),
{
    match m {
        Module::Server => false,
        _ => true,
    }
}

} // verus!
