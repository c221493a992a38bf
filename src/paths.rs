use vstd::prelude::*;
use vstd::string::*;

verus! {

/// Name of the configuration file inside the configuration root.
pub const CONFIG_FILE: &'static str = "config.yaml";

/// Name of the key file inside the configuration root.
pub const KEY_FILE: &'static str = "host.key";

/// The platform families, each with its own fixed storage location.
#[derive(Debug, Clone, Copy, PartialEq, Eq)]
pub enum Platform {
    Linux,
    MacOs,
    Windows,
}

/// The configuration root of a platform.
pub open spec fn root_of(p: Platform) -> Seq<char> {
    match p {
        Platform::Linux => "/etc/ebbflow"@,
        Platform::MacOs => "/usr/local/etc/ebbflow"@,
        Platform::Windows => "\\Program Files\\ebbflow"@,
    }
}

/// The native path separator of a platform.
pub open spec fn separator_of(p: Platform) -> Seq<char> {
    match p {
        Platform::Windows => "\\"@,
        _ => "/"@,
    }
}

/// A file of the configuration root, joined with the platform's separator.
pub open spec fn file_in_root(p: Platform, name: Seq<char>) -> Seq<char> {
    root_of(p) + separator_of(p) + name
}

/// The fixed configuration root of the platform.
pub fn config_path_root(p: Platform) -> (r: String)
    ensures
        r@ == root_of(p),
{
    match p {
        Platform::Linux => String::from_str("/etc/ebbflow"),
        Platform::MacOs => String::from_str("/usr/local/etc/ebbflow"),
        Platform::Windows => String::from_str("\\Program Files\\ebbflow"),
    }
}

fn join_in_root(p: Platform, name: &str) -> (r: String)
    ensures
        r@ == file_in_root(p, name@),
{
    let root = config_path_root(p);
    let sep: &'static str = match p {
        Platform::Windows => "\\",
        _ => "/",
    };
    root.concat(sep).concat(name)
}

/// Full path of the configuration file.
pub fn config_file_full(p: Platform) -> (r: String)
    ensures
        r@ == file_in_root(p, CONFIG_FILE@),
{
    join_in_root(p, CONFIG_FILE)
}

/// Full path of the key file.
pub fn key_file_full(p: Platform) -> (r: String)
    ensures
        r@ == file_in_root(p, KEY_FILE@),
{
    join_in_root(p, KEY_FILE)
}

} // verus!
