use vstd::prelude::*;

verus! {

/// A change of the host's configuration: each setting given is written, and
/// the named flake inputs are updated, before the system is rebuilt.
pub struct OSChange {
    pub flake: Option<String>,
    pub update_inputs: Option<Vec<String>>,
    pub xnode_owner: Option<String>,
    pub domain: Option<String>,
    pub acme_email: Option<String>,
    pub user_passwd: Option<String>,
    /// Whether the rebuild may restart this manager.
    pub as_child: bool,
}

/// The host's configuration.
pub struct OSConfiguration {
    pub flake: String,
    pub flake_lock: String,
    pub xnode_owner: Option<String>,
    pub domain: Option<String>,
    pub acme_email: Option<String>,
    pub user_passwd: Option<String>,
}

} // verus!
