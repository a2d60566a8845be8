use vstd::prelude::*;

verus! {

/// What is known of a container's configuration.
pub struct ContainerConfiguration {
    pub flake: String,
    pub flake_lock: Option<String>,
    pub network: Option<String>,
    pub nvidia_gpus: Option<Vec<u64>>,
}

/// The settings a container is created with: its flake, the network zone it
/// joins, and the GPUs passed through to it.
pub struct ContainerSettings {
    pub flake: String,
    pub network: Option<String>,
    pub nvidia_gpus: Option<Vec<u64>>,
}

/// A change to one container: new settings, and the flake inputs to update
/// first, if any.
pub struct ContainerChange {
    pub settings: ContainerSettings,
    pub update_inputs: Option<Vec<String>>,
}

/// One desired change of a container.
pub enum ConfigurationAction {
    /// Creates or updates the container with these settings.
    SetContainer { container: String, settings: ContainerSettings, update_inputs: Option<Vec<String>> },
    /// Removes the container. A backup is not made here.
    RemoveContainer { container: String, backup: bool },
    /// Updates the named inputs of the container's flake and rebuilds it.
    UpdateContainer { container: String, inputs: Vec<String> },
}

} // verus!
