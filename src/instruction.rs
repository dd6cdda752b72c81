//! The operations a client can ask for, and the permission check each runs.
use vstd::prelude::*;

use crate::compression::CompressionProof;
use crate::lifecycle::Lifecycle;
use crate::plugins::{Plugin, PluginType};
use crate::state::Authority;

verus! {

/// Instructions supported by the program.
#[derive(Clone, Debug)]
pub enum MplAssetInstruction {
    /// Create a new asset, with or without plugins.
    Create { name: Vec<u8>, uri: Vec<u8>, plugins: Vec<Plugin> },
    /// Create a new collection, with or without plugins.
    CreateCollection { name: Vec<u8>, uri: Vec<u8>, plugins: Vec<Plugin> },
    /// Add a plugin to an asset.
    AddPlugin { plugin: Plugin },
    /// Add a plugin to a collection.
    AddCollectionPlugin { plugin: Plugin },
    /// Remove a plugin from an asset.
    RemovePlugin { plugin_type: PluginType },
    /// Remove a plugin from a collection.
    RemoveCollectionPlugin { plugin_type: PluginType },
    /// Update a plugin of an asset.
    UpdatePlugin { plugin: Plugin },
    /// Update a plugin of a collection.
    UpdateCollectionPlugin { plugin: Plugin },
    /// Add an authority to a plugin of an asset.
    AddPluginAuthority { plugin_type: PluginType, new_authority: Authority },
    /// Add an authority to a plugin of a collection.
    AddCollectionPluginAuthority { plugin_type: PluginType, new_authority: Authority },
    /// Remove an authority from a plugin of an asset.
    RemovePluginAuthority { plugin_type: PluginType, authority_to_remove: Authority },
    /// Remove an authority from a plugin of a collection.
    RemoveCollectionPluginAuthority { plugin_type: PluginType, authority_to_remove: Authority },
    /// Burn an asset.
    Burn,
    /// Burn a collection.
    BurnCollection,
    /// Transfer an asset by changing its owner.
    Transfer,
    /// Update an asset.
    Update { new_name: Option<Vec<u8>>, new_uri: Option<Vec<u8>> },
    /// Update a collection.
    UpdateCollection { new_name: Option<Vec<u8>>, new_uri: Option<Vec<u8>> },
    /// Replace an asset by the digest of it and its plugins.
    Compress,
    /// Restore a compressed asset from a proof.
    Decompress { proof: CompressionProof },
    /// Collect fees.
    Collect,
}

/// The permission check an instruction runs, where it runs one.
pub open spec fn lifecycle_of(i: MplAssetInstruction) -> Option<Lifecycle> {
    match i {
        MplAssetInstruction::AddPlugin { .. } | MplAssetInstruction::AddCollectionPlugin { .. } => Some(
            Lifecycle::AddPlugin,
        ),
        MplAssetInstruction::RemovePlugin { .. }
        | MplAssetInstruction::RemoveCollectionPlugin { .. } => Some(Lifecycle::RemovePlugin),
        MplAssetInstruction::UpdatePlugin { .. }
        | MplAssetInstruction::UpdateCollectionPlugin { .. } => Some(Lifecycle::UpdatePlugin),
        MplAssetInstruction::AddPluginAuthority { .. }
        | MplAssetInstruction::AddCollectionPluginAuthority { .. } => Some(
            Lifecycle::AddPluginAuthority,
        ),
        MplAssetInstruction::RemovePluginAuthority { .. }
        | MplAssetInstruction::RemoveCollectionPluginAuthority { .. } => Some(
            Lifecycle::RemovePluginAuthority,
        ),
        MplAssetInstruction::Burn | MplAssetInstruction::BurnCollection => Some(Lifecycle::Burn),
        MplAssetInstruction::Transfer => Some(Lifecycle::Transfer),
        MplAssetInstruction::Update { .. } | MplAssetInstruction::UpdateCollection { .. } => Some(
            Lifecycle::Update,
        ),
        MplAssetInstruction::Compress => Some(Lifecycle::Compress),
        MplAssetInstruction::Decompress { .. } => Some(Lifecycle::Decompress),
        _ => None,
    }
}

impl MplAssetInstruction {
    /// The permission check the instruction runs, where it runs one.
    pub fn lifecycle(&self) -> (r: Option<Lifecycle>)
        ensures
            r == lifecycle_of(*self),
    {
        match self {
            MplAssetInstruction::AddPlugin { .. }
            | MplAssetInstruction::AddCollectionPlugin { .. } => Some(Lifecycle::AddPlugin),
            MplAssetInstruction::RemovePlugin { .. }
            | MplAssetInstruction::RemoveCollectionPlugin { .. } => Some(Lifecycle::RemovePlugin),
            MplAssetInstruction::UpdatePlugin { .. }
            | MplAssetInstruction::UpdateCollectionPlugin { .. } => Some(Lifecycle::UpdatePlugin),
            MplAssetInstruction::AddPluginAuthority { .. }
            | MplAssetInstruction::AddCollectionPluginAuthority { .. } => Some(
                Lifecycle::AddPluginAuthority,
            ),
            MplAssetInstruction::RemovePluginAuthority { .. }
            | MplAssetInstruction::RemoveCollectionPluginAuthority { .. } => Some(
                Lifecycle::RemovePluginAuthority,
            ),
            MplAssetInstruction::Burn | MplAssetInstruction::BurnCollection => Some(
                Lifecycle::Burn,
            ),
            MplAssetInstruction::Transfer => Some(Lifecycle::Transfer),
            MplAssetInstruction::Update { .. } | MplAssetInstruction::UpdateCollection { .. } => Some(
                Lifecycle::Update,
            ),
            MplAssetInstruction::Compress => Some(Lifecycle::Compress),
            MplAssetInstruction::Decompress { .. } => Some(Lifecycle::Decompress),
            _ => None,
        }
    }
}

} // verus!
