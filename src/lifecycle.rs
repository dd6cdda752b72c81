//! Which entities take part in authorizing each operation, and how each of
//! them votes.
use vstd::prelude::*;

use crate::address::Address;
use crate::error::MplCoreError;
use crate::plugins::{PermanentBurn, Plugin, PluginType};
use crate::state::{Asset, AssetView, Authority, Collection, CollectionView, UpdateAuthority};

verus! {

/// Whether an entity takes part in authorizing an operation, whoever calls.
#[derive(Clone, Copy, Debug, PartialEq, Eq, Structural)]
pub enum CheckResult {
    /// It takes no part.
    Abstain,
    CanApprove,
    CanReject,
}

/// What an entity says of one caller's request.
#[derive(Clone, Copy, Debug, PartialEq, Eq, Structural)]
pub enum ValidationResult {
    Approved,
    Rejected,
    Pass,
    /// Approval that no missing core approval can undo.
    ForceApproved,
}

/// The operations whose permission is checked.
#[derive(Clone, Copy, Debug, PartialEq, Eq, Structural)]
pub enum Lifecycle {
    AddPlugin,
    RemovePlugin,
    UpdatePlugin,
    AddPluginAuthority,
    RemovePluginAuthority,
    Transfer,
    Burn,
    Update,
    Compress,
    Decompress,
}

pub open spec fn participates(c: CheckResult) -> bool {
    c != CheckResult::Abstain
}

/// Whether the asset itself takes part in `op`.
pub open spec fn asset_check_spec(op: Lifecycle) -> CheckResult {
    match op {
        Lifecycle::Transfer | Lifecycle::Burn | Lifecycle::Update | Lifecycle::AddPlugin
        | Lifecycle::Compress | Lifecycle::Decompress => CheckResult::CanApprove,
        _ => CheckResult::Abstain,
    }
}

/// Whether a collection itself takes part in `op`.
pub open spec fn collection_check_spec(op: Lifecycle) -> CheckResult {
    match op {
        Lifecycle::Update | Lifecycle::AddPlugin | Lifecycle::Burn => CheckResult::CanApprove,
        _ => CheckResult::Abstain,
    }
}

/// Whether a plugin of type `t` takes part in `op`.
pub open spec fn plugin_check_spec(op: Lifecycle, t: PluginType) -> CheckResult {
    match op {
        Lifecycle::RemovePlugin | Lifecycle::UpdatePlugin | Lifecycle::AddPluginAuthority
        | Lifecycle::RemovePluginAuthority => CheckResult::CanApprove,
        Lifecycle::Transfer => match t {
            PluginType::Freeze => CheckResult::CanReject,
            PluginType::Transfer => CheckResult::CanApprove,
            _ => CheckResult::Abstain,
        },
        Lifecycle::Burn => match t {
            PluginType::Freeze => CheckResult::CanReject,
            PluginType::Burn | PluginType::PermanentBurn => CheckResult::CanApprove,
            _ => CheckResult::Abstain,
        },
        Lifecycle::Update | Lifecycle::AddPlugin => match t {
            PluginType::UpdateDelegate => CheckResult::CanApprove,
            _ => CheckResult::Abstain,
        },
        Lifecycle::Compress | Lifecycle::Decompress => CheckResult::Abstain,
    }
}

/// Whether `caller` updates the asset: it is the asset's update address, or
/// the update authority of the collection the asset defers to, given as
/// `parent` with its address.
pub open spec fn is_update_authority(
    asset: AssetView,
    caller: Address,
    parent: Option<(Address, CollectionView)>,
) -> bool {
    match asset.update_authority {
        UpdateAuthority::Nobody => false,
        UpdateAuthority::Address(a) => a == caller,
        UpdateAuthority::Collection(c) => match parent {
            Some((k, cv)) => k == c && cv.update_authority == caller,
            None => false,
        },
    }
}

/// The asset's own vote on `op`.
pub open spec fn validate_asset_spec(
    op: Lifecycle,
    asset: AssetView,
    caller: Address,
    parent: Option<(Address, CollectionView)>,
) -> ValidationResult {
    match op {
        Lifecycle::Transfer | Lifecycle::Burn | Lifecycle::Compress | Lifecycle::Decompress => {
            if asset.owner == caller {
                ValidationResult::Approved
            } else {
                ValidationResult::Pass
            }
        },
        Lifecycle::Update | Lifecycle::AddPlugin => {
            if is_update_authority(asset, caller, parent) {
                ValidationResult::Approved
            } else {
                ValidationResult::Pass
            }
        },
        _ => ValidationResult::Pass,
    }
}

/// A collection's own vote on `op`.
pub open spec fn validate_collection_spec(
    op: Lifecycle,
    collection: CollectionView,
    caller: Address,
) -> ValidationResult {
    match op {
        Lifecycle::Update | Lifecycle::AddPlugin | Lifecycle::Burn => {
            if collection.update_authority == caller {
                ValidationResult::Approved
            } else {
                ValidationResult::Pass
            }
        },
        _ => ValidationResult::Pass,
    }
}

/// Whether a plugin's grant covers `caller`, whose role on the asset is
/// `resolved` where it could be named.
pub open spec fn grant_matches(grant: Authority, caller: Address, resolved: Option<Authority>) -> bool {
    match grant {
        Authority::Nobody => false,
        Authority::Pubkey { address } => address == caller,
        Authority::Permanent { address } => address == caller,
        _ => resolved == Some(grant),
    }
}

pub open spec fn approve_if(b: bool) -> ValidationResult {
    if b {
        ValidationResult::Approved
    } else {
        ValidationResult::Pass
    }
}

/// A plugin's vote on `op`, given the plugin's grant.
pub open spec fn validate_plugin_spec(
    op: Lifecycle,
    plugin: Plugin,
    caller: Address,
    grant: Authority,
    resolved: Option<Authority>,
) -> ValidationResult {
    match op {
        Lifecycle::RemovePluginAuthority => match plugin {
            Plugin::PermanentBurn(_) => ValidationResult::Approved,
            _ => approve_if(grant_matches(grant, caller, resolved)),
        },
        Lifecycle::RemovePlugin | Lifecycle::UpdatePlugin | Lifecycle::AddPluginAuthority => {
            approve_if(grant_matches(grant, caller, resolved))
        },
        Lifecycle::Transfer => match plugin {
            Plugin::Freeze(f) => if f.frozen {
                ValidationResult::Rejected
            } else {
                ValidationResult::Pass
            },
            Plugin::Transfer(_) => approve_if(grant_matches(grant, caller, resolved)),
            _ => ValidationResult::Pass,
        },
        Lifecycle::Burn => match plugin {
            Plugin::Freeze(f) => if f.frozen {
                ValidationResult::Rejected
            } else {
                ValidationResult::Pass
            },
            Plugin::Burn(_) => approve_if(grant_matches(grant, caller, resolved)),
            Plugin::PermanentBurn(_) => if resolved == Some(grant) {
                ValidationResult::ForceApproved
            } else {
                ValidationResult::Pass
            },
            _ => ValidationResult::Pass,
        },
        Lifecycle::Update | Lifecycle::AddPlugin => match plugin {
            Plugin::UpdateDelegate(_) => approve_if(grant_matches(grant, caller, resolved)),
            _ => ValidationResult::Pass,
        },
        Lifecycle::Compress | Lifecycle::Decompress => ValidationResult::Pass,
    }
}

fn grants(grant: &Authority, caller: &Address, resolved: Option<Authority>) -> (r: bool)
    ensures
        r == grant_matches(*grant, *caller, resolved),
{
    match grant {
        Authority::Nobody => false,
        Authority::Pubkey { address } => *address == *caller,
        Authority::Permanent { address } => *address == *caller,
        _ => match resolved {
            Some(a) => a == *grant,
            None => false,
        },
    }
}

fn approve_when(b: bool) -> (r: ValidationResult)
    ensures
        r == approve_if(b),
{
    if b {
        ValidationResult::Approved
    } else {
        ValidationResult::Pass
    }
}

impl Lifecycle {
    pub fn asset_check(&self) -> (r: CheckResult)
        ensures
            r == asset_check_spec(*self),
    {
        match self {
            Lifecycle::Transfer | Lifecycle::Burn | Lifecycle::Update | Lifecycle::AddPlugin
            | Lifecycle::Compress | Lifecycle::Decompress => CheckResult::CanApprove,
            _ => CheckResult::Abstain,
        }
    }

    pub fn collection_check(&self) -> (r: CheckResult)
        ensures
            r == collection_check_spec(*self),
    {
        match self {
            Lifecycle::Update | Lifecycle::AddPlugin | Lifecycle::Burn => CheckResult::CanApprove,
            _ => CheckResult::Abstain,
        }
    }

    pub fn plugin_check(&self, t: &PluginType) -> (r: CheckResult)
        ensures
            r == plugin_check_spec(*self, *t),
    {
        match self {
            Lifecycle::RemovePlugin | Lifecycle::UpdatePlugin | Lifecycle::AddPluginAuthority
            | Lifecycle::RemovePluginAuthority => CheckResult::CanApprove,
            Lifecycle::Transfer => match t {
                PluginType::Freeze => CheckResult::CanReject,
                PluginType::Transfer => CheckResult::CanApprove,
                _ => CheckResult::Abstain,
            },
            Lifecycle::Burn => match t {
                PluginType::Freeze => CheckResult::CanReject,
                PluginType::Burn | PluginType::PermanentBurn => CheckResult::CanApprove,
                _ => CheckResult::Abstain,
            },
            Lifecycle::Update | Lifecycle::AddPlugin => match t {
                PluginType::UpdateDelegate => CheckResult::CanApprove,
                _ => CheckResult::Abstain,
            },
            Lifecycle::Compress | Lifecycle::Decompress => CheckResult::Abstain,
        }
    }

    pub fn validate_asset(
        &self,
        asset: &Asset,
        caller: &Address,
        parent: Option<(Address, &Collection)>,
    ) -> (r: ValidationResult)
        ensures
            r == validate_asset_spec(
                *self,
                asset@,
                *caller,
                match parent {
                    Some((k, c)) => Some((k, c@)),
                    None => None,
                },
            ),
    {
        match self {
            Lifecycle::Transfer | Lifecycle::Burn | Lifecycle::Compress | Lifecycle::Decompress => {
                approve_when(asset.owner == *caller)
            },
            Lifecycle::Update | Lifecycle::AddPlugin => {
                let ua = match asset.update_authority {
                    UpdateAuthority::Nobody => false,
                    UpdateAuthority::Address(a) => a == *caller,
                    UpdateAuthority::Collection(c) => match parent {
                        Some((k, cv)) => k == c && cv.update_authority == *caller,
                        None => false,
                    },
                };
                approve_when(ua)
            },
            _ => ValidationResult::Pass,
        }
    }

    pub fn validate_collection(&self, collection: &Collection, caller: &Address) -> (r:
        ValidationResult)
        ensures
            r == validate_collection_spec(*self, collection@, *caller),
    {
        match self {
            Lifecycle::Update | Lifecycle::AddPlugin | Lifecycle::Burn => {
                approve_when(collection.update_authority == *caller)
            },
            _ => ValidationResult::Pass,
        }
    }

    /// A plugin's vote; `new_owner` is where a transfer would take the asset.
    pub fn validate_plugin(
        &self,
        plugin: &Plugin,
        caller: &Address,
        new_owner: Option<Address>,
        grant: &Authority,
        resolved: Option<Authority>,
    ) -> (r: ValidationResult)
        ensures
            r == validate_plugin_spec(*self, *plugin, *caller, *grant, resolved),
    {
        match self {
            Lifecycle::RemovePluginAuthority => match plugin {
                Plugin::PermanentBurn(p) => {
                    match p.validate_revoke_plugin_authority(caller, grant, None) {
                        Ok(v) => v,
                        Err(_) => ValidationResult::Pass,
                    }
                },
                _ => approve_when(grants(grant, caller, resolved)),
            },
            Lifecycle::RemovePlugin | Lifecycle::UpdatePlugin | Lifecycle::AddPluginAuthority => {
                approve_when(grants(grant, caller, resolved))
            },
            Lifecycle::Transfer => match plugin {
                Plugin::Freeze(f) => if f.frozen {
                    ValidationResult::Rejected
                } else {
                    ValidationResult::Pass
                },
                Plugin::Transfer(_) => approve_when(grants(grant, caller, resolved)),
                _ => ValidationResult::Pass,
            },
            Lifecycle::Burn => match plugin {
                Plugin::Freeze(f) => if f.frozen {
                    ValidationResult::Rejected
                } else {
                    ValidationResult::Pass
                },
                Plugin::Burn(_) => approve_when(grants(grant, caller, resolved)),
                Plugin::PermanentBurn(p) => {
                    let r = match resolved {
                        Some(a) => p.validate_burn(caller, grant, Some(&a)),
                        None => p.validate_burn(caller, grant, None),
                    };
                    match r {
                        Ok(v) => v,
                        Err(_) => ValidationResult::Pass,
                    }
                },
                _ => ValidationResult::Pass,
            },
            Lifecycle::Update | Lifecycle::AddPlugin => match plugin {
                Plugin::UpdateDelegate(_) => approve_when(grants(grant, caller, resolved)),
                _ => ValidationResult::Pass,
            },
            Lifecycle::Compress | Lifecycle::Decompress => ValidationResult::Pass,
        }
    }
}

impl PermanentBurn {
    pub fn get_initial_size() -> (r: usize)
        ensures
            r == 0,
    {
        0
    }

    pub fn get_size(&self) -> (r: usize)
        ensures
            r == 0,
    {
        0
    }

    /// This plugin can only be added when the asset is created, so adding it
    /// later is always rejected.
    pub fn validate_add_plugin(
        &self,
        _authority: &Address,
        _authorities: &Authority,
        _new_plugin: Option<&Plugin>,
    ) -> (r: Result<ValidationResult, MplCoreError>)
        ensures
            r == Ok::<_, MplCoreError>(ValidationResult::Rejected),
    {
        Ok(ValidationResult::Rejected)
    }

    pub fn validate_revoke_plugin_authority(
        &self,
        _authority: &Address,
        _authorities: &Authority,
        _plugin_to_revoke: Option<&Plugin>,
    ) -> (r: Result<ValidationResult, MplCoreError>)
        ensures
            r == Ok::<_, MplCoreError>(ValidationResult::Approved),
    {
        Ok(ValidationResult::Approved)
    }

    /// Force-approves a burn by the holder of the plugin's grant, whatever
    /// the other plugins say.
    pub fn validate_burn(
        &self,
        _authority: &Address,
        authorities: &Authority,
        resolved_authority: Option<&Authority>,
    ) -> (r: Result<ValidationResult, MplCoreError>)
        ensures
            r == Ok::<_, MplCoreError>(
                if resolved_authority == Some(authorities) {
                    ValidationResult::ForceApproved
                } else {
                    ValidationResult::Pass
                },
            ),
    {
        if let Some(resolved_authority) = resolved_authority {
            if *resolved_authority == *authorities {
                return Ok(ValidationResult::ForceApproved);
            }
        }
        Ok(ValidationResult::Pass)
    }
}

} // verus!
