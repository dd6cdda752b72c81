//! Matching a caller against an authority, and naming the caller's role.
use vstd::prelude::*;

use crate::address::Address;
use crate::error::MplCoreError;
use crate::state::{collection_at, Account, AccountView, Asset, AssetView, Authority, Collection, CollectionView, UpdateAuthority};

verus! {

/// Whether `caller` is who `required` names on the asset.
pub open spec fn authority_matches(asset: AssetView, caller: Address, required: Authority) -> bool {
    match required {
        Authority::Nobody => false,
        Authority::Owner => asset.owner == caller,
        Authority::UpdateAuthority => asset.update_authority.key_spec() == caller,
        Authority::Pubkey { address } => address == caller,
        Authority::Permanent { address } => address == caller,
    }
}

/// Whether `caller` is who `required` names on the collection. A collection
/// has no owner, so `Owner` matches nobody.
pub open spec fn collection_authority_matches(
    collection: CollectionView,
    caller: Address,
    required: Authority,
) -> bool {
    match required {
        Authority::Nobody => false,
        Authority::Owner => false,
        Authority::UpdateAuthority => collection.update_authority == caller,
        Authority::Pubkey { address } => address == caller,
        Authority::Permanent { address } => address == caller,
    }
}

/// Checks that `caller` is who `authorities` names on the asset.
pub fn assert_authority(asset: &Asset, caller: &Address, authorities: &Authority) -> (r: Result<
    (),
    MplCoreError,
>)
    ensures
        r.is_ok() <==> authority_matches(asset@, *caller, *authorities),
        r.is_err() ==> r == Err::<(), _>(MplCoreError::InvalidAuthority),
{
    match authorities {
        Authority::Nobody => (),
        Authority::Owner => {
            if asset.owner == *caller {
                return Ok(());
            }
        },
        Authority::UpdateAuthority => {
            if asset.update_authority.key() == *caller {
                return Ok(());
            }
        },
        Authority::Pubkey { address } => {
            if *caller == *address {
                return Ok(());
            }
        },
        Authority::Permanent { address } => {
            if *caller == *address {
                return Ok(());
            }
        },
    }
    Err(MplCoreError::InvalidAuthority)
}

/// Checks that `caller` is who `authority` names on the collection.
pub fn assert_collection_authority(
    collection: &Collection,
    caller: &Address,
    authority: &Authority,
) -> (r: Result<(), MplCoreError>)
    ensures
        r.is_ok() <==> collection_authority_matches(collection@, *caller, *authority),
        r.is_err() ==> r == Err::<(), _>(MplCoreError::InvalidAuthority),
{
    match authority {
        Authority::Nobody | Authority::Owner => (),
        Authority::UpdateAuthority => {
            if collection.update_authority == *caller {
                return Ok(());
            }
        },
        Authority::Pubkey { address } => {
            if *caller == *address {
                return Ok(());
            }
        },
        Authority::Permanent { address } => {
            if *caller == *address {
                return Ok(());
            }
        },
    }
    Err(MplCoreError::InvalidAuthority)
}

/// The role of `caller` on the asset: its owner, its update authority
/// (directly, or as update authority of the collection the asset defers
/// to), or else just its own address.
pub open spec fn resolve_spec(
    caller: Address,
    collection: Option<AccountView>,
    asset: AssetView,
) -> Result<Authority, MplCoreError> {
    if caller == asset.owner {
        Ok(Authority::Owner)
    } else if asset.update_authority == UpdateAuthority::Address(caller) {
        Ok(Authority::UpdateAuthority)
    } else {
        match asset.update_authority {
            UpdateAuthority::Collection(collection_address) => match collection {
                None => Err(MplCoreError::InvalidCollection),
                Some(acct) => if acct.key != collection_address {
                    Err(MplCoreError::InvalidCollection)
                } else {
                    match collection_at(acct.data, 0) {
                        None => Err(MplCoreError::DeserializationError),
                        Some((c, _)) => if caller == c.update_authority {
                            Ok(Authority::UpdateAuthority)
                        } else {
                            Ok(Authority::Pubkey { address: caller })
                        },
                    }
                },
            },
            _ => Ok(Authority::Pubkey { address: caller }),
        }
    }
}

/// Names the role of `caller` on the asset; see [`resolve_spec`].
pub fn resolve_to_authority(
    caller: &Address,
    maybe_collection: Option<&Account>,
    asset: &Asset,
) -> (r: Result<Authority, MplCoreError>)
    ensures
        r == resolve_spec(
            *caller,
            match maybe_collection {
                Some(a) => Some(a@),
                None => None,
            },
            asset@,
        ),
{
    if *caller == asset.owner {
        Ok(Authority::Owner)
    } else if asset.update_authority == UpdateAuthority::Address(*caller) {
        Ok(Authority::UpdateAuthority)
    } else {
        match asset.update_authority {
            UpdateAuthority::Collection(collection_address) => match maybe_collection {
                None => Err(MplCoreError::InvalidCollection),
                Some(acct) => {
                    if acct.key != collection_address {
                        return Err(MplCoreError::InvalidCollection);
                    }
                    match Collection::load(&acct.data, 0) {
                        Err(e) => Err(e),
                        Ok((c, _)) => {
                            if *caller == c.update_authority {
                                Ok(Authority::UpdateAuthority)
                            } else {
                                Ok(Authority::Pubkey { address: *caller })
                            }
                        },
                    }
                },
            },
            _ => Ok(Authority::Pubkey { address: *caller }),
        }
    }
}

} // verus!
