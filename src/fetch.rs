//! Reading an object and its optional plugin metadata out of an account.
use vstd::prelude::*;

use crate::error::MplCoreError;
use crate::plugins::{registry_at, PluginRegistry, RegistryRecord};
use crate::state::{
    asset_at, collection_at, plugin_header_at, Asset, AssetView, Collection, CollectionView, Key,
    PluginHeader,
};

verus! {

/// The plugin metadata that follows an object whose bytes end at `size`:
/// none where the account ends there, else the header at `size` and the
/// registry it points to.
pub open spec fn plugins_after(d: Seq<u8>, size: int) -> Result<
    Option<(PluginHeader, Key, Seq<RegistryRecord>)>,
    MplCoreError,
> {
    if size == d.len() {
        Ok(None)
    } else {
        match plugin_header_at(d, size) {
            None => Err(MplCoreError::DeserializationError),
            Some(h) => match registry_at(d, h.plugin_registry_offset as int) {
                None => Err(MplCoreError::DeserializationError),
                Some((k, rs)) => Ok(Some((h, k, rs))),
            },
        }
    }
}

pub open spec fn fetch_asset_spec(d: Seq<u8>) -> Result<
    (AssetView, Option<(PluginHeader, Key, Seq<RegistryRecord>)>),
    MplCoreError,
> {
    match asset_at(d, 0) {
        None => Err(MplCoreError::DeserializationError),
        Some((a, size)) => match plugins_after(d, size) {
            Err(e) => Err(e),
            Ok(p) => Ok((a, p)),
        },
    }
}

pub open spec fn fetch_collection_spec(d: Seq<u8>) -> Result<
    (CollectionView, Option<(PluginHeader, Key, Seq<RegistryRecord>)>),
    MplCoreError,
> {
    match collection_at(d, 0) {
        None => Err(MplCoreError::DeserializationError),
        Some((c, size)) => match plugins_after(d, size) {
            Err(e) => Err(e),
            Ok(p) => Ok((c, p)),
        },
    }
}

/// The records of a registry that may be absent.
pub open spec fn records_of(p: Option<(PluginHeader, Key, Seq<RegistryRecord>)>) -> Seq<
    RegistryRecord,
> {
    match p {
        Some((_, _, rs)) => rs,
        None => Seq::empty(),
    }
}

/// Whether the header and registry handed back are what `p` describes.
pub open spec fn plugins_match(
    h: Option<PluginHeader>,
    r: Option<PluginRegistry>,
    p: Option<(PluginHeader, Key, Seq<RegistryRecord>)>,
) -> bool {
    match p {
        None => h.is_none() && r.is_none(),
        Some((ph, k, rs)) => h == Some(ph) && r.is_some() && r.unwrap().key == k
            && r.unwrap().registry@ == rs,
    }
}

fn load_plugins(data: &Vec<u8>, size: usize) -> (r: Result<
    (Option<PluginHeader>, Option<PluginRegistry>),
    MplCoreError,
>)
    ensures
        match plugins_after(data@, size as int) {
            Err(e) => r == Err::<(Option<PluginHeader>, Option<PluginRegistry>), _>(e),
            Ok(p) => r.is_ok() && plugins_match(r.unwrap().0, r.unwrap().1, p),
        },
{
    if size == data.len() {
        return Ok((None, None));
    }
    let header = match PluginHeader::load(data, size) {
        Ok(h) => h,
        Err(e) => return Err(e),
    };
    if header.plugin_registry_offset > usize::MAX as u64 {
        return Err(MplCoreError::DeserializationError);
    }
    let registry = match PluginRegistry::load(data, header.plugin_registry_offset as usize) {
        Ok(r) => r,
        Err(e) => return Err(e),
    };
    Ok((Some(header), Some(registry)))
}

/// Reads an asset's account: the asset, and its plugin header and registry
/// where the account holds more than the asset.
pub fn fetch_core_data(data: &Vec<u8>) -> (r: Result<
    (Asset, Option<PluginHeader>, Option<PluginRegistry>),
    MplCoreError,
>)
    ensures
        match fetch_asset_spec(data@) {
            Err(e) => r == Err::<(Asset, Option<PluginHeader>, Option<PluginRegistry>), _>(e),
            Ok((a, p)) => r.is_ok() && r.unwrap().0@ == a && plugins_match(
                r.unwrap().1,
                r.unwrap().2,
                p,
            ),
        },
{
    let (asset, size) = match Asset::load(data, 0) {
        Ok(x) => x,
        Err(e) => return Err(e),
    };
    match load_plugins(data, size) {
        Ok((h, r)) => Ok((asset, h, r)),
        Err(e) => Err(e),
    }
}

/// Reads a collection's account, as [`fetch_core_data`] reads an asset's.
pub fn fetch_collection_data(data: &Vec<u8>) -> (r: Result<
    (Collection, Option<PluginHeader>, Option<PluginRegistry>),
    MplCoreError,
>)
    ensures
        match fetch_collection_spec(data@) {
            Err(e) => r == Err::<(Collection, Option<PluginHeader>, Option<PluginRegistry>), _>(e),
            Ok((c, p)) => r.is_ok() && r.unwrap().0@ == c && plugins_match(
                r.unwrap().1,
                r.unwrap().2,
                p,
            ),
        },
{
    let (collection, size) = match Collection::load(data, 0) {
        Ok(x) => x,
        Err(e) => return Err(e),
    };
    match load_plugins(data, size) {
        Ok((h, r)) => Ok((collection, h, r)),
        Err(e) => Err(e),
    }
}

} // verus!
