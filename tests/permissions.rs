use mpl_core::accounts::{close_program_account, load_key, resize_or_reallocate_account, resolve_payer, RentAdjustment};
use mpl_core::address::Address;
use mpl_core::authority::{assert_authority, assert_collection_authority, resolve_to_authority};
use mpl_core::compression::{append_plugins, rebuild_account_state_from_proof_data, HashablePluginSchema};
use mpl_core::error::MplCoreError;
use mpl_core::instruction::MplAssetInstruction;
use mpl_core::lifecycle::{Lifecycle, ValidationResult};
use mpl_core::permissions::{validate_asset_permissions, validate_collection_permissions};
use mpl_core::plugins::{Burn, Freeze, PermanentBurn, Plugin, PluginType, Transfer, UpdateDelegate};
use mpl_core::state::{Account, Asset, Authority, Collection, Key, UpdateAuthority};

fn addr(n: u64) -> Address {
    Address::from_u64(n)
}

fn item(owner: u64, update_authority: UpdateAuthority) -> Asset {
    Asset {
        key: Key::Asset,
        owner: addr(owner),
        update_authority,
        name: b"Item".to_vec(),
        uri: b"https://example.com/item.json".to_vec(),
    }
}

fn group(update_authority: u64) -> Collection {
    Collection {
        key: Key::Collection,
        update_authority: addr(update_authority),
        name: b"Group".to_vec(),
        uri: b"https://example.com/group.json".to_vec(),
        num_minted: 1,
        current_size: 1,
    }
}

fn schema(index: u64, authority: Authority, plugin: Plugin) -> HashablePluginSchema {
    HashablePluginSchema { index, authority, plugin }
}

fn asset_account(key: u64, asset: &Asset, plugins: Vec<HashablePluginSchema>) -> Account {
    Account { key: addr(key), data: rebuild_account_state_from_proof_data(asset, &plugins).unwrap() }
}

fn collection_account(key: u64, collection: &Collection, plugins: Vec<HashablePluginSchema>) -> Account {
    let mut data = collection.encode().unwrap();
    append_plugins(&mut data, &plugins);
    Account { key: addr(key), data }
}

#[test]
fn owner_may_remove_plugin_owned_by_owner() {
    let asset = item(1, UpdateAuthority::Address(addr(9)));
    let acct = asset_account(100, &asset, vec![schema(0, Authority::Owner, Plugin::Burn(Burn {}))]);
    let r = validate_asset_permissions(&addr(1), &acct, None, None, Lifecycle::RemovePlugin);
    assert!(r.is_ok());
    let (a, header, registry) = r.unwrap();
    assert_eq!(a.owner, addr(1));
    assert!(header.is_some());
    assert_eq!(registry.unwrap().registry.len(), 1);
}

#[test]
fn stranger_may_not_remove_plugin_owned_by_owner() {
    let asset = item(1, UpdateAuthority::Address(addr(9)));
    let acct = asset_account(100, &asset, vec![schema(0, Authority::Owner, Plugin::Burn(Burn {}))]);
    let r = validate_asset_permissions(&addr(2), &acct, None, None, Lifecycle::RemovePlugin);
    assert_eq!(r.err(), Some(MplCoreError::InvalidAuthority));
}

#[test]
fn collection_update_authority_updates_item() {
    let collection = group(5);
    let coll = collection_account(50, &collection, vec![]);
    let asset = item(1, UpdateAuthority::Collection(addr(50)));
    let acct = asset_account(100, &asset, vec![]);
    assert_eq!(resolve_to_authority(&addr(5), Some(&coll), &asset), Ok(Authority::UpdateAuthority));
    let r = validate_asset_permissions(&addr(5), &acct, Some(&coll), None, Lifecycle::Update);
    assert!(r.is_ok());
    let r = validate_asset_permissions(&addr(6), &acct, Some(&coll), None, Lifecycle::Update);
    assert_eq!(r.err(), Some(MplCoreError::InvalidAuthority));
}

#[test]
fn resolve_names_each_role() {
    let asset = item(1, UpdateAuthority::Address(addr(9)));
    assert_eq!(resolve_to_authority(&addr(1), None, &asset), Ok(Authority::Owner));
    assert_eq!(resolve_to_authority(&addr(9), None, &asset), Ok(Authority::UpdateAuthority));
    assert_eq!(resolve_to_authority(&addr(3), None, &asset), Ok(Authority::Pubkey { address: addr(3) }));
}

#[test]
fn resolve_needs_the_right_collection() {
    let asset = item(1, UpdateAuthority::Collection(addr(50)));
    assert_eq!(resolve_to_authority(&addr(5), None, &asset), Err(MplCoreError::InvalidCollection));
    let other = collection_account(51, &group(5), vec![]);
    assert_eq!(resolve_to_authority(&addr(5), Some(&other), &asset), Err(MplCoreError::InvalidCollection));
    let right = collection_account(50, &group(5), vec![]);
    assert_eq!(resolve_to_authority(&addr(7), Some(&right), &asset), Ok(Authority::Pubkey { address: addr(7) }));
}

#[test]
fn assert_authority_covers_every_variant() {
    let asset = item(1, UpdateAuthority::Address(addr(9)));
    assert_eq!(assert_authority(&asset, &addr(1), &Authority::Nobody), Err(MplCoreError::InvalidAuthority));
    assert_eq!(assert_authority(&asset, &addr(1), &Authority::Owner), Ok(()));
    assert_eq!(assert_authority(&asset, &addr(2), &Authority::Owner), Err(MplCoreError::InvalidAuthority));
    assert_eq!(assert_authority(&asset, &addr(9), &Authority::UpdateAuthority), Ok(()));
    assert_eq!(assert_authority(&asset, &addr(4), &Authority::Pubkey { address: addr(4) }), Ok(()));
    assert_eq!(assert_authority(&asset, &addr(4), &Authority::Permanent { address: addr(4) }), Ok(()));
    assert_eq!(assert_authority(&asset, &addr(3), &Authority::Permanent { address: addr(4) }), Err(MplCoreError::InvalidAuthority));
    let collection = group(5);
    assert_eq!(assert_collection_authority(&collection, &addr(5), &Authority::UpdateAuthority), Ok(()));
    assert_eq!(assert_collection_authority(&collection, &addr(5), &Authority::Owner), Err(MplCoreError::InvalidAuthority));
    assert_eq!(assert_collection_authority(&collection, &addr(5), &Authority::Nobody), Err(MplCoreError::InvalidAuthority));
}

#[test]
fn frozen_asset_rejects_owner_transfer() {
    let asset = item(1, UpdateAuthority::Address(addr(9)));
    let acct = asset_account(
        100,
        &asset,
        vec![
            schema(0, Authority::Owner, Plugin::Freeze(Freeze { frozen: true })),
            schema(1, Authority::Pubkey { address: addr(1) }, Plugin::Transfer(Transfer {})),
        ],
    );
    let r = validate_asset_permissions(&addr(1), &acct, None, Some(addr(2)), Lifecycle::Transfer);
    assert_eq!(r.err(), Some(MplCoreError::InvalidAuthority));
    let thawed = asset_account(100, &asset, vec![schema(0, Authority::Owner, Plugin::Freeze(Freeze { frozen: false }))]);
    assert!(validate_asset_permissions(&addr(1), &thawed, None, Some(addr(2)), Lifecycle::Transfer).is_ok());
}

#[test]
fn transfer_delegate_may_transfer() {
    let asset = item(1, UpdateAuthority::Address(addr(9)));
    let acct = asset_account(100, &asset, vec![schema(0, Authority::Pubkey { address: addr(7) }, Plugin::Transfer(Transfer {}))]);
    assert!(validate_asset_permissions(&addr(7), &acct, None, Some(addr(2)), Lifecycle::Transfer).is_ok());
    assert_eq!(
        validate_asset_permissions(&addr(8), &acct, None, Some(addr(2)), Lifecycle::Transfer).err(),
        Some(MplCoreError::InvalidAuthority)
    );
}

#[test]
fn permanent_burn_force_approves() {
    let asset = item(1, UpdateAuthority::Address(addr(9)));
    let acct = asset_account(100, &asset, vec![schema(0, Authority::UpdateAuthority, Plugin::PermanentBurn(PermanentBurn {}))]);
    assert!(validate_asset_permissions(&addr(9), &acct, None, None, Lifecycle::Burn).is_ok());
    assert_eq!(
        validate_asset_permissions(&addr(3), &acct, None, None, Lifecycle::Burn).err(),
        Some(MplCoreError::InvalidAuthority)
    );
}

#[test]
fn rejection_beats_force_approval() {
    let asset = item(1, UpdateAuthority::Address(addr(9)));
    let acct = asset_account(
        100,
        &asset,
        vec![
            schema(0, Authority::UpdateAuthority, Plugin::PermanentBurn(PermanentBurn {})),
            schema(1, Authority::Owner, Plugin::Freeze(Freeze { frozen: true })),
        ],
    );
    assert_eq!(
        validate_asset_permissions(&addr(9), &acct, None, None, Lifecycle::Burn).err(),
        Some(MplCoreError::InvalidAuthority)
    );
}

#[test]
fn asset_plugin_shadows_collection_plugin() {
    let collection = group(5);
    let coll = collection_account(50, &collection, vec![schema(0, Authority::Pubkey { address: addr(7) }, Plugin::Burn(Burn {}))]);
    let asset = item(1, UpdateAuthority::Collection(addr(50)));
    let bare = asset_account(100, &asset, vec![]);
    assert!(validate_asset_permissions(&addr(7), &bare, Some(&coll), None, Lifecycle::Burn).is_ok());
    let shadowed = asset_account(100, &asset, vec![schema(0, Authority::Owner, Plugin::Burn(Burn {}))]);
    assert_eq!(
        validate_asset_permissions(&addr(7), &shadowed, Some(&coll), None, Lifecycle::Burn).err(),
        Some(MplCoreError::InvalidAuthority)
    );
}

#[test]
fn update_delegate_may_update() {
    let asset = item(1, UpdateAuthority::Address(addr(9)));
    let acct = asset_account(100, &asset, vec![schema(0, Authority::Pubkey { address: addr(4) }, Plugin::UpdateDelegate(UpdateDelegate {}))]);
    assert!(validate_asset_permissions(&addr(4), &acct, None, None, Lifecycle::Update).is_ok());
    assert!(validate_asset_permissions(&addr(9), &acct, None, None, Lifecycle::Update).is_ok());
    assert!(validate_asset_permissions(&addr(1), &acct, None, None, Lifecycle::Update).is_err());
}

#[test]
fn malformed_asset_account_does_not_decode() {
    let acct = Account { key: addr(1), data: vec![1, 2, 3] };
    assert_eq!(
        validate_asset_permissions(&addr(1), &acct, None, None, Lifecycle::Transfer).err(),
        Some(MplCoreError::DeserializationError)
    );
    let mut data = item(1, UpdateAuthority::Nobody).encode().unwrap();
    data.push(3);
    let trailing = Account { key: addr(1), data };
    assert_eq!(
        validate_asset_permissions(&addr(1), &trailing, None, None, Lifecycle::Transfer).err(),
        Some(MplCoreError::DeserializationError)
    );
}

#[test]
fn collection_permissions_follow_collection_plugins() {
    let collection = group(5);
    let coll = collection_account(50, &collection, vec![schema(0, Authority::Pubkey { address: addr(7) }, Plugin::Burn(Burn {}))]);
    assert!(validate_collection_permissions(&addr(5), &coll, Lifecycle::Update).is_ok());
    assert_eq!(validate_collection_permissions(&addr(6), &coll, Lifecycle::Update).err(), Some(MplCoreError::InvalidAuthority));
    assert!(validate_collection_permissions(&addr(7), &coll, Lifecycle::RemovePlugin).is_ok());
    assert_eq!(validate_collection_permissions(&addr(5), &coll, Lifecycle::RemovePlugin).err(), Some(MplCoreError::InvalidAuthority));
}

#[test]
fn permanent_burn_votes() {
    let p = PermanentBurn {};
    assert_eq!(PermanentBurn::get_initial_size(), 0);
    assert_eq!(p.get_size(), 0);
    assert_eq!(p.validate_add_plugin(&addr(1), &Authority::Owner, None), Ok(ValidationResult::Rejected));
    assert_eq!(p.validate_revoke_plugin_authority(&addr(1), &Authority::Owner, None), Ok(ValidationResult::Approved));
    assert_eq!(p.validate_burn(&addr(1), &Authority::Owner, Some(&Authority::Owner)), Ok(ValidationResult::ForceApproved));
    assert_eq!(p.validate_burn(&addr(1), &Authority::Owner, Some(&Authority::UpdateAuthority)), Ok(ValidationResult::Pass));
    assert_eq!(p.validate_burn(&addr(1), &Authority::Owner, None), Ok(ValidationResult::Pass));
}

#[test]
fn plugin_types_and_keys() {
    assert_eq!(Plugin::Freeze(Freeze { frozen: true }).plugin_type(), PluginType::Freeze);
    assert_eq!(load_key(&vec![2u8, 0], 0), Ok(Key::HashedAsset));
    assert_eq!(load_key(&vec![9u8], 0), Err(MplCoreError::DeserializationError));
    assert_eq!(load_key(&vec![1u8], 1), Err(MplCoreError::DeserializationError));
    assert_eq!(MplAssetInstruction::Transfer.lifecycle(), Some(Lifecycle::Transfer));
    assert_eq!(MplAssetInstruction::Collect.lifecycle(), None);
}

#[test]
fn balances_for_resize_and_close() {
    assert_eq!(resize_or_reallocate_account(100, 250), RentAdjustment::Fund(150));
    assert_eq!(resize_or_reallocate_account(250, 100), RentAdjustment::Refund(150));
    assert_eq!(close_program_account(1000, 10, 1500, 5), Ok((510, 995)));
    assert_eq!(close_program_account(10, 1000, 1500, 5), Err(MplCoreError::NumericalOverflowError));
    assert_eq!(close_program_account(1000, 10, 1500, u64::MAX), Err(MplCoreError::NumericalOverflowError));
    assert_eq!(resolve_payer(addr(1), Some(addr(2)), true), addr(2));
    assert_eq!(resolve_payer(addr(1), None, false), addr(1));
}
