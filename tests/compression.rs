use mpl_core::address::Address;
use mpl_core::compression::{
    commitment_digest, compress_into_account_space, rebuild_account_state_from_proof_data,
    sort_by_key, verify_proof, CompressionProof, HashablePluginSchema,
};
use mpl_core::error::MplCoreError;
use mpl_core::fetch::fetch_core_data;
use mpl_core::plugins::{Burn, Freeze, Plugin, PluginRegistry};
use mpl_core::state::{Asset, Authority, Key, UpdateAuthority};

fn item() -> Asset {
    Asset {
        key: Key::Asset,
        owner: Address::from_u64(1),
        update_authority: UpdateAuthority::Address(Address::from_u64(9)),
        name: b"Item".to_vec(),
        uri: b"https://example.com/item.json".to_vec(),
    }
}

fn two_plugins() -> Vec<HashablePluginSchema> {
    vec![
        HashablePluginSchema { index: 0, authority: Authority::Owner, plugin: Plugin::Freeze(Freeze { frozen: false }) },
        HashablePluginSchema {
            index: 1,
            authority: Authority::Pubkey { address: Address::from_u64(7) },
            plugin: Plugin::Burn(Burn {}),
        },
    ]
}

fn compress(data: &Vec<u8>) -> (CompressionProof, Vec<u8>) {
    let (asset, _, registry) = fetch_core_data(data).unwrap();
    compress_into_account_space(asset, registry, data).unwrap()
}

#[test]
fn compress_then_decompress_plain_item_restores_bytes() {
    let stored = item().encode().unwrap();
    let (proof, hashed) = compress(&stored);
    assert_eq!(hashed.len(), 33);
    assert_eq!(hashed[0], 2);
    assert!(proof.plugins.is_empty());
    let (asset, plugins) = verify_proof(&hashed, &proof).unwrap();
    assert_eq!(rebuild_account_state_from_proof_data(&asset, &plugins).unwrap(), stored);
}

#[test]
fn compress_then_verify_with_plugins_round_trips() {
    let stored = rebuild_account_state_from_proof_data(&item(), &two_plugins()).unwrap();
    let (proof, hashed) = compress(&stored);
    assert_eq!(proof.plugins, two_plugins());
    let (asset, plugins) = verify_proof(&hashed, &proof).unwrap();
    assert_eq!(plugins, two_plugins());
    assert_eq!(rebuild_account_state_from_proof_data(&asset, &plugins).unwrap(), stored);
}

#[test]
fn proof_plugin_order_does_not_matter() {
    let stored = rebuild_account_state_from_proof_data(&item(), &two_plugins()).unwrap();
    let (proof, hashed) = compress(&stored);
    let mut reversed = proof.plugins.clone();
    reversed.reverse();
    let shuffled = CompressionProof::new(proof.asset.clone(), reversed);
    let (_, plugins) = verify_proof(&hashed, &shuffled).unwrap();
    assert_eq!(plugins, two_plugins());
}

#[test]
fn tampered_name_fails_verification() {
    let stored = item().encode().unwrap();
    let (proof, hashed) = compress(&stored);
    let mut asset = proof.asset.clone();
    asset.name[0] ^= 1;
    let forged = CompressionProof::new(asset, proof.plugins.clone());
    assert_eq!(verify_proof(&hashed, &forged).err(), Some(MplCoreError::IncorrectAssetHash));
}

#[test]
fn tampered_plugin_fails_verification() {
    let stored = rebuild_account_state_from_proof_data(&item(), &two_plugins()).unwrap();
    let (proof, hashed) = compress(&stored);
    let mut plugins = proof.plugins.clone();
    plugins[0].plugin = Plugin::Freeze(Freeze { frozen: true });
    let forged = CompressionProof::new(proof.asset.clone(), plugins);
    assert_eq!(verify_proof(&hashed, &forged).err(), Some(MplCoreError::IncorrectAssetHash));
    let mut plugins = proof.plugins.clone();
    plugins[1].authority = Authority::Owner;
    let forged = CompressionProof::new(proof.asset.clone(), plugins);
    assert_eq!(verify_proof(&hashed, &forged).err(), Some(MplCoreError::IncorrectAssetHash));
}

#[test]
fn short_hashed_account_does_not_decode() {
    let (proof, hashed) = compress(&item().encode().unwrap());
    assert_eq!(verify_proof(&hashed[..20].to_vec(), &proof).err(), Some(MplCoreError::DeserializationError));
}

#[test]
fn digest_is_keccak_of_the_schema() {
    let asset = item();
    let asset_hash = solana_program::keccak::hash(&asset.encode().unwrap()).to_bytes();
    let mut schema = asset_hash.to_vec();
    schema.extend_from_slice(&[0, 0, 0, 0]);
    let expected = solana_program::keccak::hash(&schema).to_bytes();
    assert_eq!(commitment_digest(&asset, &vec![]).unwrap(), expected);
    assert_ne!(expected.to_vec(), schema[..32].to_vec());
}

#[test]
fn plugin_with_bad_offset_fails_compression() {
    let asset = item();
    let data = asset.encode().unwrap();
    let registry = PluginRegistry {
        key: Key::PluginRegistry,
        registry: vec![mpl_core::plugins::RegistryRecord {
            plugin_type: mpl_core::plugins::PluginType::Burn,
            authority: Authority::Owner,
            offset: 10_000,
        }],
    };
    assert_eq!(
        compress_into_account_space(asset, Some(registry), &data).err(),
        Some(MplCoreError::DeserializationError)
    );
}

#[test]
fn sort_orders_by_index_and_keeps_ties() {
    let mut v = two_plugins();
    v.reverse();
    let sorted = sort_by_key(v);
    assert_eq!(sorted, two_plugins());
    let tie = vec![
        HashablePluginSchema { index: 3, authority: Authority::Owner, plugin: Plugin::Burn(Burn {}) },
        HashablePluginSchema { index: 1, authority: Authority::Nobody, plugin: Plugin::Burn(Burn {}) },
        HashablePluginSchema { index: 3, authority: Authority::UpdateAuthority, plugin: Plugin::Burn(Burn {}) },
    ];
    let sorted = sort_by_key(tie.clone());
    assert_eq!(sorted, vec![tie[1], tie[0], tie[2]]);
}

#[test]
fn rebuilt_account_reads_back() {
    let data = rebuild_account_state_from_proof_data(&item(), &two_plugins()).unwrap();
    let (asset, header, registry) = fetch_core_data(&data).unwrap();
    assert_eq!(asset.name, item().name);
    let records = registry.unwrap().registry;
    assert_eq!(records.len(), 2);
    assert_eq!(records[1].authority, Authority::Pubkey { address: Address::from_u64(7) });
    assert!(records[0].offset < records[1].offset);
    assert_eq!(header.unwrap().plugin_registry_offset as usize, item().encode().unwrap().len() + 9 + 3);
}
