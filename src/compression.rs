//! Compression: committing an asset and its plugins to one digest, and
//! checking a caller's proof against that digest.
use vstd::prelude::*;

use crate::codec::{push_bytes, push_u32, push_u64, u32_bytes, u64_bytes};
use crate::error::MplCoreError;
use crate::plugins::{
    plugin_bytes, plugin_type_spec, registry_bytes, Plugin, PluginRegistry, RegistryRecord,
};
use crate::state::{
    asset_bytes, asset_encodable, authority_bytes, hashed_asset_bytes, key_of, Asset, AssetView,
    Authority, HashedAsset, Key, PluginHeader, plugin_header_bytes,
};
use crate::plugins::plugin_at;

verus! {

broadcast use crate::codec::lemma_u32_bytes_len;

/// A plugin as it enters the commitment: its place among the asset's
/// plugins, its authority, and its data.
#[derive(Clone, Copy, Debug, PartialEq, Eq, Structural)]
pub struct HashablePluginSchema {
    pub index: u64,
    pub authority: Authority,
    pub plugin: Plugin,
}

pub open spec fn schema_bytes(s: HashablePluginSchema) -> Seq<u8> {
    u64_bytes(s.index) + authority_bytes(s.authority) + plugin_bytes(s.plugin)
}

impl HashablePluginSchema {
    pub fn encode(&self) -> (r: Vec<u8>)
        ensures
            r@ == schema_bytes(*self),
    {
        let mut out: Vec<u8> = Vec::new();
        push_u64(&mut out, self.index);
        self.authority.encode_into(&mut out);
        self.plugin.encode_into(&mut out);
        assert(out@ =~= schema_bytes(*self));
        out
    }
}

/// A value with a number to order it by.
pub trait SortKey {
    spec fn key(&self) -> u64;

    fn sort_key(&self) -> (r: u64)
        ensures
            r == self.key(),
    ;
}

impl SortKey for HashablePluginSchema {
    open spec fn key(&self) -> u64 {
        self.index
    }

    fn sort_key(&self) -> (r: u64) {
        self.index
    }
}

impl SortKey for RegistryRecord {
    open spec fn key(&self) -> u64 {
        self.offset
    }

    fn sort_key(&self) -> (r: u64) {
        self.offset
    }
}

/// Whether the values stand in order of their keys.
pub open spec fn sorted_by_key<T: SortKey>(s: Seq<T>) -> bool {
    forall|a: int, b: int| 0 <= a < b < s.len() ==> s[a].key() <= s[b].key()
}

/// Orders the values by key, keeping the order of equal keys; a list
/// already in order is left as it is.
pub fn sort_by_key<T: SortKey + Copy>(v: Vec<T>) -> (r: Vec<T>)
    ensures
        sorted_by_key(r@),
        r@.to_multiset() == v@.to_multiset(),
        sorted_by_key(v@) ==> r@ == v@,
{
    broadcast use vstd::multiset::group_multiset_axioms;
    broadcast use vstd::seq_lib::group_to_multiset_ensures;
    let ghost v0 = v@;
    let mut v = v;
    let n = v.len();
    let mut i: usize = 0;
    while i < n
        invariant
            n == v@.len(),
            i <= n,
            v@.to_multiset() == v0.to_multiset(),
            forall|a: int, b: int| 0 <= a < b < i ==> v@[a].key() <= v@[b].key(),
            sorted_by_key(v0) ==> v@ == v0,
        decreases n - i,
    {
        let mut j: usize = i;
        while j > 0 && v[j - 1].sort_key() > v[j].sort_key()
            invariant
                n == v@.len(),
                i < n,
                j <= i,
                v@.to_multiset() == v0.to_multiset(),
                forall|a: int, b: int| 0 <= a < b <= i && b != j ==> v@[a].key() <= v@[b].key(),
                sorted_by_key(v0) ==> v@ == v0,
            decreases j,
        {
            let x = v[j - 1];
            let y = v[j];
            let ghost before = v@;
            v.set(j - 1, y);
            v.set(j, x);
            proof {
                let mid = before.update(j - 1, y);
                vstd::seq_lib::to_multiset_update(before, j - 1, y);
                vstd::seq_lib::to_multiset_update(mid, j as int, x);
                assert(v@ == mid.update(j as int, x));
                assert(before[j - 1] == x);
                assert(before.contains(x));
                vstd::seq_lib::to_multiset_contains(before, x);
                assert(v@.to_multiset() =~= before.to_multiset());
                assert forall|a: int, b: int| 0 <= a < b <= i && b != j - 1 implies v@[a].key()
                    <= v@[b].key() by {
                    if b == j {
                        if a < j - 1 {
                            assert(before[a].key() <= before[j - 1].key());
                        }
                    } else if b > j {
                        if a == j {
                            assert(before[j - 1].key() <= before[b].key());
                        } else if a == j - 1 {
                            assert(before[j as int].key() <= before[b].key());
                        } else {
                            assert(before[a].key() <= before[b].key());
                        }
                    } else {
                        assert(before[a].key() <= before[b].key());
                    }
                }
            }
            j -= 1;
        }
        proof {
            assert forall|a: int, b: int| 0 <= a < b <= i implies v@[a].key() <= v@[b].key() by {
                if b == j {
                    assert(v@[a].key() <= v@[j - 1].key() || a == j - 1);
                }
            }
        }
        i += 1;
    }
    v
}

/// The Keccak-256 digest of a byte string.
pub uninterp spec fn keccak_of(data: Seq<u8>) -> Seq<u8>;

/// Relies on `solana_program::keccak::hash`: the Keccak-256 digest of the
/// bytes, which depends on them alone.
#[verifier::external_body]
fn keccak(data: &Vec<u8>) -> (r: [u8; 32])
    ensures
        r@ == keccak_of(data@),
{
    solana_program::keccak::hash(data.as_slice()).to_bytes()
}

/// The digests of the plugins, one after the other.
pub open spec fn plugin_hashes_bytes(ps: Seq<HashablePluginSchema>) -> Seq<u8>
    decreases ps.len(),
{
    if ps.len() == 0 {
        Seq::empty()
    } else {
        plugin_hashes_bytes(ps.drop_last()) + keccak_of(schema_bytes(ps.last()))
    }
}

/// Whether an asset and a plugin list can be encoded for hashing.
pub open spec fn committable(a: AssetView, ps: Seq<HashablePluginSchema>) -> bool {
    asset_encodable(a) && ps.len() <= u32::MAX
}

/// The digest that binds an asset and its plugins: the digest of the
/// asset's digest followed by the list of the plugins' digests.
pub open spec fn commitment(a: AssetView, ps: Seq<HashablePluginSchema>) -> Seq<u8> {
    keccak_of(keccak_of(asset_bytes(a)) + u32_bytes(ps.len() as u32) + plugin_hashes_bytes(ps))
}

/// Computes [`commitment`]; fails where the asset or the list is too long
/// to encode.
pub fn commitment_digest(asset: &Asset, plugins: &Vec<HashablePluginSchema>) -> (r: Result<
    [u8; 32],
    MplCoreError,
>)
    ensures
        committable(asset@, plugins@) ==> r.is_ok() && r.unwrap()@ == commitment(
            asset@,
            plugins@,
        ),
        !committable(asset@, plugins@) ==> r == Err::<[u8; 32], _>(
            MplCoreError::SerializationError,
        ),
{
    let asset_data = match asset.encode() {
        Ok(d) => d,
        Err(e) => return Err(e),
    };
    if plugins.len() > u32::MAX as usize {
        return Err(MplCoreError::SerializationError);
    }
    let asset_hash = keccak(&asset_data);
    let mut schema: Vec<u8> = Vec::new();
    let mut k: usize = 0;
    while k < 32
        invariant
            k <= 32,
            schema@ == asset_hash@.subrange(0, k as int),
        decreases 32 - k,
    {
        schema.push(asset_hash[k]);
        k += 1;
        assert(schema@ =~= asset_hash@.subrange(0, k as int));
    }
    assert(asset_hash@.subrange(0, 32) =~= asset_hash@);
    push_u32(&mut schema, plugins.len() as u32);
    let ghost head = schema@;
    let mut i: usize = 0;
    while i < plugins.len()
        invariant
            i <= plugins@.len(),
            schema@ == head + plugin_hashes_bytes(plugins@.subrange(0, i as int)),
        decreases plugins@.len() - i,
    {
        let h = keccak(&plugins[i].encode());
        let ghost before = schema@;
        let mut k: usize = 0;
        while k < 32
            invariant
                k <= 32,
                schema@ == before + h@.subrange(0, k as int),
            decreases 32 - k,
        {
            schema.push(h[k]);
            k += 1;
            assert(schema@ =~= before + h@.subrange(0, k as int));
        }
        assert(h@.subrange(0, 32) =~= h@);
        let ghost sub = plugins@.subrange(0, i + 1);
        assert(sub.drop_last() =~= plugins@.subrange(0, i as int));
        i += 1;
        assert(schema@ =~= head + plugin_hashes_bytes(plugins@.subrange(0, i as int)));
    }
    assert(plugins@.subrange(0, i as int) =~= plugins@);
    assert(schema@ =~= keccak_of(asset_bytes(asset@)) + u32_bytes(plugins@.len() as u32)
        + plugin_hashes_bytes(plugins@));
    Ok(keccak(&schema))
}

/// The digest stored in a compressed account, where the account holds one.
pub open spec fn stored_digest(d: Seq<u8>) -> Option<Seq<u8>> {
    if d.len() >= 33 && key_of(d[0]).is_some() {
        Some(d.subrange(1, 33))
    } else {
        None
    }
}

/// Whether the digest stored in `d` commits to the asset and plugins.
pub open spec fn check_spec(d: Seq<u8>, a: AssetView, ps: Seq<HashablePluginSchema>) -> Result<
    (),
    MplCoreError,
> {
    if !committable(a, ps) {
        Err(MplCoreError::SerializationError)
    } else {
        match stored_digest(d) {
            None => Err(MplCoreError::DeserializationError),
            Some(h) => if h == commitment(a, ps) {
                Ok(())
            } else {
                Err(MplCoreError::IncorrectAssetHash)
            },
        }
    }
}

/// Checks the digest stored in `hashed_asset` against the asset and the
/// plugins, taken in the order given.
pub fn check_commitment(
    hashed_asset: &Vec<u8>,
    asset: &Asset,
    plugins: &Vec<HashablePluginSchema>,
) -> (r: Result<(), MplCoreError>)
    ensures
        r == check_spec(hashed_asset@, asset@, plugins@),
{
    let digest = match commitment_digest(asset, plugins) {
        Ok(d) => d,
        Err(e) => return Err(e),
    };
    if hashed_asset.len() < 33 {
        return Err(MplCoreError::DeserializationError);
    }
    if Key::from_u8(hashed_asset[0]).is_none() {
        return Err(MplCoreError::DeserializationError);
    }
    let mut k: usize = 0;
    while k < 32
        invariant
            k <= 32,
            hashed_asset@.len() >= 33,
            key_of(hashed_asset@[0]).is_some(),
            committable(asset@, plugins@),
            digest@ == commitment(asset@, plugins@),
            forall|m: int| 0 <= m < k ==> hashed_asset@[m + 1] == digest@[m],
        decreases 32 - k,
    {
        if hashed_asset[k + 1] != digest[k] {
            assert(hashed_asset@.subrange(1, 33)[k as int] != digest@[k as int]);
            return Err(MplCoreError::IncorrectAssetHash);
        }
        k += 1;
    }
    assert(hashed_asset@.subrange(1, 33) =~= digest@);
    Ok(())
}

/// A copy of each value, in order.
pub fn copy_all<T: Copy>(v: &Vec<T>) -> (r: Vec<T>)
    ensures
        r@ == v@,
{
    let mut out: Vec<T> = Vec::new();
    let mut i: usize = 0;
    while i < v.len()
        invariant
            i <= v@.len(),
            out@ == v@.subrange(0, i as int),
        decreases v@.len() - i,
    {
        out.push(v[i]);
        i += 1;
        assert(out@ =~= v@.subrange(0, i as int));
    }
    assert(v@.subrange(0, i as int) =~= v@);
    out
}

/// What a caller hands back to decompress an asset: the asset and its
/// plugins, in any order.
#[derive(Clone, Debug)]
pub struct CompressionProof {
    pub asset: Asset,
    pub plugins: Vec<HashablePluginSchema>,
}

impl CompressionProof {
    pub fn new(asset: Asset, plugins: Vec<HashablePluginSchema>) -> (r: CompressionProof)
        ensures
            r.asset@ == asset@,
            r.plugins@ == plugins@,
    {
        CompressionProof { asset, plugins }
    }
}

/// Checks that a compression proof gives the digest stored in
/// `hashed_asset`, with its plugins put in order of index first. Returns
/// the asset and the ordered plugins.
pub fn verify_proof(hashed_asset: &Vec<u8>, compression_proof: &CompressionProof) -> (r: Result<
    (Asset, Vec<HashablePluginSchema>),
    MplCoreError,
>)
    ensures
        sorted_by_key(compression_proof.plugins@) ==> match check_spec(
            hashed_asset@,
            compression_proof.asset@,
            compression_proof.plugins@,
        ) {
            Ok(_) => r.is_ok() && r.unwrap().0@ == compression_proof.asset@ && r.unwrap().1@
                == compression_proof.plugins@,
            Err(e) => r == Err::<(Asset, Vec<HashablePluginSchema>), _>(e),
        },
        match r {
            Ok((a, ps)) => a@ == compression_proof.asset@ && sorted_by_key(ps@)
                && ps@.to_multiset() == compression_proof.plugins@.to_multiset() && check_spec(
                hashed_asset@,
                a@,
                ps@,
            ) == Ok::<(), MplCoreError>(()),
            Err(e) => exists|ps: Seq<HashablePluginSchema>|
                sorted_by_key(ps) && ps.to_multiset() == compression_proof.plugins@.to_multiset()
                    && #[trigger] check_spec(hashed_asset@, compression_proof.asset@, ps) == Err::<
                    (),
                    MplCoreError,
                >(e),
        },
{
    let asset = compression_proof.asset.duplicate();
    let sorted_plugins = sort_by_key(copy_all(&compression_proof.plugins));
    match check_commitment(hashed_asset, &asset, &sorted_plugins) {
        Ok(()) => Ok((asset, sorted_plugins)),
        Err(e) => Err(e),
    }
}

/// The plugins of the records `rs`, read from the account bytes `d`, each
/// with its place in `rs` as index and its record's authority.
pub open spec fn schemas_of(d: Seq<u8>, rs: Seq<RegistryRecord>) -> Option<
    Seq<HashablePluginSchema>,
>
    decreases rs.len(),
{
    if rs.len() == 0 {
        Some(Seq::empty())
    } else {
        match schemas_of(d, rs.drop_last()) {
            None => None,
            Some(ps) => match plugin_at(d, rs.last().offset as int) {
                None => None,
                Some((p, _)) => Some(
                    ps.push(
                        HashablePluginSchema {
                            index: (rs.len() - 1) as u64,
                            authority: rs.last().authority,
                            plugin: p,
                        },
                    ),
                ),
            },
        }
    }
}

/// Compression of an asset whose plugins are listed, in order, by `rs`:
/// the plugin list of the proof, and the bytes that replace the account.
pub open spec fn compress_spec(a: AssetView, rs: Seq<RegistryRecord>, d: Seq<u8>) -> Result<
    (Seq<HashablePluginSchema>, Seq<u8>),
    MplCoreError,
> {
    if !asset_encodable(a) {
        Err(MplCoreError::SerializationError)
    } else {
        match schemas_of(d, rs) {
            None => Err(MplCoreError::DeserializationError),
            Some(ps) => if ps.len() <= u32::MAX {
                Ok((ps, hashed_asset_bytes(commitment(a, ps))))
            } else {
                Err(MplCoreError::SerializationError)
            },
        }
    }
}

pub open spec fn registry_records(r: Option<PluginRegistry>) -> Seq<RegistryRecord> {
    match r {
        Some(reg) => reg.registry@,
        None => Seq::empty(),
    }
}

/// Whether a compression result is what [`compress_spec`] gives.
pub open spec fn compress_result_is(
    r: Result<(CompressionProof, Vec<u8>), MplCoreError>,
    asset: AssetView,
    expected: Result<(Seq<HashablePluginSchema>, Seq<u8>), MplCoreError>,
) -> bool {
    match expected {
        Ok((ps, bytes)) => r.is_ok() && r.unwrap().0.asset@ == asset && r.unwrap().0.plugins@ == ps
            && r.unwrap().1@ == bytes,
        Err(e) => r == Err::<(CompressionProof, Vec<u8>), _>(e),
    }
}

/// Compresses an asset held in the account bytes `asset_data`: returns the
/// proof (the asset and its plugins, in order of offset) and the bytes that
/// replace the account, which hold the commitment to both.
pub fn compress_into_account_space(
    asset: Asset,
    plugin_registry: Option<PluginRegistry>,
    asset_data: &Vec<u8>,
) -> (r: Result<(CompressionProof, Vec<u8>), MplCoreError>)
    ensures
        sorted_by_key(registry_records(plugin_registry)) ==> compress_result_is(
            r,
            asset@,
            compress_spec(asset@, registry_records(plugin_registry), asset_data@),
        ),
        exists|rs: Seq<RegistryRecord>|
            sorted_by_key(rs) && rs.to_multiset() == registry_records(plugin_registry).to_multiset()
                && #[trigger] compress_result_is(r, asset@, compress_spec(asset@, rs, asset_data@)),
{
    let ghost given = registry_records(plugin_registry);
    let records = match plugin_registry {
        Some(r) => sort_by_key(r.registry),
        None => Vec::new(),
    };
    assert(records@.to_multiset() == given.to_multiset());
    assert(sorted_by_key(given) ==> records@ == given);
    let res = compress_records(asset, &records, asset_data);
    assert(sorted_by_key(records@) && records@.to_multiset() == given.to_multiset()
        && compress_result_is(res, asset@, compress_spec(asset@, records@, asset_data@)));
    res
}

/// Compression with the plugins taken in the order of `records`.
fn compress_records(asset: Asset, records: &Vec<RegistryRecord>, asset_data: &Vec<u8>) -> (r:
    Result<(CompressionProof, Vec<u8>), MplCoreError>)
    ensures
        compress_result_is(r, asset@, compress_spec(asset@, records@, asset_data@)),
{
    if asset.name.len() > u32::MAX as usize || asset.uri.len() > u32::MAX as usize {
        return Err(MplCoreError::SerializationError);
    }
    let plugins = match read_plugin_schemas(records, asset_data) {
        Ok(p) => p,
        Err(e) => return Err(e),
    };
    let digest = match commitment_digest(&asset, &plugins) {
        Ok(d) => d,
        Err(e) => return Err(e),
    };
    let bytes = HashedAsset::new(digest).encode();
    assert(bytes@ =~= hashed_asset_bytes(commitment(asset@, plugins@)));
    Ok((CompressionProof::new(asset, plugins), bytes))
}

/// The plugins of the records, read from the account bytes, as
/// [`schemas_of`] describes.
fn read_plugin_schemas(records: &Vec<RegistryRecord>, asset_data: &Vec<u8>) -> (r: Result<
    Vec<HashablePluginSchema>,
    MplCoreError,
>)
    ensures
        match schemas_of(asset_data@, records@) {
            Some(ps) => r.is_ok() && r.unwrap()@ == ps,
            None => r == Err::<Vec<HashablePluginSchema>, _>(MplCoreError::DeserializationError),
        },
{
    let ghost rs = records@;
    let _ = asset_data.len();
    let mut plugins: Vec<HashablePluginSchema> = Vec::new();
    let mut i: usize = 0;
    while i < records.len()
        invariant
            i <= rs.len(),
            rs == records@,
            asset_data@.len() <= usize::MAX,
            schemas_of(asset_data@, rs.subrange(0, i as int)) == Some(plugins@),
        decreases rs.len() - i,
    {
        let record = records[i];
        let ghost sub = rs.subrange(0, i + 1);
        assert(sub.drop_last() =~= rs.subrange(0, i as int));
        assert(sub.last() == record);
        if record.offset > usize::MAX as u64 {
            assert(plugin_at(asset_data@, record.offset as int).is_none());
            assert(schemas_of(asset_data@, sub).is_none());
            proof {
                lemma_schemas_prefix_none(asset_data@, rs, i + 1);
            }
            return Err(MplCoreError::DeserializationError);
        }
        let plugin = match Plugin::load(asset_data, record.offset as usize) {
            Ok(p) => p,
            Err(e) => {
                assert(schemas_of(asset_data@, sub).is_none());
                proof {
                    lemma_schemas_prefix_none(asset_data@, rs, i + 1);
                }
                return Err(e);
            },
        };
        plugins.push(HashablePluginSchema { index: i as u64, authority: record.authority, plugin });
        i += 1;
    }
    assert(rs.subrange(0, i as int) =~= rs);
    Ok(plugins)
}

/// Once a prefix of the records fails to give plugins, so do all the records.
proof fn lemma_schemas_prefix_none(d: Seq<u8>, rs: Seq<RegistryRecord>, n: int)
    requires
        0 <= n <= rs.len(),
        schemas_of(d, rs.subrange(0, n)).is_none(),
    ensures
        schemas_of(d, rs).is_none(),
    decreases rs.len() - n,
{
    if n < rs.len() {
        let sub = rs.subrange(0, n + 1);
        assert(sub.drop_last() =~= rs.subrange(0, n));
        lemma_schemas_prefix_none(d, rs, n + 1);
    } else {
        assert(rs.subrange(0, n) =~= rs);
    }
}

/// The plugins' bytes, one after the other.
pub open spec fn plugins_area(ps: Seq<HashablePluginSchema>) -> Seq<u8>
    decreases ps.len(),
{
    if ps.len() == 0 {
        Seq::empty()
    } else {
        plugins_area(ps.drop_last()) + plugin_bytes(ps.last().plugin)
    }
}

/// The registry records of the plugins laid out one after the other from
/// `start` on.
pub open spec fn laid_out_records(ps: Seq<HashablePluginSchema>, start: int) -> Seq<RegistryRecord>
    decreases ps.len(),
{
    if ps.len() == 0 {
        Seq::empty()
    } else {
        laid_out_records(ps.drop_last(), start).push(
            RegistryRecord {
                plugin_type: plugin_type_spec(ps.last().plugin),
                authority: ps.last().authority,
                offset: (start + plugins_area(ps.drop_last()).len()) as u64,
            },
        )
    }
}

/// An object's bytes followed, where there are plugins, by the plugin
/// header, the plugins in the order given, and the registry that lists them.
pub open spec fn with_plugins(object: Seq<u8>, ps: Seq<HashablePluginSchema>) -> Seq<u8> {
    if ps.len() == 0 {
        object
    } else {
        let start = object.len() as int + 9;
        object + plugin_header_bytes(
            PluginHeader {
                key: Key::PluginHeader,
                plugin_registry_offset: (start + plugins_area(ps).len()) as u64,
            },
        ) + plugins_area(ps) + registry_bytes(Key::PluginRegistry, laid_out_records(ps, start))
    }
}

/// The bytes of a decompressed account: the asset and its plugins.
pub open spec fn rebuilt_bytes(a: AssetView, ps: Seq<HashablePluginSchema>) -> Seq<u8> {
    with_plugins(asset_bytes(a), ps)
}

/// The plugins' bytes and the registry records that place them from
/// `start` on.
fn lay_out_plugins(plugins: &Vec<HashablePluginSchema>, start: u64) -> (r: (
    Vec<u8>,
    Vec<RegistryRecord>,
))
    requires
        plugins@.len() <= u32::MAX,
        start <= 0x1_0000_0000_0000,
    ensures
        r.0@ == plugins_area(plugins@),
        r.0@.len() <= 2 * plugins@.len(),
        r.1@ == laid_out_records(plugins@, start as int),
        r.1@.len() == plugins@.len(),
{
    let mut area: Vec<u8> = Vec::new();
    let mut records: Vec<RegistryRecord> = Vec::new();
    let mut i: usize = 0;
    while i < plugins.len()
        invariant
            i <= plugins@.len() <= u32::MAX,
            start <= 0x1_0000_0000_0000,
            area@ == plugins_area(plugins@.subrange(0, i as int)),
            area@.len() <= 2 * i,
            records@ == laid_out_records(plugins@.subrange(0, i as int), start as int),
            records@.len() == i,
        decreases plugins@.len() - i,
    {
        let p = plugins[i];
        let ghost sub = plugins@.subrange(0, i + 1);
        assert(sub.drop_last() =~= plugins@.subrange(0, i as int));
        assert(sub.last() == p);
        let offset: u64 = start + area.len() as u64;
        records.push(
            RegistryRecord { plugin_type: p.plugin.plugin_type(), authority: p.authority, offset },
        );
        p.plugin.encode_into(&mut area);
        i += 1;
    }
    assert(plugins@.subrange(0, i as int) =~= plugins@);
    (area, records)
}

/// Writes the plugin header, the plugins in the order given, and the
/// registry that lists them after an object's bytes.
pub fn append_plugins(out: &mut Vec<u8>, plugins: &Vec<HashablePluginSchema>)
    requires
        old(out)@.len() <= 0x10_0000_0000,
        plugins@.len() <= u32::MAX,
    ensures
        final(out)@ == with_plugins(old(out)@, plugins@),
{
    if plugins.len() == 0 {
        return;
    }
    let ghost object = out@;
    let start: u64 = out.len() as u64 + 9;
    let (area, records) = lay_out_plugins(plugins, start);
    let header = PluginHeader {
        key: Key::PluginHeader,
        plugin_registry_offset: start + area.len() as u64,
    };
    header.encode_into(out);
    push_bytes(out, &area);
    let ghost before_registry = out@;
    let registry = PluginRegistry { key: Key::PluginRegistry, registry: records };
    let _ = registry.encode_into(out);
    proof {
        let st = object.len() as int + 9;
        assert(start == st);
        assert(header == PluginHeader {
            key: Key::PluginHeader,
            plugin_registry_offset: (st + plugins_area(plugins@).len()) as u64,
        });
        assert(before_registry == object + plugin_header_bytes(header) + plugins_area(plugins@));
        assert(out@ == before_registry + registry_bytes(Key::PluginRegistry, laid_out_records(plugins@, st)));
    }
}

/// Rebuilds the bytes of a decompressed account from the asset and its
/// plugins, each written with its recorded authority in the order given.
pub fn rebuild_account_state_from_proof_data(
    asset: &Asset,
    plugins: &Vec<HashablePluginSchema>,
) -> (r: Result<Vec<u8>, MplCoreError>)
    ensures
        asset_encodable(asset@) && plugins@.len() <= u32::MAX ==> r.is_ok() && r.unwrap()@
            == rebuilt_bytes(asset@, plugins@),
        !(asset_encodable(asset@) && plugins@.len() <= u32::MAX) ==> r == Err::<Vec<u8>, _>(
            MplCoreError::SerializationError,
        ),
{
    let mut out = match asset.encode() {
        Ok(d) => d,
        Err(e) => return Err(e),
    };
    if plugins.len() > u32::MAX as usize {
        return Err(MplCoreError::SerializationError);
    }
    if plugins.len() == 0 {
        return Ok(out);
    }
    append_plugins(&mut out, plugins);
    Ok(out)
}

} // verus!
