//! Properties that hold of the permission engine and of compression for
//! every input.
use vstd::prelude::*;

use crate::address::Address;
use crate::compression::{
    check_spec, commitment, committable, compress_spec, schemas_of, sorted_by_key, stored_digest,
    HashablePluginSchema, SortKey,
};
use crate::fetch::fetch_asset_spec;
use crate::lifecycle::{participates, plugin_check_spec, Lifecycle, ValidationResult};
use crate::permissions::{
    approves, asset_permission_outcome, core_vote, decision_checks, decision_context,
    decision_parent, enter_records, entry_verdict, fetched_collection, in_group, merged_checks,
    run_group, CheckEntry, Source, VoteContext,
};
use crate::plugins::{plugin_type_index, RegistryRecord, PLUGIN_TYPE_COUNT};
use crate::state::{AccountView, AssetView};

verus! {

broadcast use crate::codec::lemma_u32_bytes_len;

/// Every record of `rs` that takes part in `op` leaves an entry from
/// `source` in its type's slot.
proof fn lemma_entered(
    checks: Seq<Option<CheckEntry>>,
    source: Source,
    op: Lifecycle,
    rs: Seq<RegistryRecord>,
    j: int,
)
    requires
        checks.len() == PLUGIN_TYPE_COUNT,
        0 <= j < rs.len(),
        participates(plugin_check_spec(op, rs[j].plugin_type)),
    ensures
        enter_records(checks, source, op, rs).len() == PLUGIN_TYPE_COUNT,
        enter_records(checks, source, op, rs)[plugin_type_index(rs[j].plugin_type) as int].is_some(),
        enter_records(checks, source, op, rs)[plugin_type_index(
            rs[j].plugin_type,
        ) as int].unwrap().source == source,
    decreases rs.len(),
{
    lemma_entered_len(checks, source, op, rs.drop_last());
    if j < rs.len() - 1 {
        assert(rs.drop_last()[j] == rs[j]);
        lemma_entered(checks, source, op, rs.drop_last(), j);
    }
}

proof fn lemma_entered_len(
    checks: Seq<Option<CheckEntry>>,
    source: Source,
    op: Lifecycle,
    rs: Seq<RegistryRecord>,
)
    requires
        checks.len() == PLUGIN_TYPE_COUNT,
    ensures
        enter_records(checks, source, op, rs).len() == PLUGIN_TYPE_COUNT,
    decreases rs.len(),
{
    if rs.len() > 0 {
        lemma_entered_len(checks, source, op, rs.drop_last());
    }
}

/// An asset's configuration of a plugin type shadows the collection's: in
/// the merged checks, the slot of every type that one of the asset's
/// plugins configures for the operation holds the asset's entry, whatever
/// the collection's plugins are.
pub proof fn lemma_asset_shadows_collection(
    op: Lifecycle,
    collection_records: Seq<RegistryRecord>,
    asset_records: Seq<RegistryRecord>,
    j: int,
)
    requires
        0 <= j < asset_records.len(),
        participates(plugin_check_spec(op, asset_records[j].plugin_type)),
    ensures
        merged_checks(op, collection_records, asset_records)[plugin_type_index(
            asset_records[j].plugin_type,
        ) as int].is_some(),
        merged_checks(op, collection_records, asset_records)[plugin_type_index(
            asset_records[j].plugin_type,
        ) as int].unwrap().source == Source::Asset,
{
    let empty = Seq::new(PLUGIN_TYPE_COUNT as nat, |i: int| None::<CheckEntry>);
    lemma_entered_len(empty, Source::Collection, op, collection_records);
    lemma_entered(
        enter_records(empty, Source::Collection, op, collection_records),
        Source::Asset,
        op,
        asset_records,
        j,
    );
}

/// A rejection among the entries of slots `i..` ends the run in an error.
proof fn lemma_run_group_rejects(
    checks: Seq<Option<CheckEntry>>,
    source: Source,
    i: int,
    ctx: VoteContext,
    approved: bool,
    j: int,
)
    requires
        0 <= i <= j,
        in_group(checks, source, j),
        entry_verdict(checks[j].unwrap(), ctx) == Ok::<_, crate::error::MplCoreError>(
            ValidationResult::Rejected,
        ),
    ensures
        run_group(checks, source, i, ctx, approved).is_err(),
    decreases checks.len() - i,
{
    if i < j {
        if in_group(checks, source, i) {
            match entry_verdict(checks[i].unwrap(), ctx) {
                Err(_) => {},
                Ok(v) => if v != ValidationResult::Rejected {
                    lemma_run_group_rejects(checks, source, i + 1, ctx, approved || approves(v), j);
                },
            }
        } else {
            lemma_run_group_rejects(checks, source, i + 1, ctx, approved, j);
        }
    }
}

/// Whether every entry from `source` votes without error and without rejecting.
pub open spec fn group_clean(checks: Seq<Option<CheckEntry>>, source: Source, ctx: VoteContext) -> bool {
    forall|k: int|
        #![trigger in_group(checks, source, k)]
        in_group(checks, source, k) ==> entry_verdict(checks[k].unwrap(), ctx).is_ok()
            && entry_verdict(checks[k].unwrap(), ctx).unwrap() != ValidationResult::Rejected
}

/// Where no entry errs or rejects, the run succeeds, and approves where it
/// started approved or an entry from `i` on approves.
proof fn lemma_run_group_clean(
    checks: Seq<Option<CheckEntry>>,
    source: Source,
    i: int,
    ctx: VoteContext,
    approved: bool,
    j: int,
)
    requires
        0 <= i,
        group_clean(checks, source, ctx),
    ensures
        run_group(checks, source, i, ctx, approved).is_ok(),
        approved ==> run_group(checks, source, i, ctx, approved) == Ok::<
            bool,
            crate::error::MplCoreError,
        >(true),
        i <= j && in_group(checks, source, j) && approves(entry_verdict(checks[j].unwrap(), ctx).unwrap())
            ==> run_group(checks, source, i, ctx, approved) == Ok::<
            bool,
            crate::error::MplCoreError,
        >(true),
    decreases checks.len() - i,
{
    if i < checks.len() {
        if in_group(checks, source, i) {
            let v = entry_verdict(checks[i].unwrap(), ctx).unwrap();
            lemma_run_group_clean(checks, source, i + 1, ctx, approved || approves(v), j);
        } else {
            lemma_run_group_clean(checks, source, i + 1, ctx, approved, j);
        }
    }
}

/// Rejection dominates: where the core vote or the vote of any plugin that
/// takes part is a rejection, the operation is refused, however many other
/// votes approve.
pub proof fn lemma_rejection_dominates(
    caller: Address,
    asset: AccountView,
    collection: Option<AccountView>,
    op: Lifecycle,
    a: AssetView,
    source: Source,
    j: int,
)
    requires
        fetch_asset_spec(asset.data) matches Ok((fa, _)) && fa == a,
        core_vote(op, a, caller, decision_parent(collection)) == Ok::<
            _,
            crate::error::MplCoreError,
        >(ValidationResult::Rejected) || (in_group(decision_checks(asset, collection, op), source, j)
            && entry_verdict(
            decision_checks(asset, collection, op)[j].unwrap(),
            decision_context(caller, asset, collection, op, a),
        ) == Ok::<_, crate::error::MplCoreError>(ValidationResult::Rejected)),
    ensures
        asset_permission_outcome(caller, asset, collection, op).is_err(),
{
    let checks = decision_checks(asset, collection, op);
    let ctx = decision_context(caller, asset, collection, op, a);
    if core_vote(op, a, caller, decision_parent(collection)) != Ok::<
        _,
        crate::error::MplCoreError,
    >(ValidationResult::Rejected) {
        if let Ok(core) = crate::permissions::core_verdict(op, a, caller, decision_parent(collection)) {
            if source == Source::Collection {
                lemma_run_group_rejects(checks, Source::Collection, 0, ctx, core, j);
            } else {
                let r1 = run_group(checks, Source::Collection, 0, ctx, core);
                if let Ok(ap1) = r1 {
                    lemma_run_group_rejects(checks, Source::Asset, 0, ctx, ap1, j);
                }
            }
        }
    }
}

/// A force approval carries the decision: where everything reads, nothing
/// rejects, and one plugin that takes part force-approves, the operation is
/// allowed, whether or not the core check takes part.
pub proof fn lemma_force_approval_wins(
    caller: Address,
    asset: AccountView,
    collection: Option<AccountView>,
    op: Lifecycle,
    a: AssetView,
    source: Source,
    j: int,
)
    requires
        fetch_asset_spec(asset.data) matches Ok((fa, _)) && fa == a,
        fetched_collection(collection).is_ok(),
        core_vote(op, a, caller, decision_parent(collection)) matches Ok(v) && v
            != ValidationResult::Rejected,
        group_clean(
            decision_checks(asset, collection, op),
            Source::Collection,
            decision_context(caller, asset, collection, op, a),
        ),
        group_clean(
            decision_checks(asset, collection, op),
            Source::Asset,
            decision_context(caller, asset, collection, op, a),
        ),
        in_group(decision_checks(asset, collection, op), source, j),
        entry_verdict(
            decision_checks(asset, collection, op)[j].unwrap(),
            decision_context(caller, asset, collection, op, a),
        ) == Ok::<_, crate::error::MplCoreError>(ValidationResult::ForceApproved),
    ensures
        asset_permission_outcome(caller, asset, collection, op) == Ok::<
            (),
            crate::error::MplCoreError,
        >(()),
{
    let checks = decision_checks(asset, collection, op);
    let ctx = decision_context(caller, asset, collection, op, a);
    let core = crate::permissions::core_verdict(op, a, caller, decision_parent(collection)).unwrap();
    lemma_run_group_clean(checks, Source::Collection, 0, ctx, core, j);
    let ap1 = run_group(checks, Source::Collection, 0, ctx, core).unwrap();
    lemma_run_group_clean(checks, Source::Asset, 0, ctx, ap1, j);
}

/// The plugins that compression lists carry their places as indices.
proof fn lemma_schemas_indexed(d: Seq<u8>, rs: Seq<RegistryRecord>)
    requires
        schemas_of(d, rs).is_some(),
    ensures
        schemas_of(d, rs).unwrap().len() == rs.len(),
        rs.len() <= u64::MAX ==> forall|i: int|
            0 <= i < rs.len() ==> (#[trigger] schemas_of(d, rs).unwrap()[i]).index == i,
    decreases rs.len(),
{
    if rs.len() > 0 {
        lemma_schemas_indexed(d, rs.drop_last());
        let ps = schemas_of(d, rs.drop_last()).unwrap();
        let full = schemas_of(d, rs).unwrap();
        assert forall|i: int| rs.len() <= u64::MAX && 0 <= i < rs.len() implies (#[trigger] full[i]).index == i by {
            if i < rs.len() - 1 {
                assert(full[i] == ps[i]);
            }
        }
    }
}

/// Round trip: the proof that compression returns is in order, and the
/// digest recomputed from it is the one compression stored, so verifying
/// the compressed account with that proof gives back the same asset and
/// the same plugins in the same order. Digests are 32 bytes long.
pub proof fn lemma_compress_then_verify(a: AssetView, rs: Seq<RegistryRecord>, d: Seq<u8>)
    requires
        compress_spec(a, rs, d).is_ok(),
        commitment(a, compress_spec(a, rs, d).unwrap().0).len() == 32,
    ensures
        sorted_by_key(compress_spec(a, rs, d).unwrap().0),
        stored_digest(compress_spec(a, rs, d).unwrap().1) == Some(
            commitment(a, compress_spec(a, rs, d).unwrap().0),
        ),
        check_spec(compress_spec(a, rs, d).unwrap().1, a, compress_spec(a, rs, d).unwrap().0)
            == Ok::<(), crate::error::MplCoreError>(()),
{
    lemma_schemas_indexed(d, rs);
    let ps = compress_spec(a, rs, d).unwrap().0;
    let bytes = compress_spec(a, rs, d).unwrap().1;
    assert(ps == schemas_of(d, rs).unwrap());
    assert forall|x: int, y: int| 0 <= x < y < ps.len() implies ps[x].key() <= ps[y].key() by {
        assert(ps[x].index == x);
        assert(ps[y].index == y);
    }
    assert(bytes.subrange(1, 33) =~= commitment(a, ps));
}

} // verus!
