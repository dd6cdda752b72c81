//! The permission engine: gathers the votes of an asset, its collection and
//! their plugins on one operation, and reduces them to one decision.
use vstd::prelude::*;

use crate::address::Address;
use crate::authority::{resolve_spec, resolve_to_authority};
use crate::error::MplCoreError;
use crate::fetch::{
    fetch_asset_spec, fetch_collection_data, fetch_collection_spec, fetch_core_data, plugins_match,
    records_of,
};
use crate::lifecycle::{
    asset_check_spec, collection_check_spec, participates, plugin_check_spec,
    validate_asset_spec, validate_collection_spec, validate_plugin_spec, CheckResult, Lifecycle,
    ValidationResult,
};
use crate::plugins::{
    plugin_at, plugin_type_index, Plugin, PluginRegistry, RegistryRecord,
    PLUGIN_TYPE_COUNT,
};
use crate::state::{
    Account, AccountView, Asset, AssetView, Authority, Collection, CollectionView, Key, PluginHeader,
};

verus! {

/// Where a vote comes from.
#[derive(Clone, Copy, Debug, PartialEq, Eq, Structural)]
pub enum Source {
    Asset,
    Collection,
}

/// A plugin that takes part in an operation, with where it is attached.
#[derive(Clone, Copy, Debug, PartialEq, Eq, Structural)]
pub struct CheckEntry {
    pub source: Source,
    pub check: CheckResult,
    pub record: RegistryRecord,
}

/// One slot per plugin type, all empty.
pub open spec fn empty_checks() -> Seq<Option<CheckEntry>> {
    Seq::new(PLUGIN_TYPE_COUNT as nat, |i: int| None::<CheckEntry>)
}

/// `checks` after each record of `rs` that takes part in `op` has been
/// entered in its type's slot, in order, each replacing what was there.
pub open spec fn enter_records(
    checks: Seq<Option<CheckEntry>>,
    source: Source,
    op: Lifecycle,
    rs: Seq<RegistryRecord>,
) -> Seq<Option<CheckEntry>>
    decreases rs.len(),
{
    if rs.len() == 0 {
        checks
    } else {
        let prev = enter_records(checks, source, op, rs.drop_last());
        let r = rs.last();
        let c = plugin_check_spec(op, r.plugin_type);
        if participates(c) {
            prev.update(
                plugin_type_index(r.plugin_type) as int,
                Some(CheckEntry { source, check: c, record: r }),
            )
        } else {
            prev
        }
    }
}

/// The merged map: the collection's plugins first, then the asset's, so
/// that an asset plugin replaces a collection plugin of the same type.
pub open spec fn merged_checks(
    op: Lifecycle,
    collection_records: Seq<RegistryRecord>,
    asset_records: Seq<RegistryRecord>,
) -> Seq<Option<CheckEntry>> {
    enter_records(
        enter_records(empty_checks(), Source::Collection, op, collection_records),
        Source::Asset,
        op,
        asset_records,
    )
}

/// Everything a plugin vote depends on besides the plugin.
pub struct VoteContext {
    pub op: Lifecycle,
    pub caller: Address,
    pub resolved: Option<Authority>,
    pub asset_data: Seq<u8>,
    pub collection_data: Seq<u8>,
}

/// The vote of the plugin an entry points to, or the error of reading it.
pub open spec fn entry_verdict(e: CheckEntry, ctx: VoteContext) -> Result<
    ValidationResult,
    MplCoreError,
> {
    let data = match e.source {
        Source::Asset => ctx.asset_data,
        Source::Collection => ctx.collection_data,
    };
    match plugin_at(data, e.record.offset as int) {
        None => Err(MplCoreError::DeserializationError),
        Some((p, _)) => Ok(validate_plugin_spec(ctx.op, p, ctx.caller, e.record.authority, ctx.resolved)),
    }
}

pub open spec fn approves(v: ValidationResult) -> bool {
    v == ValidationResult::Approved || v == ValidationResult::ForceApproved
}

/// Whether slot `j` holds an entry from `source`.
pub open spec fn in_group(checks: Seq<Option<CheckEntry>>, source: Source, j: int) -> bool {
    0 <= j < checks.len() && checks[j].is_some() && checks[j].unwrap().source == source
}

/// The votes of the entries from `source` in slots `i..`, in slot order,
/// starting from `approved`: the first error or rejection stops them;
/// otherwise whether anything approved.
pub open spec fn run_group(
    checks: Seq<Option<CheckEntry>>,
    source: Source,
    i: int,
    ctx: VoteContext,
    approved: bool,
) -> Result<bool, MplCoreError>
    decreases checks.len() - i,
{
    if i < 0 || i >= checks.len() {
        Ok(approved)
    } else if !in_group(checks, source, i) {
        run_group(checks, source, i + 1, ctx, approved)
    } else {
        match entry_verdict(checks[i].unwrap(), ctx) {
            Err(e) => Err(e),
            Ok(v) => if v == ValidationResult::Rejected {
                Err(MplCoreError::InvalidAuthority)
            } else {
                run_group(checks, source, i + 1, ctx, approved || approves(v))
            },
        }
    }
}

/// The vote of the entity the core check is attributed to: the asset where
/// it takes part, else its collection; `Pass` where neither takes part.
pub open spec fn core_vote(
    op: Lifecycle,
    asset: AssetView,
    caller: Address,
    parent: Option<(Address, CollectionView)>,
) -> Result<ValidationResult, MplCoreError> {
    if participates(asset_check_spec(op)) {
        Ok(validate_asset_spec(op, asset, caller, parent))
    } else if participates(collection_check_spec(op)) {
        match parent {
            None => Err(MplCoreError::InvalidCollection),
            Some((_, c)) => Ok(validate_collection_spec(op, c, caller)),
        }
    } else {
        Ok(ValidationResult::Pass)
    }
}

/// The core vote reduced: `Ok(true)` for an approval, `Ok(false)` for a
/// pass, an error for a rejection.
pub open spec fn core_verdict(
    op: Lifecycle,
    asset: AssetView,
    caller: Address,
    parent: Option<(Address, CollectionView)>,
) -> Result<bool, MplCoreError> {
    match core_vote(op, asset, caller, parent) {
        Err(e) => Err(e),
        Ok(v) => if v == ValidationResult::Rejected {
            Err(MplCoreError::InvalidAuthority)
        } else {
            Ok(approves(v))
        },
    }
}

pub open spec fn resolved_or_none(r: Result<Authority, MplCoreError>) -> Option<Authority> {
    match r {
        Ok(a) => Some(a),
        Err(_) => None,
    }
}

/// The collection account read, with its address, where one is given.
pub open spec fn fetched_collection(collection: Option<AccountView>) -> Result<
    Option<(Address, CollectionView, Option<(PluginHeader, Key, Seq<RegistryRecord>)>)>,
    MplCoreError,
> {
    match collection {
        None => Ok(None),
        Some(c) => match fetch_collection_spec(c.data) {
            Err(e) => Err(e),
            Ok((cv, cp)) => Ok(Some((c.key, cv, cp))),
        },
    }
}

/// The collection, with its address, that the asset's vote may consult.
pub open spec fn decision_parent(collection: Option<AccountView>) -> Option<(Address, CollectionView)> {
    match fetched_collection(collection) {
        Ok(Some((k, cv, _))) => Some((k, cv)),
        _ => None,
    }
}

/// The merged plugin checks of a decision on `op`.
pub open spec fn decision_checks(
    asset: AccountView,
    collection: Option<AccountView>,
    op: Lifecycle,
) -> Seq<Option<CheckEntry>> {
    let collection_records = match fetched_collection(collection) {
        Ok(Some((_, _, cp))) => records_of(cp),
        _ => Seq::empty(),
    };
    let asset_records = match fetch_asset_spec(asset.data) {
        Ok((_, ap)) => records_of(ap),
        Err(_) => Seq::empty(),
    };
    merged_checks(op, collection_records, asset_records)
}

/// What the plugin votes of a decision on `op` depend on.
pub open spec fn decision_context(
    caller: Address,
    asset: AccountView,
    collection: Option<AccountView>,
    op: Lifecycle,
    a: AssetView,
) -> VoteContext {
    VoteContext {
        op,
        caller,
        resolved: resolved_or_none(resolve_spec(caller, collection, a)),
        asset_data: asset.data,
        collection_data: match collection {
            Some(c) => c.data,
            None => Seq::empty(),
        },
    }
}

/// The decision on `op` asked by `caller` on an asset's account and its
/// optional collection account: `Ok` where it is allowed, else the error.
pub open spec fn asset_permission_outcome(
    caller: Address,
    asset: AccountView,
    collection: Option<AccountView>,
    op: Lifecycle,
) -> Result<(), MplCoreError> {
    match fetch_asset_spec(asset.data) {
        Err(e) => Err(e),
        Ok((a, _)) => match fetched_collection(collection) {
            Err(e) => Err(e),
            Ok(_) => {
                let checks = decision_checks(asset, collection, op);
                let ctx = decision_context(caller, asset, collection, op, a);
                match core_verdict(op, a, caller, decision_parent(collection)) {
                    Err(e) => Err(e),
                    Ok(core) => match run_group(checks, Source::Collection, 0, ctx, core) {
                        Err(e) => Err(e),
                        Ok(ap1) => match run_group(checks, Source::Asset, 0, ctx, ap1) {
                            Err(e) => Err(e),
                            Ok(ap2) => if ap2 {
                                Ok(())
                            } else {
                                Err(MplCoreError::InvalidAuthority)
                            },
                        },
                    },
                }
            },
        },
    }
}

/// Enters each record of `registry` that takes part in `op` in its type's
/// slot of `checks`, replacing what was there.
pub fn check_registry(
    registry: &PluginRegistry,
    source: Source,
    op: Lifecycle,
    checks: &mut Vec<Option<CheckEntry>>,
)
    requires
        old(checks)@.len() == PLUGIN_TYPE_COUNT,
    ensures
        final(checks)@ == enter_records(old(checks)@, source, op, registry.registry@),
        final(checks)@.len() == PLUGIN_TYPE_COUNT,
{
    let ghost start = checks@;
    let mut i: usize = 0;
    while i < registry.registry.len()
        invariant
            i <= registry.registry@.len(),
            checks@.len() == PLUGIN_TYPE_COUNT,
            checks@ == enter_records(start, source, op, registry.registry@.subrange(0, i as int)),
        decreases registry.registry@.len() - i,
    {
        let record = registry.registry[i];
        let c = op.plugin_check(&record.plugin_type);
        let ghost sub = registry.registry@.subrange(0, i + 1);
        assert(sub.drop_last() =~= registry.registry@.subrange(0, i as int));
        assert(sub.last() == record);
        if c != CheckResult::Abstain {
            let idx = record.plugin_type.index();
            checks.set(idx, Some(CheckEntry { source, check: c, record }));
        }
        i += 1;
    }
    assert(registry.registry@.subrange(0, i as int) =~= registry.registry@);
}

/// Runs the votes of the entries from `source`, as [`run_group`] describes.
fn validate_plugin_checks(
    source: Source,
    checks: &Vec<Option<CheckEntry>>,
    op: Lifecycle,
    caller: &Address,
    new_owner: Option<Address>,
    resolved: Option<Authority>,
    asset_data: &Vec<u8>,
    collection_data: &Vec<u8>,
    approved: bool,
) -> (r: Result<bool, MplCoreError>)
    ensures
        r == run_group(
            checks@,
            source,
            0,
            VoteContext {
                op,
                caller: *caller,
                resolved,
                asset_data: asset_data@,
                collection_data: collection_data@,
            },
            approved,
        ),
{
    let ghost ctx = VoteContext {
        op,
        caller: *caller,
        resolved,
        asset_data: asset_data@,
        collection_data: collection_data@,
    };
    let mut any = approved;
    let mut i: usize = 0;
    while i < checks.len()
        invariant
            i <= checks@.len(),
            ctx == (VoteContext {
                op,
                caller: *caller,
                resolved,
                asset_data: asset_data@,
                collection_data: collection_data@,
            }),
            run_group(checks@, source, 0, ctx, approved) == run_group(
                checks@,
                source,
                i as int,
                ctx,
                any,
            ),
        decreases checks@.len() - i,
    {
        if let Some(e) = checks[i] {
            if e.source == source {
                assert(in_group(checks@, source, i as int));
                assert(checks@[i as int].unwrap() == e);
                let data = match e.source {
                    Source::Asset => asset_data,
                    Source::Collection => collection_data,
                };
                let ghost d = match e.source {
                    Source::Asset => ctx.asset_data,
                    Source::Collection => ctx.collection_data,
                };
                assert(data@ == d);
                let _ = data.len();
                if e.record.offset > usize::MAX as u64 {
                    assert(plugin_at(d, e.record.offset as int).is_none());


                    return Err(MplCoreError::DeserializationError);
                }
                let plugin = match Plugin::load(data, e.record.offset as usize) {
                    Ok(p) => p,
                    Err(err) => return Err(err),
                };
                let v = op.validate_plugin(&plugin, caller, new_owner, &e.record.authority, resolved);
                if v == ValidationResult::Rejected {
                    return Err(MplCoreError::InvalidAuthority);
                }
                if v == ValidationResult::Approved || v == ValidationResult::ForceApproved {
                    any = true;
                }
            }
        }
        i += 1;
    }
    Ok(any)
}

pub open spec fn account_views(c: Option<&Account>) -> Option<AccountView> {
    match c {
        Some(a) => Some(a@),
        None => None,
    }
}

/// Decides whether `authority` may perform `op` on the asset held in `asset`,
/// whose collection, if any, is `collection`; `new_owner` is where a
/// transfer would take the asset. On success returns the asset with its
/// plugin header and registry.
#[verifier::rlimit(60)]
pub fn validate_asset_permissions(
    authority: &Address,
    asset: &Account,
    collection: Option<&Account>,
    new_owner: Option<Address>,
    op: Lifecycle,
) -> (r: Result<(Asset, Option<PluginHeader>, Option<PluginRegistry>), MplCoreError>)
    ensures
        match asset_permission_outcome(*authority, asset@, account_views(collection), op) {
            Err(e) => r == Err::<(Asset, Option<PluginHeader>, Option<PluginRegistry>), _>(e),
            Ok(_) => r.is_ok() && match fetch_asset_spec(asset.data@) {
                Ok((a, p)) => r.unwrap().0@ == a && plugins_match(r.unwrap().1, r.unwrap().2, p),
                Err(_) => false,
            },
        },
{
    let (deserialized_asset, plugin_header, plugin_registry) = match fetch_core_data(&asset.data) {
        Ok(x) => x,
        Err(e) => return Err(e),
    };
    let mut checks: Vec<Option<CheckEntry>> = vec![None, None, None, None, None];
    assert(checks@ =~= empty_checks());

    // The asset's own check comes first; the collection's stands in for it
    // only where the asset takes no part.
    let asset_approval = op.asset_check();
    let core_from_asset = asset_approval != CheckResult::Abstain;
    let core_check = if core_from_asset {
        asset_approval
    } else {
        op.collection_check()
    };

    // The collection's plugins are entered first, so that the asset's
    // plugins replace them.
    let mut parent: Option<Collection> = None;
    if let Some(collection_info) = collection {
        let (c, _, registry) = match fetch_collection_data(&collection_info.data) {
            Ok(x) => x,
            Err(e) => return Err(e),
        };
        if let Some(r) = &registry {
            check_registry(r, Source::Collection, op, &mut checks);
        }
        parent = Some(c);
    }
    if let Some(r) = &plugin_registry {
        check_registry(r, Source::Asset, op, &mut checks);
    }

    let core_vote = if core_check == CheckResult::Abstain {
        ValidationResult::Pass
    } else if core_from_asset {
        let p = match (&parent, collection) {
            (Some(c), Some(ci)) => Some((ci.key, c)),
            _ => None,
        };
        op.validate_asset(&deserialized_asset, authority, p)
    } else {
        match &parent {
            None => return Err(MplCoreError::InvalidCollection),
            Some(c) => op.validate_collection(c, authority),
        }
    };
    if core_vote == ValidationResult::Rejected {
        return Err(MplCoreError::InvalidAuthority);
    }
    let approved = core_vote == ValidationResult::Approved || core_vote
        == ValidationResult::ForceApproved;

    let resolved = match resolve_to_authority(authority, collection, &deserialized_asset) {
        Ok(a) => Some(a),
        Err(_) => None,
    };
    let empty: Vec<u8> = Vec::new();
    let collection_data = match collection {
        Some(c) => &c.data,
        None => &empty,
    };
    assert(collection_data@ == match account_views(collection) {
        Some(c) => c.data,
        None => Seq::<u8>::empty(),
    });
    let approved = match validate_plugin_checks(
        Source::Collection,
        &checks,
        op,
        authority,
        new_owner,
        resolved,
        &asset.data,
        collection_data,
        approved,
    ) {
        Ok(a) => a,
        Err(e) => return Err(e),
    };
    let approved = match validate_plugin_checks(
        Source::Asset,
        &checks,
        op,
        authority,
        new_owner,
        resolved,
        &asset.data,
        collection_data,
        approved,
    ) {
        Ok(a) => a,
        Err(e) => return Err(e),
    };
    if !approved {
        return Err(MplCoreError::InvalidAuthority);
    }
    Ok((deserialized_asset, plugin_header, plugin_registry))
}

/// The role of `caller` on a collection: its update authority, or else just
/// its own address.
pub open spec fn collection_role(c: CollectionView, caller: Address) -> Authority {
    if c.update_authority == caller {
        Authority::UpdateAuthority
    } else {
        Authority::Pubkey { address: caller }
    }
}

/// The votes of the records `i..` of a collection's registry that take part
/// in `op`, in registry order, starting from `approved`: the first error or
/// rejection stops them; otherwise whether anything approved.
pub open spec fn run_records(
    rs: Seq<RegistryRecord>,
    i: int,
    op: Lifecycle,
    caller: Address,
    role: Authority,
    data: Seq<u8>,
    approved: bool,
) -> Result<bool, MplCoreError>
    decreases rs.len() - i,
{
    if i < 0 || i >= rs.len() {
        Ok(approved)
    } else if !participates(plugin_check_spec(op, rs[i].plugin_type)) {
        run_records(rs, i + 1, op, caller, role, data, approved)
    } else {
        match plugin_at(data, rs[i].offset as int) {
            None => Err(MplCoreError::DeserializationError),
            Some((p, _)) => {
                let v = validate_plugin_spec(op, p, caller, rs[i].authority, Some(role));
                if v == ValidationResult::Rejected {
                    Err(MplCoreError::InvalidAuthority)
                } else {
                    run_records(rs, i + 1, op, caller, role, data, approved || approves(v))
                }
            },
        }
    }
}

/// Runs the votes of a collection's plugins, as [`run_records`] describes.
fn run_collection_plugins(
    records: &Vec<RegistryRecord>,
    op: Lifecycle,
    authority: &Address,
    role: Authority,
    data: &Vec<u8>,
    approved: bool,
) -> (r: Result<bool, MplCoreError>)
    ensures
        r == run_records(records@, 0, op, *authority, role, data@, approved),
{
    let mut any = approved;
    let _ = data.len();
    let mut i: usize = 0;
    while i < records.len()
        invariant
            i <= records@.len(),
            data@.len() <= usize::MAX,
            run_records(records@, 0, op, *authority, role, data@, approved) == run_records(
                records@,
                i as int,
                op,
                *authority,
                role,
                data@,
                any,
            ),
        decreases records@.len() - i,
    {
        let record = records[i];
        if op.plugin_check(&record.plugin_type) != CheckResult::Abstain {
            if record.offset > usize::MAX as u64 {
                assert(plugin_at(data@, record.offset as int).is_none());
                return Err(MplCoreError::DeserializationError);
            }
            let plugin = match Plugin::load(data, record.offset as usize) {
                Ok(p) => p,
                Err(e) => return Err(e),
            };
            let v = op.validate_plugin(&plugin, authority, None, &record.authority, Some(role));
            if v == ValidationResult::Rejected {
                return Err(MplCoreError::InvalidAuthority);
            }
            if v == ValidationResult::Approved || v == ValidationResult::ForceApproved {
                any = true;
            }
        }
        i += 1;
    }
    Ok(any)
}

/// The decision on `op` asked by `caller` on a collection's account.
pub open spec fn collection_permission_outcome(
    caller: Address,
    collection: AccountView,
    op: Lifecycle,
) -> Result<(), MplCoreError> {
    match fetch_collection_spec(collection.data) {
        Err(e) => Err(e),
        Ok((c, p)) => {
            let core = if participates(collection_check_spec(op)) {
                validate_collection_spec(op, c, caller)
            } else {
                ValidationResult::Pass
            };
            if core == ValidationResult::Rejected {
                Err(MplCoreError::InvalidAuthority)
            } else {
                match run_records(
                    records_of(p),
                    0,
                    op,
                    caller,
                    collection_role(c, caller),
                    collection.data,
                    approves(core),
                ) {
                    Err(e) => Err(e),
                    Ok(a) => if a {
                        Ok(())
                    } else {
                        Err(MplCoreError::InvalidAuthority)
                    },
                }
            }
        },
    }
}

/// Decides whether `authority` may perform `op` on the collection held in
/// `collection`. On success returns the collection with its plugin header
/// and registry.
pub fn validate_collection_permissions(
    authority: &Address,
    collection: &Account,
    op: Lifecycle,
) -> (r: Result<(Collection, Option<PluginHeader>, Option<PluginRegistry>), MplCoreError>)
    ensures
        match collection_permission_outcome(*authority, collection@, op) {
            Err(e) => r == Err::<(Collection, Option<PluginHeader>, Option<PluginRegistry>), _>(e),
            Ok(_) => r.is_ok() && match fetch_collection_spec(collection.data@) {
                Ok((c, p)) => r.unwrap().0@ == c && plugins_match(r.unwrap().1, r.unwrap().2, p),
                Err(_) => false,
            },
        },
{
    let (deserialized_collection, plugin_header, plugin_registry) = match fetch_collection_data(
        &collection.data,
    ) {
        Ok(x) => x,
        Err(e) => return Err(e),
    };
    let core = if op.collection_check() != CheckResult::Abstain {
        op.validate_collection(&deserialized_collection, authority)
    } else {
        ValidationResult::Pass
    };
    if core == ValidationResult::Rejected {
        return Err(MplCoreError::InvalidAuthority);
    }
    let approved = core == ValidationResult::Approved || core
        == ValidationResult::ForceApproved;
    let role = if deserialized_collection.update_authority == *authority {
        Authority::UpdateAuthority
    } else {
        Authority::Pubkey { address: *authority }
    };
    let empty: Vec<RegistryRecord> = Vec::new();
    let records = match &plugin_registry {
        Some(r) => &r.registry,
        None => &empty,
    };
    let approved = match run_collection_plugins(records, op, authority, role, &collection.data, approved) {
        Ok(a) => a,
        Err(e) => return Err(e),
    };
    if !approved {
        return Err(MplCoreError::InvalidAuthority);
    }
    Ok((deserialized_collection, plugin_header, plugin_registry))
}

} // verus!
