//! Plugins, the registry that lists them, and their byte layout.
use vstd::prelude::*;

use crate::codec::{fits, le32, le64, push_u32, push_u64, read_u32, read_u64, u32_bytes, u64_bytes};
use crate::error::MplCoreError;
use crate::state::{authority_at, authority_bytes, key_at, key_byte, read_key, Authority, Key};

verus! {

broadcast use crate::codec::lemma_u32_bytes_len;

/// The kinds of plugin, in their canonical order.
#[derive(Clone, Copy, Debug, PartialEq, Eq, Structural)]
pub enum PluginType {
    Freeze,
    Burn,
    Transfer,
    UpdateDelegate,
    PermanentBurn,
}

/// The number of plugin kinds.
pub const PLUGIN_TYPE_COUNT: usize = 5;

pub open spec fn plugin_type_index(t: PluginType) -> nat {
    match t {
        PluginType::Freeze => 0,
        PluginType::Burn => 1,
        PluginType::Transfer => 2,
        PluginType::UpdateDelegate => 3,
        PluginType::PermanentBurn => 4,
    }
}

pub open spec fn plugin_type_of(b: u8) -> Option<PluginType> {
    if b == 0 {
        Some(PluginType::Freeze)
    } else if b == 1 {
        Some(PluginType::Burn)
    } else if b == 2 {
        Some(PluginType::Transfer)
    } else if b == 3 {
        Some(PluginType::UpdateDelegate)
    } else if b == 4 {
        Some(PluginType::PermanentBurn)
    } else {
        None
    }
}

impl PluginType {
    pub fn index(&self) -> (r: usize)
        ensures
            r == plugin_type_index(*self),
            r < PLUGIN_TYPE_COUNT,
    {
        match self {
            PluginType::Freeze => 0,
            PluginType::Burn => 1,
            PluginType::Transfer => 2,
            PluginType::UpdateDelegate => 3,
            PluginType::PermanentBurn => 4,
        }
    }

    pub fn from_u8(b: u8) -> (r: Option<PluginType>)
        ensures
            r == plugin_type_of(b),
    {
        if b == 0 {
            Some(PluginType::Freeze)
        } else if b == 1 {
            Some(PluginType::Burn)
        } else if b == 2 {
            Some(PluginType::Transfer)
        } else if b == 3 {
            Some(PluginType::UpdateDelegate)
        } else if b == 4 {
            Some(PluginType::PermanentBurn)
        } else {
            None
        }
    }
}

/// Stops transfers and burns while set.
#[derive(Clone, Copy, Debug, PartialEq, Eq, Structural)]
pub struct Freeze {
    pub frozen: bool,
}

/// Lets its authority burn the asset.
#[derive(Clone, Copy, Debug, PartialEq, Eq, Structural)]
pub struct Burn {}

/// Lets its authority transfer the asset.
#[derive(Clone, Copy, Debug, PartialEq, Eq, Structural)]
pub struct Transfer {}

/// Lets its authority update the asset.
#[derive(Clone, Copy, Debug, PartialEq, Eq, Structural)]
pub struct UpdateDelegate {}

/// The permanent burn plugin lets its authority burn the asset whatever the
/// other plugins say. Its default authority is the update authority.
#[derive(Clone, Copy, Debug, PartialEq, Eq, Structural)]
pub struct PermanentBurn {}

/// A plugin with its data.
#[derive(Clone, Copy, Debug, PartialEq, Eq, Structural)]
pub enum Plugin {
    Freeze(Freeze),
    Burn(Burn),
    Transfer(Transfer),
    UpdateDelegate(UpdateDelegate),
    PermanentBurn(PermanentBurn),
}

pub open spec fn plugin_type_spec(p: Plugin) -> PluginType {
    match p {
        Plugin::Freeze(_) => PluginType::Freeze,
        Plugin::Burn(_) => PluginType::Burn,
        Plugin::Transfer(_) => PluginType::Transfer,
        Plugin::UpdateDelegate(_) => PluginType::UpdateDelegate,
        Plugin::PermanentBurn(_) => PluginType::PermanentBurn,
    }
}

pub open spec fn plugin_bytes(p: Plugin) -> Seq<u8> {
    match p {
        Plugin::Freeze(f) => seq![0u8, if f.frozen { 1u8 } else { 0u8 }],
        Plugin::Burn(_) => seq![1u8],
        Plugin::Transfer(_) => seq![2u8],
        Plugin::UpdateDelegate(_) => seq![3u8],
        Plugin::PermanentBurn(_) => seq![4u8],
    }
}

/// The plugin recorded at `p`, and the position after it.
pub open spec fn plugin_at(s: Seq<u8>, p: int) -> Option<(Plugin, int)> {
    if !fits(s, p, 1) {
        None
    } else if s[p] == 0 {
        if fits(s, p + 1, 1) && s[p + 1] <= 1 {
            Some((Plugin::Freeze(Freeze { frozen: s[p + 1] == 1 }), p + 2))
        } else {
            None
        }
    } else if s[p] == 1 {
        Some((Plugin::Burn(Burn {  }), p + 1))
    } else if s[p] == 2 {
        Some((Plugin::Transfer(Transfer {  }), p + 1))
    } else if s[p] == 3 {
        Some((Plugin::UpdateDelegate(UpdateDelegate {  }), p + 1))
    } else if s[p] == 4 {
        Some((Plugin::PermanentBurn(PermanentBurn {  }), p + 1))
    } else {
        None
    }
}

impl Plugin {
    pub fn plugin_type(&self) -> (r: PluginType)
        ensures
            r == plugin_type_spec(*self),
    {
        match self {
            Plugin::Freeze(_) => PluginType::Freeze,
            Plugin::Burn(_) => PluginType::Burn,
            Plugin::Transfer(_) => PluginType::Transfer,
            Plugin::UpdateDelegate(_) => PluginType::UpdateDelegate,
            Plugin::PermanentBurn(_) => PluginType::PermanentBurn,
        }
    }

    pub fn encode_into(&self, out: &mut Vec<u8>)
        ensures
            final(out)@ == old(out)@ + plugin_bytes(*self),
    {
        match self {
            Plugin::Freeze(f) => {
                out.push(0);
                out.push(if f.frozen { 1 } else { 0 });
            },
            Plugin::Burn(_) => out.push(1),
            Plugin::Transfer(_) => out.push(2),
            Plugin::UpdateDelegate(_) => out.push(3),
            Plugin::PermanentBurn(_) => out.push(4),
        }
        assert(out@ =~= old(out)@ + plugin_bytes(*self));
    }

    /// Reads the plugin at `pos`.
    pub fn load(data: &Vec<u8>, pos: usize) -> (r: Result<Plugin, MplCoreError>)
        ensures
            match plugin_at(data@, pos as int) {
                Some((p, _)) => r == Ok::<_, MplCoreError>(p),
                None => r == Err::<Plugin, _>(MplCoreError::DeserializationError),
            },
    {
        if pos >= data.len() {
            return Err(MplCoreError::DeserializationError);
        }
        let tag = data[pos];
        if tag == 0 {
            if pos + 1 < data.len() && data[pos + 1] <= 1 {
                Ok(Plugin::Freeze(Freeze { frozen: data[pos + 1] == 1 }))
            } else {
                Err(MplCoreError::DeserializationError)
            }
        } else if tag == 1 {
            Ok(Plugin::Burn(Burn {  }))
        } else if tag == 2 {
            Ok(Plugin::Transfer(Transfer {  }))
        } else if tag == 3 {
            Ok(Plugin::UpdateDelegate(UpdateDelegate {  }))
        } else if tag == 4 {
            Ok(Plugin::PermanentBurn(PermanentBurn {  }))
        } else {
            Err(MplCoreError::DeserializationError)
        }
    }
}

/// One entry of a plugin registry: which plugin, who controls it, and where
/// its bytes start in the account.
#[derive(Clone, Copy, Debug, PartialEq, Eq, Structural)]
pub struct RegistryRecord {
    pub plugin_type: PluginType,
    pub authority: Authority,
    pub offset: u64,
}

pub open spec fn record_bytes(r: RegistryRecord) -> Seq<u8> {
    seq![plugin_type_index(r.plugin_type) as u8] + authority_bytes(r.authority) + u64_bytes(
        r.offset,
    )
}

pub open spec fn record_at(s: Seq<u8>, p: int) -> Option<(RegistryRecord, int)> {
    if !fits(s, p, 1) {
        None
    } else {
        match plugin_type_of(s[p]) {
            None => None,
            Some(plugin_type) => match authority_at(s, p + 1) {
                None => None,
                Some((authority, e)) => if fits(s, e, 8) {
                    Some((RegistryRecord { plugin_type, authority, offset: le64(s, e) as u64 }, e + 8))
                } else {
                    None
                },
            },
        }
    }
}

pub open spec fn records_bytes(rs: Seq<RegistryRecord>) -> Seq<u8>
    decreases rs.len(),
{
    if rs.len() == 0 {
        Seq::empty()
    } else {
        records_bytes(rs.drop_last()) + record_bytes(rs.last())
    }
}

/// The `n` records that follow each other from `p` on, and the position after them.
pub open spec fn records_at(s: Seq<u8>, p: int, n: nat) -> Option<(Seq<RegistryRecord>, int)>
    decreases n,
{
    if n == 0 {
        Some((Seq::empty(), p))
    } else {
        match record_at(s, p) {
            None => None,
            Some((r, e)) => match records_at(s, e, (n - 1) as nat) {
                None => None,
                Some((rs, e2)) => Some((seq![r] + rs, e2)),
            },
        }
    }
}

impl RegistryRecord {
    pub fn encode_into(&self, out: &mut Vec<u8>)
        ensures
            final(out)@ == old(out)@ + record_bytes(*self),
    {
        out.push(self.plugin_type.index() as u8);
        self.authority.encode_into(out);
        push_u64(out, self.offset);
        assert(out@ =~= old(out)@ + record_bytes(*self));
    }

    pub fn decode(data: &Vec<u8>, pos: usize) -> (r: Option<(RegistryRecord, usize)>)
        ensures
            match record_at(data@, pos as int) {
                Some((rec, e)) => r.is_some() && r.unwrap().0 == rec && r.unwrap().1 == e,
                None => r.is_none(),
            },
    {
        if pos >= data.len() {
            return None;
        }
        let plugin_type = match PluginType::from_u8(data[pos]) {
            Some(t) => t,
            None => return None,
        };
        let (authority, e) = match Authority::decode(data, pos + 1) {
            Some(x) => x,
            None => return None,
        };
        match read_u64(data, e) {
            Some(offset) => Some((RegistryRecord { plugin_type, authority, offset }, e + 8)),
            None => None,
        }
    }
}

/// The list of the plugins attached to an object.
#[derive(Clone, Debug)]
pub struct PluginRegistry {
    pub key: Key,
    pub registry: Vec<RegistryRecord>,
}

pub open spec fn registry_bytes(key: Key, rs: Seq<RegistryRecord>) -> Seq<u8> {
    seq![key_byte(key)] + u32_bytes(rs.len() as u32) + records_bytes(rs)
}

/// The registry at `p`: its key and its records.
pub open spec fn registry_at(s: Seq<u8>, p: int) -> Option<(Key, Seq<RegistryRecord>)> {
    match key_at(s, p) {
        None => None,
        Some(key) => if fits(s, p + 1, 4) {
            match records_at(s, p + 5, le32(s, p + 1) as nat) {
                Some((rs, _)) => Some((key, rs)),
                None => None,
            }
        } else {
            None
        },
    }
}

impl PluginRegistry {
    /// The registry's bytes; fails where it holds more records than its
    /// 32-bit count can say.
    pub fn encode_into(&self, out: &mut Vec<u8>) -> (r: Result<(), MplCoreError>)
        ensures
            self.registry@.len() <= u32::MAX ==> r.is_ok() && final(out)@ == old(out)@
                + registry_bytes(self.key, self.registry@),
            self.registry@.len() > u32::MAX ==> r == Err::<(), _>(MplCoreError::SerializationError)
                && final(out)@ == old(out)@,
    {
        if self.registry.len() > u32::MAX as usize {
            return Err(MplCoreError::SerializationError);
        }
        let ghost start = out@;
        out.push(self.key.to_u8());
        push_u32(out, self.registry.len() as u32);
        let ghost head = out@;
        let mut i: usize = 0;
        while i < self.registry.len()
            invariant
                i <= self.registry@.len(),
                out@ == head + records_bytes(self.registry@.subrange(0, i as int)),
            decreases self.registry@.len() - i,
        {
            self.registry[i].encode_into(out);
            let ghost sub = self.registry@.subrange(0, i + 1);
            assert(sub.drop_last() =~= self.registry@.subrange(0, i as int));
            i += 1;
        }
        assert(self.registry@.subrange(0, i as int) =~= self.registry@);
        assert(out@ =~= start + registry_bytes(self.key, self.registry@));
        Ok(())
    }

    /// Reads the registry at `pos`.
    pub fn load(data: &Vec<u8>, pos: usize) -> (r: Result<PluginRegistry, MplCoreError>)
        ensures
            match registry_at(data@, pos as int) {
                Some((k, rs)) => r.is_ok() && r.unwrap().key == k && r.unwrap().registry@ == rs,
                None => r == Err::<PluginRegistry, _>(MplCoreError::DeserializationError),
            },
    {
        if pos >= data.len() {
            return Err(MplCoreError::DeserializationError);
        }
        let key = match read_key(data, pos) {
            Some(k) => k,
            None => return Err(MplCoreError::DeserializationError),
        };
        let n = match read_u32(data, pos + 1) {
            Some(n) => n,
            None => return Err(MplCoreError::DeserializationError),
        };
        let mut registry: Vec<RegistryRecord> = Vec::new();
        let mut cur: usize = pos + 5;
        let mut i: u32 = 0;
        while i < n
            invariant
                i <= n,
                n == le32(data@, pos + 1) as u32,
                fits(data@, pos as int + 1, 4),
                records_at(data@, pos + 5, n as nat) == match records_at(
                    data@,
                    cur as int,
                    (n - i) as nat,
                ) {
                    Some((rs, e)) => Some((registry@ + rs, e)),
                    None => None,
                },
            decreases n - i,
        {
            match RegistryRecord::decode(data, cur) {
                Some((rec, e)) => {
                    let ghost before = registry@;
                    proof {
                        assert(records_at(data@, cur as int, (n - i) as nat) == match records_at(
                            data@,
                            e as int,
                            (n - i - 1) as nat,
                        ) {
                            Some((rs, e2)) => Some((seq![rec] + rs, e2)),
                            None => None,
                        });
                    }
                    registry.push(rec);
                    cur = e;
                    i += 1;
                    proof {
                        let rest = records_at(data@, cur as int, (n - i) as nat);
                        if let Some((rs, e2)) = rest {
                            assert(registry@ + rs =~= before + (seq![rec] + rs));
                        }
                    }
                },
                None => {
                    return Err(MplCoreError::DeserializationError);
                },
            }
        }
        assert(registry@ + Seq::<RegistryRecord>::empty() =~= registry@);
        Ok(PluginRegistry { key, registry })
    }
}

} // verus!
