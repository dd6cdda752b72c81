//! The records stored in an account: their values and their byte layout.
use vstd::prelude::*;

use crate::address::Address;
use crate::codec::{
    address_at, address_bytes, fits, le64, push_address, push_bytes, push_sized_bytes, push_u32, push_u64,
    read_address, read_sized_bytes, read_u32, read_u64, read_u8, sized_bytes, sized_bytes_at,
    u32_bytes, u64_bytes, le32,
};
use crate::error::MplCoreError;

verus! {

broadcast use crate::codec::lemma_u32_bytes_len;

/// The one-byte discriminant that opens every record.
#[derive(Clone, Copy, Debug, PartialEq, Eq, Structural)]
pub enum Key {
    Uninitialized,
    Asset,
    HashedAsset,
    PluginHeader,
    PluginRegistry,
    Collection,
}

pub open spec fn key_byte(k: Key) -> u8 {
    match k {
        Key::Uninitialized => 0,
        Key::Asset => 1,
        Key::HashedAsset => 2,
        Key::PluginHeader => 3,
        Key::PluginRegistry => 4,
        Key::Collection => 5,
    }
}

pub open spec fn key_of(b: u8) -> Option<Key> {
    if b == 0 {
        Some(Key::Uninitialized)
    } else if b == 1 {
        Some(Key::Asset)
    } else if b == 2 {
        Some(Key::HashedAsset)
    } else if b == 3 {
        Some(Key::PluginHeader)
    } else if b == 4 {
        Some(Key::PluginRegistry)
    } else if b == 5 {
        Some(Key::Collection)
    } else {
        None
    }
}

impl Key {
    pub fn to_u8(&self) -> (r: u8)
        ensures
            r == key_byte(*self),
    {
        match self {
            Key::Uninitialized => 0,
            Key::Asset => 1,
            Key::HashedAsset => 2,
            Key::PluginHeader => 3,
            Key::PluginRegistry => 4,
            Key::Collection => 5,
        }
    }

    pub fn from_u8(b: u8) -> (r: Option<Key>)
        ensures
            r == key_of(b),
    {
        if b == 0 {
            Some(Key::Uninitialized)
        } else if b == 1 {
            Some(Key::Asset)
        } else if b == 2 {
            Some(Key::HashedAsset)
        } else if b == 3 {
            Some(Key::PluginHeader)
        } else if b == 4 {
            Some(Key::PluginRegistry)
        } else if b == 5 {
            Some(Key::Collection)
        } else {
            None
        }
    }
}

/// The key that opens the record at `p`.
pub open spec fn key_at(s: Seq<u8>, p: int) -> Option<Key> {
    if fits(s, p, 1) {
        key_of(s[p])
    } else {
        None
    }
}

/// Reads the key at `pos`.
pub fn read_key(data: &Vec<u8>, pos: usize) -> (r: Option<Key>)
    ensures
        r == key_at(data@, pos as int),
{
    match read_u8(data, pos) {
        Some(b) => Key::from_u8(b),
        None => None,
    }
}

/// Who may act on something.
#[derive(Clone, Copy, Debug, PartialEq, Eq, Structural)]
pub enum Authority {
    /// Nobody: a grant that matches no caller.
    Nobody,
    /// The asset's current owner.
    Owner,
    /// The asset's update authority.
    UpdateAuthority,
    /// One fixed address.
    Pubkey { address: Address },
    /// One fixed address whose grant survives the removal of delegates.
    Permanent { address: Address },
}

pub open spec fn authority_bytes(a: Authority) -> Seq<u8> {
    match a {
        Authority::Nobody => seq![0u8],
        Authority::Owner => seq![1u8],
        Authority::UpdateAuthority => seq![2u8],
        Authority::Pubkey { address } => seq![3u8] + address_bytes(address),
        Authority::Permanent { address } => seq![4u8] + address_bytes(address),
    }
}

pub open spec fn authority_at(s: Seq<u8>, p: int) -> Option<(Authority, int)> {
    if !fits(s, p, 1) {
        None
    } else if s[p] == 0 {
        Some((Authority::Nobody, p + 1))
    } else if s[p] == 1 {
        Some((Authority::Owner, p + 1))
    } else if s[p] == 2 {
        Some((Authority::UpdateAuthority, p + 1))
    } else if s[p] == 3 || s[p] == 4 {
        match address_at(s, p + 1) {
            Some(address) => Some(
                (
                    if s[p] == 3 {
                        Authority::Pubkey { address }
                    } else {
                        Authority::Permanent { address }
                    },
                    p + 33,
                ),
            ),
            None => None,
        }
    } else {
        None
    }
}

impl Authority {
    pub fn encode_into(&self, out: &mut Vec<u8>)
        ensures
            final(out)@ == old(out)@ + authority_bytes(*self),
    {
        match self {
            Authority::Nobody => out.push(0),
            Authority::Owner => out.push(1),
            Authority::UpdateAuthority => out.push(2),
            Authority::Pubkey { address } => {
                out.push(3);
                push_address(out, address);
            },
            Authority::Permanent { address } => {
                out.push(4);
                push_address(out, address);
            },
        }
        assert(out@ =~= old(out)@ + authority_bytes(*self));
    }

    pub fn decode(data: &Vec<u8>, pos: usize) -> (r: Option<(Authority, usize)>)
        ensures
            match authority_at(data@, pos as int) {
                Some((a, e)) => r.is_some() && r.unwrap().0 == a && r.unwrap().1 == e,
                None => r.is_none(),
            },
    {
        if pos >= data.len() {
            return None;
        }
        let tag = data[pos];
        if tag == 0 {
            Some((Authority::Nobody, pos + 1))
        } else if tag == 1 {
            Some((Authority::Owner, pos + 1))
        } else if tag == 2 {
            Some((Authority::UpdateAuthority, pos + 1))
        } else if tag == 3 || tag == 4 {
            match read_address(data, pos + 1) {
                Some(address) => {
                    if tag == 3 {
                        Some((Authority::Pubkey { address }, pos + 33))
                    } else {
                        Some((Authority::Permanent { address }, pos + 33))
                    }
                },
                None => None,
            }
        } else {
            None
        }
    }
}

/// Who may update an asset: nobody, one address, or the update authority of
/// the collection at the given address.
#[derive(Clone, Copy, Debug, PartialEq, Eq, Structural)]
pub enum UpdateAuthority {
    Nobody,
    Address(Address),
    Collection(Address),
}

pub open spec fn update_authority_bytes(u: UpdateAuthority) -> Seq<u8> {
    match u {
        UpdateAuthority::Nobody => seq![0u8],
        UpdateAuthority::Address(a) => seq![1u8] + address_bytes(a),
        UpdateAuthority::Collection(a) => seq![2u8] + address_bytes(a),
    }
}

pub open spec fn update_authority_at(s: Seq<u8>, p: int) -> Option<(UpdateAuthority, int)> {
    if !fits(s, p, 1) {
        None
    } else if s[p] == 0 {
        Some((UpdateAuthority::Nobody, p + 1))
    } else if s[p] == 1 || s[p] == 2 {
        match address_at(s, p + 1) {
            Some(a) => Some(
                (
                    if s[p] == 1 {
                        UpdateAuthority::Address(a)
                    } else {
                        UpdateAuthority::Collection(a)
                    },
                    p + 33,
                ),
            ),
            None => None,
        }
    } else {
        None
    }
}

impl UpdateAuthority {
    /// The address that the value names; the zero address for `Nobody`.
    pub open spec fn key_spec(&self) -> Address {
        match *self {
            UpdateAuthority::Nobody => Address { w0: 0, w1: 0, w2: 0, w3: 0 },
            UpdateAuthority::Address(a) => a,
            UpdateAuthority::Collection(a) => a,
        }
    }

    pub fn key(&self) -> (r: Address)
        ensures
            r == self.key_spec(),
    {
        match self {
            UpdateAuthority::Nobody => Address { w0: 0, w1: 0, w2: 0, w3: 0 },
            UpdateAuthority::Address(a) => *a,
            UpdateAuthority::Collection(a) => *a,
        }
    }

    pub fn encode_into(&self, out: &mut Vec<u8>)
        ensures
            final(out)@ == old(out)@ + update_authority_bytes(*self),
    {
        match self {
            UpdateAuthority::Nobody => out.push(0),
            UpdateAuthority::Address(a) => {
                out.push(1);
                push_address(out, a);
            },
            UpdateAuthority::Collection(a) => {
                out.push(2);
                push_address(out, a);
            },
        }
        assert(out@ =~= old(out)@ + update_authority_bytes(*self));
    }

    pub fn decode(data: &Vec<u8>, pos: usize) -> (r: Option<(UpdateAuthority, usize)>)
        ensures
            match update_authority_at(data@, pos as int) {
                Some((u, e)) => r.is_some() && r.unwrap().0 == u && r.unwrap().1 == e,
                None => r.is_none(),
            },
    {
        if pos >= data.len() {
            return None;
        }
        let tag = data[pos];
        if tag == 0 {
            Some((UpdateAuthority::Nobody, pos + 1))
        } else if tag == 1 || tag == 2 {
            match read_address(data, pos + 1) {
                Some(a) => {
                    if tag == 1 {
                        Some((UpdateAuthority::Address(a), pos + 33))
                    } else {
                        Some((UpdateAuthority::Collection(a), pos + 33))
                    }
                },
                None => None,
            }
        } else {
            None
        }
    }
}

/// An item: the record at the start of an asset's account.
#[derive(Clone, Debug)]
pub struct Asset {
    pub key: Key,
    pub owner: Address,
    pub update_authority: UpdateAuthority,
    pub name: Vec<u8>,
    pub uri: Vec<u8>,
}

pub struct AssetView {
    pub key: Key,
    pub owner: Address,
    pub update_authority: UpdateAuthority,
    pub name: Seq<u8>,
    pub uri: Seq<u8>,
}

impl View for Asset {
    type V = AssetView;

    open spec fn view(&self) -> AssetView {
        AssetView {
            key: self.key,
            owner: self.owner,
            update_authority: self.update_authority,
            name: self.name@,
            uri: self.uri@,
        }
    }
}

/// Whether each text of the asset fits its 32-bit length prefix.
pub open spec fn asset_encodable(a: AssetView) -> bool {
    a.name.len() <= u32::MAX && a.uri.len() <= u32::MAX
}

pub open spec fn asset_bytes(a: AssetView) -> Seq<u8> {
    seq![key_byte(a.key)] + address_bytes(a.owner) + update_authority_bytes(a.update_authority)
        + sized_bytes(a.name) + sized_bytes(a.uri)
}

/// The asset recorded at `p`, and the position after it.
pub open spec fn asset_at(s: Seq<u8>, p: int) -> Option<(AssetView, int)> {
    match key_at(s, p) {
        None => None,
        Some(key) => match address_at(s, p + 1) {
            None => None,
            Some(owner) => match update_authority_at(s, p + 33) {
                None => None,
                Some((update_authority, e1)) => match sized_bytes_at(s, e1) {
                    None => None,
                    Some((name, e2)) => match sized_bytes_at(s, e2) {
                        None => None,
                        Some((uri, e3)) => Some(
                            (AssetView { key, owner, update_authority, name, uri }, e3),
                        ),
                    },
                },
            },
        },
    }
}

impl Asset {
    /// A copy of the asset.
    pub fn duplicate(&self) -> (r: Asset)
        ensures
            r@ == self@,
    {
        let mut name: Vec<u8> = Vec::new();
        push_bytes(&mut name, &self.name);
        let mut uri: Vec<u8> = Vec::new();
        push_bytes(&mut uri, &self.uri);
        assert(name@ =~= self.name@);
        assert(uri@ =~= self.uri@);
        Asset { key: self.key, owner: self.owner, update_authority: self.update_authority, name, uri }
    }

    /// The asset's bytes; fails where a text is too long for its length prefix.
    pub fn encode(&self) -> (r: Result<Vec<u8>, MplCoreError>)
        ensures
            asset_encodable(self@) ==> r.is_ok() && r.unwrap()@ == asset_bytes(self@)
                && r.unwrap()@.len() <= 74 + self.name@.len() + self.uri@.len(),
            !asset_encodable(self@) ==> r == Err::<Vec<u8>, _>(MplCoreError::SerializationError),
    {
        if self.name.len() > u32::MAX as usize || self.uri.len() > u32::MAX as usize {
            return Err(MplCoreError::SerializationError);
        }
        let mut out: Vec<u8> = Vec::new();
        out.push(self.key.to_u8());
        push_address(&mut out, &self.owner);
        self.update_authority.encode_into(&mut out);
        push_sized_bytes(&mut out, &self.name);
        push_sized_bytes(&mut out, &self.uri);
        assert(out@ =~= asset_bytes(self@));
        Ok(out)
    }

    /// Reads the asset at `pos`; returns it with the position after it.
    pub fn load(data: &Vec<u8>, pos: usize) -> (r: Result<(Asset, usize), MplCoreError>)
        ensures
            match asset_at(data@, pos as int) {
                Some((a, e)) => r.is_ok() && r.unwrap().0@ == a && r.unwrap().1 == e,
                None => r == Err::<(Asset, usize), _>(MplCoreError::DeserializationError),
            },
    {
        if pos >= data.len() {
            return Err(MplCoreError::DeserializationError);
        }
        let key = match read_key(data, pos) {
            Some(k) => k,
            None => return Err(MplCoreError::DeserializationError),
        };
        let owner = match read_address(data, pos + 1) {
            Some(o) => o,
            None => return Err(MplCoreError::DeserializationError),
        };
        let (update_authority, e1) = match UpdateAuthority::decode(data, pos + 33) {
            Some(x) => x,
            None => return Err(MplCoreError::DeserializationError),
        };
        let (name, e2) = match read_sized_bytes(data, e1) {
            Some(x) => x,
            None => return Err(MplCoreError::DeserializationError),
        };
        let (uri, e3) = match read_sized_bytes(data, e2) {
            Some(x) => x,
            None => return Err(MplCoreError::DeserializationError),
        };
        Ok((Asset { key, owner, update_authority, name, uri }, e3))
    }
}

/// A collection: the record at the start of a collection's account.
#[derive(Clone, Debug)]
pub struct Collection {
    pub key: Key,
    pub update_authority: Address,
    pub name: Vec<u8>,
    pub uri: Vec<u8>,
    pub num_minted: u32,
    pub current_size: u32,
}

pub struct CollectionView {
    pub key: Key,
    pub update_authority: Address,
    pub name: Seq<u8>,
    pub uri: Seq<u8>,
    pub num_minted: u32,
    pub current_size: u32,
}

impl View for Collection {
    type V = CollectionView;

    open spec fn view(&self) -> CollectionView {
        CollectionView {
            key: self.key,
            update_authority: self.update_authority,
            name: self.name@,
            uri: self.uri@,
            num_minted: self.num_minted,
            current_size: self.current_size,
        }
    }
}

pub open spec fn collection_bytes(c: CollectionView) -> Seq<u8> {
    seq![key_byte(c.key)] + address_bytes(c.update_authority) + sized_bytes(c.name) + sized_bytes(
        c.uri,
    ) + u32_bytes(c.num_minted) + u32_bytes(c.current_size)
}

/// The collection recorded at `p`, and the position after it.
pub open spec fn collection_at(s: Seq<u8>, p: int) -> Option<(CollectionView, int)> {
    match key_at(s, p) {
        None => None,
        Some(key) => match address_at(s, p + 1) {
            None => None,
            Some(update_authority) => match sized_bytes_at(s, p + 33) {
                None => None,
                Some((name, e1)) => match sized_bytes_at(s, e1) {
                    None => None,
                    Some((uri, e2)) => if fits(s, e2, 8) {
                        Some(
                            (
                                CollectionView {
                                    key,
                                    update_authority,
                                    name,
                                    uri,
                                    num_minted: le32(s, e2) as u32,
                                    current_size: le32(s, e2 + 4) as u32,
                                },
                                e2 + 8,
                            ),
                        )
                    } else {
                        None
                    },
                },
            },
        },
    }
}

impl Collection {
    /// The collection's bytes; fails where a text is too long for its length prefix.
    pub fn encode(&self) -> (r: Result<Vec<u8>, MplCoreError>)
        ensures
            self@.name.len() <= u32::MAX && self@.uri.len() <= u32::MAX ==> r.is_ok()
                && r.unwrap()@ == collection_bytes(self@),
            !(self@.name.len() <= u32::MAX && self@.uri.len() <= u32::MAX) ==> r == Err::<
                Vec<u8>,
                _,
            >(MplCoreError::SerializationError),
    {
        if self.name.len() > u32::MAX as usize || self.uri.len() > u32::MAX as usize {
            return Err(MplCoreError::SerializationError);
        }
        let mut out: Vec<u8> = Vec::new();
        out.push(self.key.to_u8());
        push_address(&mut out, &self.update_authority);
        push_sized_bytes(&mut out, &self.name);
        push_sized_bytes(&mut out, &self.uri);
        push_u32(&mut out, self.num_minted);
        push_u32(&mut out, self.current_size);
        assert(out@ =~= collection_bytes(self@));
        Ok(out)
    }

    /// Reads the collection at `pos`; returns it with the position after it.
    pub fn load(data: &Vec<u8>, pos: usize) -> (r: Result<(Collection, usize), MplCoreError>)
        ensures
            match collection_at(data@, pos as int) {
                Some((c, e)) => r.is_ok() && r.unwrap().0@ == c && r.unwrap().1 == e,
                None => r == Err::<(Collection, usize), _>(MplCoreError::DeserializationError),
            },
    {
        if pos >= data.len() {
            return Err(MplCoreError::DeserializationError);
        }
        let key = match read_key(data, pos) {
            Some(k) => k,
            None => return Err(MplCoreError::DeserializationError),
        };
        let update_authority = match read_address(data, pos + 1) {
            Some(o) => o,
            None => return Err(MplCoreError::DeserializationError),
        };
        let (name, e1) = match read_sized_bytes(data, pos + 33) {
            Some(x) => x,
            None => return Err(MplCoreError::DeserializationError),
        };
        let (uri, e2) = match read_sized_bytes(data, e1) {
            Some(x) => x,
            None => return Err(MplCoreError::DeserializationError),
        };
        let num_minted = match read_u32(data, e2) {
            Some(x) => x,
            None => return Err(MplCoreError::DeserializationError),
        };
        let current_size = match read_u32(data, e2 + 4) {
            Some(x) => x,
            None => return Err(MplCoreError::DeserializationError),
        };
        Ok((Collection { key, update_authority, name, uri, num_minted, current_size }, e2 + 8))
    }
}

/// The record that follows an object's own bytes where plugins are attached:
/// it says where the plugin registry starts.
#[derive(Clone, Copy, Debug, PartialEq, Eq, Structural)]
pub struct PluginHeader {
    pub key: Key,
    pub plugin_registry_offset: u64,
}

pub open spec fn plugin_header_bytes(h: PluginHeader) -> Seq<u8> {
    seq![key_byte(h.key)] + u64_bytes(h.plugin_registry_offset)
}

pub open spec fn plugin_header_at(s: Seq<u8>, p: int) -> Option<PluginHeader> {
    match key_at(s, p) {
        None => None,
        Some(key) => if fits(s, p + 1, 8) {
            Some(PluginHeader { key, plugin_registry_offset: le64(s, p + 1) as u64 })
        } else {
            None
        },
    }
}

impl PluginHeader {
    pub fn encode_into(&self, out: &mut Vec<u8>)
        ensures
            final(out)@ == old(out)@ + plugin_header_bytes(*self),
    {
        out.push(self.key.to_u8());
        push_u64(out, self.plugin_registry_offset);
        assert(out@ =~= old(out)@ + plugin_header_bytes(*self));
    }

    pub fn load(data: &Vec<u8>, pos: usize) -> (r: Result<PluginHeader, MplCoreError>)
        ensures
            match plugin_header_at(data@, pos as int) {
                Some(h) => r == Ok::<_, MplCoreError>(h),
                None => r == Err::<PluginHeader, _>(MplCoreError::DeserializationError),
            },
    {
        if pos >= data.len() {
            return Err(MplCoreError::DeserializationError);
        }
        let key = match read_key(data, pos) {
            Some(k) => k,
            None => return Err(MplCoreError::DeserializationError),
        };
        match read_u64(data, pos + 1) {
            Some(off) => Ok(PluginHeader { key, plugin_registry_offset: off }),
            None => Err(MplCoreError::DeserializationError),
        }
    }
}

/// What stands in an asset's account once it is compressed: the digest of
/// the asset and its plugins.
#[derive(Clone, Copy, Debug)]
pub struct HashedAsset {
    pub key: Key,
    pub hash: [u8; 32],
}

pub open spec fn hashed_asset_bytes(hash: Seq<u8>) -> Seq<u8> {
    seq![key_byte(Key::HashedAsset)] + hash
}

impl HashedAsset {
    pub fn new(hash: [u8; 32]) -> (r: HashedAsset)
        ensures
            r.key == Key::HashedAsset,
            r.hash@ == hash@,
    {
        HashedAsset { key: Key::HashedAsset, hash }
    }

    pub fn encode(&self) -> (r: Vec<u8>)
        ensures
            r@ == seq![key_byte(self.key)] + self.hash@,
    {
        let mut out: Vec<u8> = Vec::new();
        out.push(self.key.to_u8());
        let mut i: usize = 0;
        while i < 32
            invariant
                i <= 32,
                out@ == seq![key_byte(self.key)] + self.hash@.subrange(0, i as int),
            decreases 32 - i,
        {
            out.push(self.hash[i]);
            i += 1;
            assert(out@ =~= seq![key_byte(self.key)] + self.hash@.subrange(0, i as int));
        }
        assert(self.hash@.subrange(0, 32) =~= self.hash@);
        out
    }
}

/// An account as the library sees it: its address and its bytes.
#[derive(Clone, Debug)]
pub struct Account {
    pub key: Address,
    pub data: Vec<u8>,
}

pub struct AccountView {
    pub key: Address,
    pub data: Seq<u8>,
}

impl View for Account {
    type V = AccountView;

    open spec fn view(&self) -> AccountView {
        AccountView { key: self.key, data: self.data@ }
    }
}

} // verus!
