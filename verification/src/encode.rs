//! The byte layouts written out: the inverse of the decoders, kept next to
//! them so that each can be held against the other.

use crate::error::GameError;
use crate::laws::{entities_encodable, lemma_entities_round_trip, lemma_map_round_trip};
use crate::le::{i16_bytes, u16_bytes, u32_bytes};
use crate::map::{
    decode_entities, decode_map, is_supported, pxe_version_supported, record_len, NPCData, TileMap,
    TileMapView, PXE_MAGIC, PXM_MAGIC, SUPPORTED_PXE_VERSIONS, VERSION_CURRENT,
};
use vstd::prelude::*;

verus! {

/// Whether a tile map fits the grid layout: one tile per cell, and both
/// dimensions within 16 bits.
pub open spec fn map_encodable(map: TileMapView) -> bool {
    &&& map.wf()
    &&& map.width <= 0xFFFF
    &&& map.height <= 0xFFFF
}

/// The grid stream of a tile map: tag, current version, width, height, tiles.
pub open spec fn encode_map(map: TileMapView) -> Seq<u8> {
    PXM_MAGIC@ + seq![VERSION_CURRENT] + u16_bytes(map.width as int) + u16_bytes(
        map.height as int,
    ) + map.tiles
}

/// The bytes of one record in a stream of the given version. The identifier
/// is not written: a record's place in the stream stands for it.
pub open spec fn encode_record(npc: NPCData, version: u8) -> Seq<u8> {
    let fields = i16_bytes(npc.x as int) + i16_bytes(npc.y as int) + u16_bytes(npc.flag_num as int)
        + u16_bytes(npc.event_num as int) + u16_bytes(npc.npc_type as int) + u16_bytes(
        npc.flags as int,
    );
    if version == VERSION_CURRENT {
        fields + seq![npc.layer]
    } else {
        fields
    }
}

/// The bytes of a run of records, back to back in order.
pub open spec fn encode_records(npcs: Seq<NPCData>, version: u8) -> Seq<u8>
    decreases npcs.len(),
{
    if npcs.len() == 0 {
        Seq::empty()
    } else {
        encode_records(npcs.drop_last(), version) + encode_record(npcs.last(), version)
    }
}

/// The entity stream of a run of records: tag, version, count, records.
pub open spec fn encode_entities(npcs: Seq<NPCData>, version: u8) -> Seq<u8> {
    PXE_MAGIC@ + seq![version] + u32_bytes(npcs.len() as int) + encode_records(npcs, version)
}

/// One record takes as many bytes as its version says.
pub proof fn lemma_encode_record_len(npc: NPCData, version: u8)
    ensures
        encode_record(npc, version).len() == record_len(version),
{
}

/// A run of records takes as many bytes as its records together.
pub proof fn lemma_encode_records_len(npcs: Seq<NPCData>, version: u8)
    ensures
        encode_records(npcs, version).len() == npcs.len() * record_len(version),
    decreases npcs.len(),
{
    if npcs.len() > 0 {
        lemma_encode_records_len(npcs.drop_last(), version);
        lemma_encode_record_len(npcs.last(), version);
        assert((npcs.len() - 1) * record_len(version) + record_len(version) == npcs.len()
            * record_len(version)) by (nonlinear_arith);
    }
}

/// Appends the three bytes of a tag.
fn push_tag(out: &mut Vec<u8>, magic: [u8; 3])
    ensures
        final(out)@ == old(out)@ + magic@,
{
    out.push(magic[0]);
    out.push(magic[1]);
    out.push(magic[2]);
}

/// Appends the two bytes of `v`, least significant first.
fn push_u16(out: &mut Vec<u8>, v: u16)
    ensures
        final(out)@ == old(out)@ + u16_bytes(v as int),
{
    assert(v & 0xFF == v % 0x100 && (v >> 8) == v / 0x100 && (v >> 8) < 0x100) by (bit_vector);
    out.push((v & 0xFF) as u8);
    out.push((v >> 8) as u8);
}

/// Appends the two bytes of `v` in two's complement, least significant first.
fn push_i16(out: &mut Vec<u8>, v: i16)
    ensures
        final(out)@ == old(out)@ + i16_bytes(v as int),
{
    let bits: u16 = if v < 0 {
        (v as i32 + 0x1_0000) as u16
    } else {
        v as u16
    };
    push_u16(out, bits);
}

/// Appends the four bytes of `v`, least significant first.
fn push_u32(out: &mut Vec<u8>, v: u32)
    ensures
        final(out)@ == old(out)@ + u32_bytes(v as int),
{
    assert(v & 0xFF == v % 0x100 && (v >> 8) & 0xFF == v / 0x100 % 0x100 && (v >> 16) & 0xFF == v
        / 0x1_0000 % 0x100 && (v >> 24) == v / 0x100_0000 % 0x100 && (v >> 24) < 0x100)
        by (bit_vector);
    out.push((v & 0xFF) as u8);
    out.push(((v >> 8) & 0xFF) as u8);
    out.push(((v >> 16) & 0xFF) as u8);
    out.push((v >> 24) as u8);
}

/// Appends the bytes of one record.
fn push_record(out: &mut Vec<u8>, npc: &NPCData, version: u8)
    ensures
        final(out)@ == old(out)@ + encode_record(*npc, version),
{
    push_i16(out, npc.x);
    push_i16(out, npc.y);
    push_u16(out, npc.flag_num);
    push_u16(out, npc.event_num);
    push_u16(out, npc.npc_type);
    push_u16(out, npc.flags);
    if version == VERSION_CURRENT {
        out.push(npc.layer);
    }
}

impl TileMap {
    /// Writes the grid stream of this map, where it has one: `None` for a map
    /// whose tiles do not fill its grid or whose side exceeds 16 bits.
    ///
    /// The attribute stream of a map is its table as it stands. Decoding the
    /// two gives the map back.
    pub fn to_bytes(&self) -> (res: Option<Vec<u8>>)
        ensures
            res is Some <==> map_encodable(self@),
            res matches Some(bytes) ==> bytes@ == encode_map(self@),
            res matches Some(bytes) ==> decode_map(bytes@, self.attrib@) == Ok::<
                TileMapView,
                GameError,
            >(self@),
    {
        if self.width > 0xFFFF || self.height > 0xFFFF {
            return None;
        }
        assert(self.width * self.height <= 0xFFFF * 0xFFFF) by (nonlinear_arith)
            requires
                self.width <= 0xFFFF,
                self.height <= 0xFFFF,
        ;
        let cells: u64 = (self.width as u64) * (self.height as u64);
        if self.tiles.len() as u64 != cells {
            return None;
        }
        let mut out: Vec<u8> = Vec::new();
        push_tag(&mut out, PXM_MAGIC);
        out.push(VERSION_CURRENT);
        push_u16(&mut out, self.width as u16);
        push_u16(&mut out, self.height as u16);
        let mut i: usize = 0;
        while i < self.tiles.len()
            invariant
                i <= self.tiles@.len(),
                out@ == PXM_MAGIC@ + seq![VERSION_CURRENT] + u16_bytes(self.width as int)
                    + u16_bytes(self.height as int) + self.tiles@.subrange(0, i as int),
            decreases self.tiles@.len() - i,
        {
            out.push(self.tiles[i]);
            i += 1;
        }
        proof {
            lemma_map_round_trip(self@);
        }
        Some(out)
    }
}

impl NPCData {
    /// Writes the entity stream of `npcs` in the layout of `version`, where
    /// there is one: `None` for a version that is not supported, and for more
    /// records than a 32-bit count can state.
    ///
    /// The legacy layout has no layer byte, so a layer is written only for the
    /// current version, and identifiers are not written at all. Decoding the
    /// stream gives back the records whose identifiers and layers are those
    /// that a decode hands out.
    pub fn to_bytes(npcs: &[NPCData], version: u8) -> (res: Option<Vec<u8>>)
        ensures
            res is Some <==> pxe_version_supported(version) && npcs@.len() <= u32::MAX,
            res matches Some(bytes) ==> bytes@ == encode_entities(npcs@, version),
            res matches Some(bytes) ==> (entities_encodable(npcs@, version) ==> decode_entities(
                bytes@,
            ) == Ok::<Seq<NPCData>, GameError>(npcs@)),
    {
        if !is_supported(version, SUPPORTED_PXE_VERSIONS.as_slice()) {
            return None;
        }
        if npcs.len() as u64 > u32::MAX as u64 {
            return None;
        }
        let mut out: Vec<u8> = Vec::new();
        push_tag(&mut out, PXE_MAGIC);
        out.push(version);
        push_u32(&mut out, npcs.len() as u32);
        let mut i: usize = 0;
        while i < npcs.len()
            invariant
                i <= npcs@.len(),
                out@ == PXE_MAGIC@ + seq![version] + u32_bytes(npcs@.len() as int)
                    + encode_records(npcs@.subrange(0, i as int), version),
            decreases npcs@.len() - i,
        {
            push_record(&mut out, &npcs[i], version);
            proof {
                let longer = npcs@.subrange(0, i + 1);
                assert(longer.drop_last() =~= npcs@.subrange(0, i as int));
            }
            i += 1;
        }
        assert(npcs@.subrange(0, i as int) =~= npcs@);
        proof {
            if entities_encodable(npcs@, version) {
                lemma_entities_round_trip(npcs@, version);
            }
        }
        Some(out)
    }
}

} // verus!
