//! What holds of the decoders on every input, stated over their models.

use crate::encode::{
    encode_entities, encode_map, encode_record, encode_records, lemma_encode_record_len,
    lemma_encode_records_len, map_encodable,
};
use crate::error::GameError;
use crate::le::{
    i16_bytes, lemma_i16_bytes_read_back, lemma_u16_bytes_read_back, lemma_u32_bytes_read_back,
    u16_bytes, u32_le,
};
use crate::map::{
    attrib_table, decode_entities, decode_map, pxe_version_supported, pxm_version_supported,
    record_at, record_from, record_len, NPCData, TileMapView, BASE_ID, PXE_MAGIC, PXM_MAGIC,
    VERSION_CURRENT, VERSION_LEGACY,
};
use vstd::prelude::*;

verus! {

/// Every tile map that a decode yields holds exactly `width * height` tiles
/// and an attribute table of 256 entries.
pub proof fn lemma_decoded_map_is_well_formed(map_data: Seq<u8>, attrib_data: Seq<u8>)
    ensures
        decode_map(map_data, attrib_data) matches Ok(map) ==> map.wf() && map.tiles.len()
            == map.width * map.height && map.attrib.len() == 256,
{
}

/// A grid stream that opens with three bytes other than the tile-map tag
/// decodes to `InvalidMagic`, whatever follows them.
pub proof fn lemma_map_wrong_magic(map_data: Seq<u8>, attrib_data: Seq<u8>)
    requires
        map_data.len() >= 3,
        map_data.subrange(0, 3) != PXM_MAGIC@,
    ensures
        decode_map(map_data, attrib_data) == Err::<TileMapView, GameError>(GameError::InvalidMagic),
{
}

/// A grid stream with the right tag and a version byte that is not supported
/// decodes to `UnsupportedVersion` with that byte, whatever dimensions and
/// tiles follow.
pub proof fn lemma_map_unsupported_version(map_data: Seq<u8>, attrib_data: Seq<u8>)
    requires
        map_data.len() >= 4,
        map_data.subrange(0, 3) == PXM_MAGIC@,
        !pxm_version_supported(map_data[3]),
    ensures
        decode_map(map_data, attrib_data) == Err::<TileMapView, GameError>(
            GameError::UnsupportedVersion(map_data[3]),
        ),
{
}

/// The attribute stream never makes a decode fail, and a short one fills the
/// front of the table: the entries it reaches equal its bytes, the rest are
/// zero.
pub proof fn lemma_short_attrib_is_tolerated(
    map_data: Seq<u8>,
    attrib_data: Seq<u8>,
    other_attrib_data: Seq<u8>,
)
    ensures
        decode_map(map_data, attrib_data) is Ok <==> decode_map(map_data, other_attrib_data) is Ok,
        decode_map(map_data, attrib_data) matches Ok(map) ==> {
            &&& map.attrib.len() == 256
            &&& forall|i: int|
                0 <= i < 256 && i < attrib_data.len() ==> map.attrib[i] == attrib_data[i]
            &&& forall|i: int| attrib_data.len() <= i < 256 ==> map.attrib[i] == 0
        },
{
}

/// Whether a position lies on the grid.
pub open spec fn on_grid(map: TileMapView, x: int, y: int) -> bool {
    0 <= x < map.width && 0 <= y < map.height
}

/// Whether a position off the grid has a linear index that still falls among
/// the tiles, and there meets a tile whose attribute is not that of the empty
/// tile. This happens only to the right of the grid, on a row above the
/// last, where the index runs on into the next row.
pub open spec fn runs_into_next_row(map: TileMapView, x: int, y: int) -> bool {
    &&& !on_grid(map, x, y)
    &&& 0 <= map.width * y + x < map.tiles.len()
    &&& map.attrib[map.tiles[map.width * y + x] as int] != map.attrib[0]
}

/// A position off the grid has the attribute of the empty tile, unless its
/// linear index runs on into the next row.
pub proof fn lemma_off_grid_is_empty_tile(map: TileMapView, x: int, y: int)
    requires
        map.wf(),
        !on_grid(map, x, y),
        !runs_into_next_row(map, x, y),
    ensures
        map.attribute_at(x, y) == map.attrib[0],
{
}

/// A position on or below the row after the last has the attribute of the
/// empty tile, and so has every position whose linear index is past the
/// tiles.
pub proof fn lemma_below_grid_is_empty_tile(map: TileMapView, x: int, y: int)
    requires
        map.wf(),
        0 <= x,
        map.height <= y,
    ensures
        !runs_into_next_row(map, x, y),
        map.attribute_at(x, y) == map.attrib[0],
{
    assert(map.width * y >= map.width * map.height) by (nonlinear_arith)
        requires
            map.height <= y,
    ;
}

/// An off-grid position meets a tile only to the right of a row above the
/// last.
pub proof fn lemma_runs_into_next_row_only_from_the_right(map: TileMapView, x: int, y: int)
    requires
        map.wf(),
        0 <= x,
        0 <= y,
        runs_into_next_row(map, x, y),
    ensures
        map.width <= x,
        y + 1 < map.height,
{
    if map.height <= y {
        lemma_below_grid_is_empty_tile(map, x, y);
    }
    assert(y + 1 < map.height) by (nonlinear_arith)
        requires
            map.width * y + x < map.width * map.height,
            map.width <= x,
            0 <= y,
    ;
}

/// The records of a decoded entity stream are as many as the stream states
/// and stand in the order the stream holds them. They carry the identifiers
/// `BASE_ID`, `BASE_ID + 1`, and so on: strictly increasing, hence distinct.
pub proof fn lemma_ids_follow_stream_order(data: Seq<u8>)
    ensures
        decode_entities(data) matches Ok(npcs) ==> {
            &&& npcs.len() == u32_le(data, 4)
            &&& forall|i: int|
                0 <= i < npcs.len() ==> #[trigger] npcs[i] == record_at(data, data[3], i)
            &&& forall|i: int| 0 <= i < npcs.len() ==> (#[trigger] npcs[i]).id == BASE_ID + i
            &&& forall|i: int, j: int|
                0 <= i < j < npcs.len() ==> (#[trigger] npcs[i]).id < (#[trigger] npcs[j]).id
        },
{
}

/// A stream of the legacy version holds twelve bytes per record and none of
/// them is a layer: every record's layer is zero. A stream of the current
/// version holds thirteen, and the last of them is the record's layer.
pub proof fn lemma_layer_follows_version(data: Seq<u8>)
    ensures
        decode_entities(data) matches Ok(npcs) ==> {
            &&& data[3] == VERSION_LEGACY ==> 8 + npcs.len() * 12 <= data.len()
            &&& data[3] == VERSION_CURRENT ==> 8 + npcs.len() * 13 <= data.len()
            &&& data[3] == VERSION_LEGACY ==> forall|i: int|
                0 <= i < npcs.len() ==> #[trigger] npcs[i] == record_from(
                    data,
                    8 + i * 12,
                    VERSION_LEGACY,
                    i,
                ) && npcs[i].layer == 0
            &&& data[3] == VERSION_CURRENT ==> forall|i: int|
                0 <= i < npcs.len() ==> #[trigger] npcs[i] == record_from(
                    data,
                    8 + i * 13,
                    VERSION_CURRENT,
                    i,
                ) && npcs[i].layer == data[8 + i * 13 + 12]
            &&& data[3] == VERSION_LEGACY || data[3] == VERSION_CURRENT
        },
{
}

/// An entity stream that ends before the last byte of the last record it
/// states decodes to `TruncatedData`: no part of it comes back as records.
pub proof fn lemma_truncated_entities(data: Seq<u8>)
    requires
        data.len() >= 8,
        data.subrange(0, 3) == PXE_MAGIC@,
        pxe_version_supported(data[3]),
        data.len() < 8 + u32_le(data, 4) * record_len(data[3]),
    ensures
        decode_entities(data) == Err::<Seq<NPCData>, GameError>(GameError::TruncatedData),
{
}

/// Writing a tile map out and decoding what was written gives the map back.
pub proof fn lemma_map_round_trip(map: TileMapView)
    requires
        map_encodable(map),
    ensures
        decode_map(encode_map(map), map.attrib) == Ok::<TileMapView, GameError>(map),
{
    let bytes = encode_map(map);
    lemma_u16_bytes_read_back(map.width as int);
    lemma_u16_bytes_read_back(map.height as int);
    assert(bytes.subrange(0, 3) =~= PXM_MAGIC@);
    assert(bytes.subrange(8, 8 + (map.width * map.height) as int) =~= map.tiles);
    assert(attrib_table(map.attrib) =~= map.attrib);
}

/// Whether a run of records is one that a stream of the given version can
/// hold: identifiers in stream order from `BASE_ID`, and no layer where the
/// version has no byte for it.
pub open spec fn entities_encodable(npcs: Seq<NPCData>, version: u8) -> bool {
    &&& pxe_version_supported(version)
    &&& npcs.len() <= u32::MAX
    &&& forall|i: int| 0 <= i < npcs.len() ==> (#[trigger] npcs[i]).id == BASE_ID + i
    &&& version == VERSION_LEGACY ==> forall|i: int|
        0 <= i < npcs.len() ==> (#[trigger] npcs[i]).layer == 0
}

/// In the bytes of a run of records, the `k`-th record's bytes stand at
/// `k` record lengths from the start.
proof fn lemma_record_bytes_in_place(npcs: Seq<NPCData>, version: u8, k: int)
    requires
        0 <= k < npcs.len(),
    ensures
        (k + 1) * record_len(version) <= encode_records(npcs, version).len(),
        encode_records(npcs, version).subrange(
            k * record_len(version),
            (k + 1) * record_len(version),
        ) == encode_record(npcs[k], version),
    decreases npcs.len(),
{
    let rec = record_len(version);
    let front = encode_records(npcs.drop_last(), version);
    let all = encode_records(npcs, version);
    lemma_encode_records_len(npcs, version);
    lemma_encode_records_len(npcs.drop_last(), version);
    lemma_encode_record_len(npcs.last(), version);
    assert((k + 1) * rec == k * rec + rec) by (nonlinear_arith);
    assert((k + 1) * rec <= npcs.len() * rec) by (nonlinear_arith)
        requires
            k + 1 <= npcs.len(),
            rec >= 0,
    ;
    if k == npcs.len() - 1 {
        assert(all.subrange(k * rec, (k + 1) * rec) =~= encode_record(npcs[k], version));
    } else {
        lemma_record_bytes_in_place(npcs.drop_last(), version, k);
        assert(all.subrange(k * rec, (k + 1) * rec) =~= front.subrange(k * rec, (k + 1) * rec));
    }
}

/// Reading one written record back, at whatever place it stands, gives the
/// record.
proof fn lemma_record_read_back(data: Seq<u8>, at: int, npc: NPCData, version: u8, index: int)
    requires
        0 <= at,
        at + record_len(version) <= data.len(),
        data.subrange(at, at + record_len(version)) == encode_record(npc, version),
        npc.id == BASE_ID + index,
        version != VERSION_CURRENT ==> npc.layer == 0,
    ensures
        record_from(data, at, version, index) == npc,
{
    let bytes = encode_record(npc, version);
    let piece = data.subrange(at, at + record_len(version));
    lemma_i16_bytes_read_back(npc.x as int);
    lemma_i16_bytes_read_back(npc.y as int);
    lemma_u16_bytes_read_back(npc.flag_num as int);
    lemma_u16_bytes_read_back(npc.event_num as int);
    lemma_u16_bytes_read_back(npc.npc_type as int);
    lemma_u16_bytes_read_back(npc.flags as int);
    assert forall|k: int| 0 <= k < record_len(version) implies data[at + k] == bytes[k] by {
        assert(piece[k] == data[at + k]);
    }
    assert(bytes[0] == i16_bytes(npc.x as int)[0] && bytes[1] == i16_bytes(npc.x as int)[1]);
    assert(bytes[2] == i16_bytes(npc.y as int)[0] && bytes[3] == i16_bytes(npc.y as int)[1]);
    assert(bytes[4] == u16_bytes(npc.flag_num as int)[0] && bytes[5] == u16_bytes(
        npc.flag_num as int,
    )[1]);
    assert(bytes[6] == u16_bytes(npc.event_num as int)[0] && bytes[7] == u16_bytes(
        npc.event_num as int,
    )[1]);
    assert(bytes[8] == u16_bytes(npc.npc_type as int)[0] && bytes[9] == u16_bytes(
        npc.npc_type as int,
    )[1]);
    assert(bytes[10] == u16_bytes(npc.flags as int)[0] && bytes[11] == u16_bytes(
        npc.flags as int,
    )[1]);
    if version == VERSION_CURRENT {
        assert(bytes[12] == npc.layer);
    }
}

/// Writing a run of records out and decoding what was written gives the
/// records back.
pub proof fn lemma_entities_round_trip(npcs: Seq<NPCData>, version: u8)
    requires
        entities_encodable(npcs, version),
    ensures
        decode_entities(encode_entities(npcs, version)) == Ok::<Seq<NPCData>, GameError>(npcs),
{
    let bytes = encode_entities(npcs, version);
    let body = encode_records(npcs, version);
    let rec = record_len(version);
    lemma_u32_bytes_read_back(npcs.len() as int);
    lemma_encode_records_len(npcs, version);
    assert(bytes.subrange(0, 3) =~= PXE_MAGIC@);
    let decoded = Seq::new(npcs.len(), |i: int| record_at(bytes, version, i));
    assert forall|k: int| 0 <= k < npcs.len() implies decoded[k] == npcs[k] by {
        assert(0 <= k * rec && (k + 1) * rec == k * rec + rec) by (nonlinear_arith)
            requires
                0 <= k,
                0 <= rec,
        ;
        lemma_record_bytes_in_place(npcs, version, k);
        assert(bytes.subrange(8 + k * rec, 8 + k * rec + rec) =~= body.subrange(
            k * rec,
            (k + 1) * rec,
        ));
        lemma_record_read_back(bytes, 8 + k * rec, npcs[k], version, k);
    }
    assert(decoded =~= npcs);
}

} // verus!
