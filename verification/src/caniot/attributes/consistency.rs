use vstd::prelude::*;

use super::base::{AttrId, AttrKey, AttrMeta, Section};
use super::parsed::{lemma_table_sizes, spec_all_metas, spec_attr_meta, spec_find_by_key, spec_meta_by_key};

verus! {

/// What every description of the table keeps: it is the description of its own
/// attribute; its key is a part-0 key (a multiple of 16) of a known section, and
/// that section is the description's; it has one to eight parts; it can be read;
/// it is kept across resets exactly when it is a configuration attribute; and it
/// can be written exactly when it is a configuration attribute, the system time or
/// the boot signal.
pub open spec fn spec_entry_consistent(m: AttrMeta) -> bool {
    let key = m.id.spec_key();
    &&& spec_attr_meta(m.id) == m
    &&& key % 16 == 0
    &&& key / 4096 <= 3
    &&& m.section == Section::spec_from_u8((key / 4096) as u8)
    &&& 1 <= m.spec_parts() <= 8
    &&& m.read
    &&& m.persistent == (m.section == Section::Config)
    &&& m.write == (m.section == Section::Config || m.id == AttrId::SystemTime || m.id
        == AttrId::DiagBootSignal)
}

/// The position of attribute `id` in the table.
spec fn spec_table_index(id: AttrId) -> int {
    match id {
        AttrId::IdNodeId => 0,
        AttrId::IdVersion => 1,
        AttrId::IdName => 2,
        AttrId::IdMagicNumber => 3,
        AttrId::IdBuildDate => 4,
        AttrId::IdBuildCommit => 5,
        AttrId::IdFeatures => 6,
        AttrId::SystemUptimeSynced => 7,
        AttrId::SystemTime => 8,
        AttrId::SystemUptime => 9,
        AttrId::SystemStartTime => 10,
        AttrId::SystemLastTelemetry => 11,
        AttrId::SystemReceivedTotal => 12,
        AttrId::SystemReceivedReadAttribute => 13,
        AttrId::SystemReceivedWriteAttribute => 14,
        AttrId::SystemReceivedCommand => 15,
        AttrId::SystemReceivedRequestTelemetry => 16,
        AttrId::SystemReceivedIgnored => 17,
        AttrId::SystemLastTelemetryMsMod => 18,
        AttrId::SystemSentTotal => 19,
        AttrId::SystemSentTelemetry => 20,
        AttrId::SystemUnused4 => 21,
        AttrId::SystemLastCommandError => 22,
        AttrId::SystemLastTelemetryError => 23,
        AttrId::SystemUnused5 => 24,
        AttrId::SystemBattery => 25,
        AttrId::ConfigTelemetryPeriod => 26,
        AttrId::ConfigTelemetryDelay => 27,
        AttrId::ConfigTelemetryDelayMin => 28,
        AttrId::ConfigTelemetryDelayMax => 29,
        AttrId::ConfigFlags => 30,
        AttrId::ConfigTimezone => 31,
        AttrId::ConfigLocation => 32,
        AttrId::ConfigCls0GpioPulseDurationOc1 => 33,
        AttrId::ConfigCls0GpioPulseDurationOc2 => 34,
        AttrId::ConfigCls0GpioPulseDurationRl1 => 35,
        AttrId::ConfigCls0GpioPulseDurationRl2 => 36,
        AttrId::ConfigCls0GpioOutputsDefault => 37,
        AttrId::ConfigCls0GpioTelemetryOnChange => 38,
        AttrId::ConfigCls1GpioPulseDurationPc0 => 39,
        AttrId::ConfigCls1GpioPulseDurationPc1 => 40,
        AttrId::ConfigCls1GpioPulseDurationPc2 => 41,
        AttrId::ConfigCls1GpioPulseDurationPc3 => 42,
        AttrId::ConfigCls1GpioPulseDurationPd0 => 43,
        AttrId::ConfigCls1GpioPulseDurationPd1 => 44,
        AttrId::ConfigCls1GpioPulseDurationPd2 => 45,
        AttrId::ConfigCls1GpioPulseDurationPd3 => 46,
        AttrId::ConfigCls1GpioPulseDurationPei0 => 47,
        AttrId::ConfigCls1GpioPulseDurationPei1 => 48,
        AttrId::ConfigCls1GpioPulseDurationPei2 => 49,
        AttrId::ConfigCls1GpioPulseDurationPei3 => 50,
        AttrId::ConfigCls1GpioPulseDurationPei4 => 51,
        AttrId::ConfigCls1GpioPulseDurationPei5 => 52,
        AttrId::ConfigCls1GpioPulseDurationPei6 => 53,
        AttrId::ConfigCls1GpioPulseDurationPei7 => 54,
        AttrId::ConfigCls1GpioPulseDurationPb0 => 55,
        AttrId::ConfigCls1GpioPulseDurationPe0 => 56,
        AttrId::ConfigCls1GpioPulseDurationPe1 => 57,
        AttrId::ConfigCls1GpioPulseDurationReserved => 58,
        AttrId::ConfigCls1GpioDirections => 59,
        AttrId::ConfigCls1GpioOutputsDefault => 60,
        AttrId::ConfigCls1GpioTelemetryOnChange => 61,
        AttrId::DiagResetCount => 62,
        AttrId::DiagLastResetReason => 63,
        AttrId::DiagResetCountUnknown => 64,
        AttrId::DiagResetCountPowerOn => 65,
        AttrId::DiagResetCountWatchdog => 66,
        AttrId::DiagResetCountExternal => 67,
        AttrId::DiagLastRuntimeUptime => 68,
        AttrId::DiagLastRuntimeUptimeTotal => 69,
        AttrId::DiagLastResetStreakCount => 70,
        AttrId::DiagResetCountBrownOut => 71,
        AttrId::DiagBootSignal => 72,
    }
}

/// Every description of the table is consistent (see `spec_entry_consistent`).
pub proof fn lemma_table_consistent()
    ensures
        spec_all_metas().len() == 73,
        forall|i: int|
            0 <= i < spec_all_metas().len() ==> spec_entry_consistent(#[trigger] spec_all_metas()[i]),
{
    lemma_table_sizes();
}

/// The fields of a raw key, as arithmetic on the key.
proof fn lemma_key_fields(raw: u16)
    ensures
        (raw >> 12u16) & 0x0f == raw / 4096,
        (raw >> 4u16) & 0xff == (raw / 16) % 256,
        raw & 0x0f == raw % 16,
        raw & 0xfff0 == raw - raw % 16,
{
    assert((raw >> 12u16) & 0x0f == raw / 4096) by (bit_vector);
    assert((raw >> 4u16) & 0xff == (raw / 16) % 256) by (bit_vector);
    assert(raw & 0x0f == raw % 16) by (bit_vector);
    assert(raw & 0xfff0 == raw - raw % 16) by (bit_vector);
}

/// A consistent description contains exactly the keys from its own key up to
/// the key of its last part.
proof fn lemma_contains_key_range(m: AttrMeta, raw: u16)
    requires
        spec_entry_consistent(m),
    ensures
        m.spec_contains_key(AttrKey::spec_new(raw)) <==> (m.id.spec_key() <= raw < m.id.spec_key()
            + m.spec_parts()),
{
    lemma_key_fields(raw);
    lemma_key_fields(m.id.spec_key());
}

/// Keys grow by at least 16 from one description of the table to the next.
proof fn lemma_table_adjacent()
    ensures
        forall|i: int|
            0 <= i < 72 ==> #[trigger] spec_all_metas()[i].id.spec_key() + 16 <= spec_all_metas()[i
                + 1].id.spec_key(),
{
    lemma_table_sizes();
}

/// Attribute `id` stands at position `spec_table_index(id)` of the table.
proof fn lemma_table_index(id: AttrId)
    ensures
        0 <= spec_table_index(id) < 73,
        spec_all_metas()[spec_table_index(id)].id == id,
{
    lemma_table_sizes();
}

/// Keys grow by at least 16 along the table.
proof fn lemma_table_sorted(i: int, j: int)
    requires
        0 <= i < j < 73,
    ensures
        spec_all_metas()[i].id.spec_key() + 16 <= spec_all_metas()[j].id.spec_key(),
    decreases j - i,
{
    lemma_table_adjacent();
    assert(spec_all_metas()[j - 1].id.spec_key() + 16 <= spec_all_metas()[j].id.spec_key());
    if j > i + 1 {
        lemma_table_sorted(i, j - 1);
    }
}

/// The search finds the only description that contains the key.
proof fn lemma_find_unique(metas: Seq<AttrMeta>, key: AttrKey, j: int)
    requires
        0 <= j < metas.len(),
        metas[j].spec_contains_key(key),
        forall|i: int|
            0 <= i < metas.len() && i != j ==> !(#[trigger] metas[i]).spec_contains_key(key),
    ensures
        spec_find_by_key(metas, key) == Some(metas[j]),
    decreases metas.len(),
{
    if j > 0 {
        assert(!metas[0].spec_contains_key(key));
        let rest = metas.drop_first();
        assert forall|i: int| 0 <= i < rest.len() && i != j - 1 implies !(
        #[trigger] rest[i]).spec_contains_key(key) by {
            assert(rest[i] == metas[i + 1]);
        }
        lemma_find_unique(rest, key, j - 1);
    }
}

/// The search finds something exactly when some description contains the key,
/// and what it finds is one of the descriptions and contains the key.
proof fn lemma_find_by_key_in(metas: Seq<AttrMeta>, key: AttrKey)
    ensures
        spec_find_by_key(metas, key) is Some <==> exists|i: int|
            0 <= i < metas.len() && (#[trigger] metas[i]).spec_contains_key(key),
        spec_find_by_key(metas, key) matches Some(m) ==> exists|i: int|
            0 <= i < metas.len() && #[trigger] metas[i] == m && m.spec_contains_key(key),
    decreases metas.len(),
{
    if metas.len() > 0 {
        let rest = metas.drop_first();
        lemma_find_by_key_in(rest, key);
        if metas[0].spec_contains_key(key) {
            assert(metas[0] == metas[0]);
        } else {
            if exists|i: int| 0 <= i < metas.len() && (#[trigger] metas[i]).spec_contains_key(key) {
                let i = choose|i: int| 0 <= i < metas.len() && (#[trigger] metas[i]).spec_contains_key(key);
                assert(rest[i - 1] == metas[i]);
            }
            if spec_find_by_key(rest, key) is Some {
                let m = spec_find_by_key(rest, key)->0;
                let i = choose|i: int| 0 <= i < rest.len() && #[trigger] rest[i] == m && m.spec_contains_key(key);
                assert(metas[i + 1] == rest[i]);
                if exists|i: int| 0 <= i < rest.len() && (#[trigger] rest[i]).spec_contains_key(key) {
                    let i = choose|i: int| 0 <= i < rest.len() && (#[trigger] rest[i]).spec_contains_key(key);
                    assert(metas[i + 1] == rest[i]);
                }
            }
        }
    }
}

/// Every key from the key of a description of the table up to the key of its
/// last part finds that description.
proof fn lemma_found_in_range(j: int, raw: u16)
    requires
        0 <= j < 73,
        spec_all_metas()[j].id.spec_key() <= raw < spec_all_metas()[j].id.spec_key()
            + spec_all_metas()[j].spec_parts(),
    ensures
        spec_meta_by_key(raw) == Some(spec_all_metas()[j]),
{
    lemma_table_consistent();
    let metas = spec_all_metas();
    let key = AttrKey::spec_new(raw);
    lemma_contains_key_range(metas[j], raw);
    assert forall|i: int| 0 <= i < metas.len() && i != j implies !(
    #[trigger] metas[i]).spec_contains_key(key) by {
        lemma_contains_key_range(metas[i], raw);
        if i < j {
            lemma_table_sorted(i, j);
        } else {
            lemma_table_sorted(j, i);
        }
    }
    lemma_find_unique(metas, key, j);
}

/// Every attribute is consistent (see `spec_entry_consistent`), and the key of
/// each of its parts finds its own description; that key decomposes into the
/// part's number, and its part-0 root is the key of the attribute.
pub proof fn lemma_attr_found_by_part_key(id: AttrId, part: u8)
    requires
        part < spec_attr_meta(id).spec_parts(),
    ensures
        spec_attr_meta(id).id == id,
        spec_entry_consistent(spec_attr_meta(id)),
        spec_meta_by_key((id.spec_key() + part) as u16) == Some(spec_attr_meta(id)),
        spec_attr_meta(id).spec_contains_key(AttrKey::spec_new((id.spec_key() + part) as u16)),
        AttrKey::spec_new((id.spec_key() + part) as u16).part == part,
        ((id.spec_key() + part) as u16) & 0xfff0 == id.spec_key(),
{
    lemma_table_consistent();
    lemma_table_index(id);
    let j = spec_table_index(id);
    let m = spec_all_metas()[j];
    assert(spec_entry_consistent(m));
    let raw = (id.spec_key() + part) as u16;
    lemma_found_in_range(j, raw);
    lemma_contains_key_range(m, raw);
    lemma_key_fields(raw);
}

/// Two attributes have the same key only when they are the same attribute.
pub proof fn lemma_attr_keys_unique(id1: AttrId, id2: AttrId)
    ensures
        (id1.spec_key() == id2.spec_key()) == (id1 == id2),
{
    lemma_attr_found_by_part_key(id1, 0);
    lemma_attr_found_by_part_key(id2, 0);
}

/// The table describes every attribute, and each exactly once.
pub proof fn lemma_table_lists_each_attr_once(id: AttrId)
    ensures
        exists|i: int| 0 <= i < spec_all_metas().len() && (#[trigger] spec_all_metas()[i]).id == id,
        forall|i: int, j: int|
            0 <= i < spec_all_metas().len() && 0 <= j < spec_all_metas().len() && (
            #[trigger] spec_all_metas()[i]).id == id && (#[trigger] spec_all_metas()[j]).id == id
                ==> i == j,
{
    lemma_table_sizes();
    lemma_table_index(id);
    assert(spec_all_metas()[spec_table_index(id)].id == id);
    assert forall|i: int, j: int|
        0 <= i < spec_all_metas().len() && 0 <= j < spec_all_metas().len() && (
        #[trigger] spec_all_metas()[i]).id == id && (#[trigger] spec_all_metas()[j]).id == id implies i
        == j by {
        if i < j {
            lemma_table_sorted(i, j);
        } else if j < i {
            lemma_table_sorted(j, i);
        }
    }
}

/// A key finds a description exactly when some description of the table
/// contains it. What it finds is consistent (see `spec_entry_consistent`): it is
/// the table's description of its own attribute, it contains the key, the key's
/// part-0 root is the attribute's key, it can be read, it is kept across resets
/// exactly when it is a configuration attribute, and it can be written exactly
/// when it is a configuration attribute, the system time or the boot signal.
pub proof fn lemma_meta_by_key_consistent(key: u16)
    ensures
        spec_meta_by_key(key) is Some <==> exists|i: int|
            0 <= i < spec_all_metas().len() && (#[trigger] spec_all_metas()[i]).spec_contains_key(
                AttrKey::spec_new(key),
            ),
        spec_meta_by_key(key) matches Some(m) ==> {
            &&& spec_entry_consistent(m)
            &&& m == spec_attr_meta(m.id)
            &&& m.spec_contains_key(AttrKey::spec_new(key))
            &&& key & 0xfff0 == m.id.spec_key()
            &&& m.read
            &&& m.persistent == (m.section == Section::Config)
            &&& m.write == (m.section == Section::Config || m.id == AttrId::SystemTime || m.id
                == AttrId::DiagBootSignal)
        },
{
    lemma_table_consistent();
    let metas = spec_all_metas();
    let k = AttrKey::spec_new(key);
    lemma_find_by_key_in(metas, k);
    if spec_meta_by_key(key) is Some {
        let m = spec_meta_by_key(key)->0;
        let i = choose|i: int| 0 <= i < metas.len() && #[trigger] metas[i] == m && m.spec_contains_key(k);
        assert(spec_entry_consistent(metas[i]));
        lemma_contains_key_range(m, key);
        lemma_key_fields(key);
    }
}

} // verus!
