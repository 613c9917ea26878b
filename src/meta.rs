use vstd::prelude::*;

verus! {

/// The names of the metadata fields that replay formats know of.
#[derive(Debug, Clone, Copy, PartialEq, Eq, Structural)]
pub enum MetaKey {
    /// Ticks per second, as the bit pattern of an `f64`.
    Tps,
    /// The RNG seed the replay starts with.
    Seed,
}

/// One named metadata field: its value, and the value that stands in for it
/// when a bundle lacks the field.
#[derive(Debug, Clone, Copy, PartialEq, Eq, Structural)]
pub struct MetaField {
    pub key: MetaKey,
    pub value: u64,
    pub default: Option<u64>,
}

/// `240.0_f64.to_bits()`: the rate assumed when a bundle has no `Tps` field.
pub const DEFAULT_TPS_BITS: u64 = 0x406E_0000_0000_0000;

/// The seed assumed when a bundle has no `Seed` field; the field declares
/// no default of its own, so this is the zero value of its type.
pub const DEFAULT_SEED: u64 = 0;

/// The value of the first field named `key`, if any.
pub open spec fn lookup(fields: Seq<MetaField>, key: MetaKey) -> Option<u64>
    decreases fields.len(),
{
    if fields.len() == 0 {
        None
    } else if fields[0].key == key {
        Some(fields[0].value)
    } else {
        lookup(fields.drop_first(), key)
    }
}

/// The value of field `key`, or `dflt` when the bundle lacks it.
pub open spec fn lookup_or(fields: Seq<MetaField>, key: MetaKey, dflt: u64) -> u64 {
    match lookup(fields, key) {
        Some(v) => v,
        None => dflt,
    }
}

/// Finds the first field named `key`.
pub fn find_field(fields: &Vec<MetaField>, key: MetaKey) -> (r: Option<u64>)
    ensures
        r == lookup(fields@, key),
{
    let mut i: usize = 0;
    assert(fields@.subrange(0, fields.len() as int) =~= fields@);
    while i < fields.len()
        invariant
            i <= fields.len(),
            lookup(fields@, key) == lookup(fields@.subrange(i as int, fields.len() as int), key),
        decreases fields.len() - i,
    {
        let ghost rest = fields@.subrange(i as int, fields.len() as int);
        assert(rest.drop_first() =~= fields@.subrange(i + 1, fields.len() as int));
        if fields[i].key == key {
            return Some(fields[i].value);
        }
        i = i + 1;
    }
    None
}

/// The metadata of a Silicate replay.
#[derive(Debug, Clone, Copy, PartialEq, Eq, Structural)]
pub struct SilicateMeta {
    /// Ticks per second, as the bit pattern of an `f64`.
    pub tps_bits: u64,
    pub seed: u64,
}

impl SilicateMeta {
    /// The fields of this bundle, in declaration order, with their defaults.
    pub open spec fn spec_fields(self) -> Seq<MetaField> {
        seq![
            MetaField { key: MetaKey::Tps, value: self.tps_bits, default: Some(DEFAULT_TPS_BITS) },
            MetaField { key: MetaKey::Seed, value: self.seed, default: None },
        ]
    }

    /// Lists the fields of this bundle as `(name, value, default)` triples.
    pub fn fields(&self) -> (r: Vec<MetaField>)
        ensures
            r@ == self.spec_fields(),
    {
        let r = vec![
            MetaField { key: MetaKey::Tps, value: self.tps_bits, default: Some(DEFAULT_TPS_BITS) },
            MetaField { key: MetaKey::Seed, value: self.seed, default: None },
        ];
        assert(r@ =~= self.spec_fields());
        r
    }

    /// Rebuilds a bundle from named fields of any source, applying the
    /// defaults for the fields that are missing.
    pub fn from_fields(fields: &Vec<MetaField>) -> (r: SilicateMeta)
        ensures
            r.tps_bits == lookup_or(fields@, MetaKey::Tps, DEFAULT_TPS_BITS),
            r.seed == lookup_or(fields@, MetaKey::Seed, DEFAULT_SEED),
    {
        let tps_bits = match find_field(fields, MetaKey::Tps) {
            Some(v) => v,
            None => DEFAULT_TPS_BITS,
        };
        let seed = match find_field(fields, MetaKey::Seed) {
            Some(v) => v,
            None => DEFAULT_SEED,
        };
        SilicateMeta { tps_bits, seed }
    }
}

/// Listing the fields of a bundle and rebuilding it from them gives the same
/// bundle back.
pub proof fn lemma_fields_round_trip(m: SilicateMeta)
    ensures
        lookup_or(m.spec_fields(), MetaKey::Tps, DEFAULT_TPS_BITS) == m.tps_bits,
        lookup_or(m.spec_fields(), MetaKey::Seed, DEFAULT_SEED) == m.seed,
{
    let f = m.spec_fields();
    let g = f.drop_first();
    assert(g =~= seq![f[1]]);
    assert(g[0].key == MetaKey::Seed);
    assert(lookup(g, MetaKey::Seed) == Some(m.seed));
    assert(lookup(f, MetaKey::Seed) == lookup(g, MetaKey::Seed));
}

/// A bundle without a `Tps` field resolves to a rate of 240 ticks per second.
pub proof fn lemma_missing_tps_defaults(fields: Seq<MetaField>)
    requires
        forall|i: int| 0 <= i < fields.len() ==> fields[i].key != MetaKey::Tps,
    ensures
        lookup_or(fields, MetaKey::Tps, DEFAULT_TPS_BITS) == DEFAULT_TPS_BITS,
    decreases fields.len(),
{
    if fields.len() > 0 {
        assert forall|i: int| 0 <= i < fields.drop_first().len() implies fields.drop_first()[i].key
            != MetaKey::Tps by {
            assert(fields.drop_first()[i] == fields[i + 1]);
        }
        lemma_missing_tps_defaults(fields.drop_first());
    }
}

} // verus!
