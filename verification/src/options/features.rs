//! The scheduler features that can be switched off.

use vstd::prelude::*;
use crate::text::{join, texts, join_strings};

verus! {

/// Scheduler features that can be switched off (`[scheduler] disable_feature`).
///
/// These are the names regor's own scheduler uses. Where Vela's CLI differs,
/// the switch that maps to each one is noted. A value is a set of features;
/// combine them with `|`.
#[derive(Debug, Clone, Copy, PartialEq, Eq, Hash)]
pub struct SchedulerFeature {
    bits: u16,
}

impl View for SchedulerFeature {
    type V = u16;

    closed spec fn view(&self) -> u16 {
        self.bits
    }
}

/// The bit of each feature, in declaration order.
pub open spec fn feature_bit(i: int) -> u16 {
    if i == 0 {
        1
    } else if i == 1 {
        2
    } else if i == 2 {
        4
    } else if i == 3 {
        8
    } else if i == 4 {
        16
    } else if i == 5 {
        32
    } else {
        64
    }
}

/// The name regor's flag parser gives each feature, in declaration order.
pub open spec fn feature_name(i: int) -> Seq<char> {
    if i == 0 {
        "WeightBuffering"@
    } else if i == 1 {
        "Cascading"@
    } else if i == 2 {
        "Grouping"@
    } else if i == 3 {
        "FWD"@
    } else if i == 4 {
        "Sparsity"@
    } else if i == 5 {
        "FMStaging"@
    } else {
        "ReuseIFM"@
    }
}

/// Whether the set `bits` holds every bit of `mask`.
pub open spec fn holds(bits: u16, mask: u16) -> bool {
    bits & mask == mask
}

/// The names of the features among the first `n` that `bits` holds, in
/// declaration order.
pub open spec fn feature_names(bits: u16, n: int) -> Seq<Seq<char>>
    decreases n,
{
    if n <= 0 {
        Seq::empty()
    } else if holds(bits, feature_bit(n - 1)) {
        feature_names(bits, n - 1).push(feature_name(n - 1))
    } else {
        feature_names(bits, n - 1)
    }
}

/// The `|`-separated list regor parses for a set of features.
pub open spec fn features_value(bits: u16) -> Seq<char> {
    join(feature_names(bits, 7), "|"@)
}

impl SchedulerFeature {
    /// Double-buffering of weights. Vela's `--disable-buffering`.
    pub fn weight_buffering() -> (f: SchedulerFeature)
        ensures
            f@ == 1,
    {
        SchedulerFeature { bits: 1 }
    }

    /// Fusing operators to keep intermediates on-chip. Vela's
    /// `--disable-cascading`.
    pub fn cascading() -> (f: SchedulerFeature)
        ensures
            f@ == 2,
    {
        SchedulerFeature { bits: 2 }
    }

    /// Operator grouping. Vela's `--disable-chaining`.
    pub fn grouping() -> (f: SchedulerFeature)
        ensures
            f@ == 4,
    {
        SchedulerFeature { bits: 4 }
    }

    /// Fast weight decoder. Vela's `--disable-fwd`.
    pub fn fwd() -> (f: SchedulerFeature)
        ensures
            f@ == 8,
    {
        SchedulerFeature { bits: 8 }
    }

    /// Exploiting weight sparsity. Not exposed by Vela's CLI.
    pub fn sparsity() -> (f: SchedulerFeature)
        ensures
            f@ == 16,
    {
        SchedulerFeature { bits: 16 }
    }

    /// Staging feature maps in the faster memory region. Not exposed by
    /// Vela's CLI.
    pub fn fm_staging() -> (f: SchedulerFeature)
        ensures
            f@ == 32,
    {
        SchedulerFeature { bits: 32 }
    }

    /// Reusing an input feature map's buffer for the output. Vela's
    /// `--disable-ifm-reuse`.
    pub fn reuse_ifm() -> (f: SchedulerFeature)
        ensures
            f@ == 64,
    {
        SchedulerFeature { bits: 64 }
    }


    /// No feature.
    pub fn empty() -> (f: SchedulerFeature)
        ensures
            f@ == 0,
    {
        SchedulerFeature { bits: 0 }
    }

    /// Every feature.
    pub fn all() -> (f: SchedulerFeature)
        ensures
            f@ == 127,
    {
        SchedulerFeature { bits: 127 }
    }

    /// The bits of the set.
    pub fn bits(&self) -> (b: u16)
        ensures
            b == self@,
    {
        self.bits
    }

    /// Whether no feature is in the set.
    pub fn is_empty(&self) -> (b: bool)
        ensures
            b == (self@ == 0),
    {
        self.bits == 0
    }

    /// Whether every feature of `other` is in the set.
    pub fn contains(&self, other: SchedulerFeature) -> (b: bool)
        ensures
            b == holds(self@, other@),
    {
        self.bits & other.bits == other.bits
    }

    /// The features of both sets.
    pub fn union(self, other: SchedulerFeature) -> (f: SchedulerFeature)
        ensures
            f@ == self@ | other@,
    {
        SchedulerFeature { bits: self.bits | other.bits }
    }

    /// Serialise to the `|`-separated list regor parses.
    ///
    /// regor's flag lexer accepts `|` (and `^`) as separators, not commas,
    /// which it rejects outright, leaving the whole option silently unapplied.
    pub fn to_regor_value(self) -> (s: String)
        ensures
            s@ == features_value(self@),
    {
        let mut names: Vec<String> = Vec::new();
        if self.contains(Self::weight_buffering()) {
            names.push(String::from_str("WeightBuffering"));
        }
        if self.contains(Self::cascading()) {
            names.push(String::from_str("Cascading"));
        }
        if self.contains(Self::grouping()) {
            names.push(String::from_str("Grouping"));
        }
        if self.contains(Self::fwd()) {
            names.push(String::from_str("FWD"));
        }
        if self.contains(Self::sparsity()) {
            names.push(String::from_str("Sparsity"));
        }
        if self.contains(Self::fm_staging()) {
            names.push(String::from_str("FMStaging"));
        }
        if self.contains(Self::reuse_ifm()) {
            names.push(String::from_str("ReuseIFM"));
        }
        proof {
            reveal_with_fuel(feature_names, 8);
            assert(texts(names@) =~= feature_names(self@, 7));
        }
        join_strings(&names, "|")
    }
}

impl core::ops::BitOr for SchedulerFeature {
    type Output = SchedulerFeature;

    fn bitor(self, other: SchedulerFeature) -> (f: SchedulerFeature)
        ensures
            f@ == self@ | other@,
    {
        SchedulerFeature { bits: self.bits | other.bits }
    }
}

impl vstd::std_specs::ops::BitOrSpecImpl for SchedulerFeature {
    open spec fn obeys_bitor_spec() -> bool {
        true
    }

    open spec fn bitor_req(self, other: SchedulerFeature) -> bool {
        true
    }

    closed spec fn bitor_spec(self, other: SchedulerFeature) -> SchedulerFeature {
        SchedulerFeature { bits: self.bits | other.bits }
    }
}

impl Default for SchedulerFeature {
    fn default() -> (f: SchedulerFeature)
        ensures
            f@ == 0,
    {
        SchedulerFeature { bits: 0 }
    }
}

/// A list joined with a separator holds a character only where one of the
/// parts or the separator does.
pub proof fn lemma_join_avoids(parts: Seq<Seq<char>>, sep: Seq<char>, c: char)
    requires
        !sep.contains(c),
        forall|i: int| 0 <= i < parts.len() ==> !(#[trigger] parts[i]).contains(c),
    ensures
        !join(parts, sep).contains(c),
    decreases parts.len(),
{
    if parts.len() == 1 {
        assert(!parts[0].contains(c));
    } else if parts.len() > 1 {
        let init = parts.drop_last();
        assert forall|i: int| 0 <= i < init.len() implies !(#[trigger] init[i]).contains(c) by {
            assert(init[i] == parts[i]);
        }
        lemma_join_avoids(init, sep, c);
        let j = join(init, sep);
        let last = parts.last();
        assert(!last.contains(c)) by {
            assert(last == parts[parts.len() - 1]);
        }
        let whole = j + sep + last;
        assert forall|k: int| 0 <= k < whole.len() implies whole[k] != c by {
            if k < j.len() {
                assert(whole[k] == j[k]);
            } else if k < j.len() + sep.len() {
                assert(whole[k] == sep[k - j.len()]);
            } else {
                assert(whole[k] == last[k - j.len() - sep.len()]);
            }
        }
    }
}

/// No feature name holds a comma.
pub proof fn lemma_feature_name_has_no_comma(i: int)
    ensures
        !feature_name(i).contains(','),
{
    reveal_strlit("WeightBuffering");
    reveal_strlit("Cascading");
    reveal_strlit("Grouping");
    reveal_strlit("FWD");
    reveal_strlit("Sparsity");
    reveal_strlit("FMStaging");
    reveal_strlit("ReuseIFM");
}

/// The names listed for a set of features are feature names.
proof fn lemma_feature_names_have_no_comma(bits: u16, n: int)
    ensures
        forall|i: int|
            0 <= i < feature_names(bits, n).len() ==> !(#[trigger] feature_names(bits, n)[i]).contains(','),
    decreases n,
{
    if n > 0 {
        lemma_feature_names_have_no_comma(bits, n - 1);
        lemma_feature_name_has_no_comma(n - 1);
        let prev = feature_names(bits, n - 1);
        let cur = feature_names(bits, n);
        assert forall|i: int| 0 <= i < cur.len() implies !(#[trigger] cur[i]).contains(',') by {
            if i < prev.len() {
                assert(cur[i] == prev[i]);
            } else {
                assert(cur[i] == feature_name(n - 1));
            }
        }
    }
}

/// The list of disabled features is separated by `|`, never by a comma,
/// which would make regor reject the whole value.
pub proof fn law_disabled_features_hold_no_comma(bits: u16)
    ensures
        !features_value(bits).contains(','),
{
    reveal_strlit("|");
    lemma_feature_names_have_no_comma(bits, 7);
    lemma_join_avoids(feature_names(bits, 7), "|"@, ',');
}

/// The bits of the named flags that `bits` holds, in declaration order.
pub open spec fn feature_bits(bits: u16, n: int) -> Seq<u16>
    decreases n,
{
    if n <= 0 {
        Seq::empty()
    } else if bits & feature_bit(n - 1) == feature_bit(n - 1) {
        feature_bits(bits, n - 1).push(feature_bit(n - 1))
    } else {
        feature_bits(bits, n - 1)
    }
}

impl SchedulerFeature {
    /// The set with exactly `bits`, or `None` where `bits` holds a bit that
    /// names no flag.
    pub fn from_bits(bits: u16) -> (r: Option<SchedulerFeature>)
        ensures
            r matches Some(f) ==> f@ == bits,
            r is Some <==> bits & 0xFF80u16 == 0,
    {
        if bits & 0xFF80u16 == 0 {
            Some(SchedulerFeature { bits })
        } else {
            None
        }
    }

    /// The set with the bits of `bits` that name flags, the others dropped.
    pub fn from_bits_truncate(bits: u16) -> (f: SchedulerFeature)
        ensures
            f@ == bits & 0x7Fu16,
    {
        SchedulerFeature { bits: bits & 0x7Fu16 }
    }

    /// Whether the two sets share a flag.
    pub fn intersects(&self, other: SchedulerFeature) -> (b: bool)
        ensures
            b == (self@ & other@ != 0),
    {
        self.bits & other.bits != 0
    }

    /// The flags in both sets.
    pub fn intersection(self, other: SchedulerFeature) -> (f: SchedulerFeature)
        ensures
            f@ == self@ & other@,
    {
        SchedulerFeature { bits: self.bits & other.bits }
    }

    /// The flags of this set that `other` does not hold.
    pub fn difference(self, other: SchedulerFeature) -> (f: SchedulerFeature)
        ensures
            f@ == self@ & !other@,
    {
        SchedulerFeature { bits: self.bits & !other.bits }
    }

    /// The named flags this set does not hold.
    pub fn complement(self) -> (f: SchedulerFeature)
        ensures
            f@ == !self@ & 0x7Fu16,
    {
        SchedulerFeature { bits: !self.bits & 0x7Fu16 }
    }

    /// Add the flags of `other`.
    pub fn insert(&mut self, other: SchedulerFeature)
        ensures
            final(self)@ == old(self)@ | other@,
    {
        self.bits = self.bits | other.bits;
    }

    /// Take out the flags of `other`.
    pub fn remove(&mut self, other: SchedulerFeature)
        ensures
            final(self)@ == old(self)@ & !other@,
    {
        self.bits = self.bits & !other.bits;
    }

    /// Flip the flags of `other`.
    pub fn toggle(&mut self, other: SchedulerFeature)
        ensures
            final(self)@ == old(self)@ ^ other@,
    {
        self.bits = self.bits ^ other.bits;
    }

    /// The flags of the set one by one, in declaration order, followed by
    /// the bits that name no flag, together, where there are any.
    pub fn iter(&self) -> (v: Vec<SchedulerFeature>)
        ensures
            v@.map_values(|f: SchedulerFeature| f@) == feature_bits(self@, 7) + if self@ & 0xFF80u16 != 0 {
                seq![self@ & 0xFF80u16]
            } else {
                Seq::<u16>::empty()
            },
    {
        let mut v = self.named_flags();
        let ghost named = v@.map_values(|f: SchedulerFeature| f@);
        let rest = self.bits & 0xFF80u16;
        if rest != 0 {
            v.push(SchedulerFeature { bits: rest });
            assert(v@.map_values(|f: SchedulerFeature| f@) =~= named.push(rest));
        } else {
            assert(named + Seq::<u16>::empty() =~= named);
        }
        assert(named + seq![rest] =~= named.push(rest));
        v
    }

    /// The named flags of the set one by one, in declaration order.
    fn named_flags(&self) -> (v: Vec<SchedulerFeature>)
        ensures
            v@.map_values(|f: SchedulerFeature| f@) == feature_bits(self@, 7),
    {
        let mut v: Vec<SchedulerFeature> = Vec::new();
        assert(v@.map_values(|f: SchedulerFeature| f@) =~= feature_bits(self@, 0));
        push_flags_from(&mut v, self.bits, 0);
        v
    }
}

/// Appends the flags from the `k`-th on that `bits` holds.
fn push_flags_from(v: &mut Vec<SchedulerFeature>, bits: u16, k: u16)
    requires
        k <= 7,
        old(v)@.map_values(|f: SchedulerFeature| f@) == feature_bits(bits, k as int),
    ensures
        final(v)@.map_values(|f: SchedulerFeature| f@) == feature_bits(bits, 7),
    decreases 7 - k,
{
    if k < 7 {
        let flag: u16 = if k == 0 {
            1
        } else if k == 1 {
            2
        } else if k == 2 {
            4
        } else if k == 3 {
            8
        } else if k == 4 {
            16
        } else if k == 5 {
            32
        } else {
            64
        };
        assert(flag == feature_bit(k as int));
        let ghost before = v@;
        if bits & flag == flag {
            v.push(SchedulerFeature { bits: flag });
            assert(v@.map_values(|f: SchedulerFeature| f@) =~= before.map_values(
                |f: SchedulerFeature| f@,
            ).push(flag));
        }
        push_flags_from(v, bits, k + 1);
    }
}

impl core::ops::BitAnd for SchedulerFeature {
    type Output = SchedulerFeature;

    fn bitand(self, other: SchedulerFeature) -> (f: SchedulerFeature)
        ensures
            f@ == self@ & other@,
    {
        SchedulerFeature { bits: self.bits & other.bits }
    }
}

impl vstd::std_specs::ops::BitAndSpecImpl for SchedulerFeature {
    open spec fn obeys_bitand_spec() -> bool {
        true
    }

    open spec fn bitand_req(self, other: SchedulerFeature) -> bool {
        true
    }

    closed spec fn bitand_spec(self, other: SchedulerFeature) -> SchedulerFeature {
        SchedulerFeature { bits: self.bits & other.bits }
    }
}

impl core::ops::Sub for SchedulerFeature {
    type Output = SchedulerFeature;

    fn sub(self, other: SchedulerFeature) -> (f: SchedulerFeature)
        ensures
            f@ == self@ & !other@,
    {
        SchedulerFeature { bits: self.bits & !other.bits }
    }
}

impl vstd::std_specs::ops::SubSpecImpl for SchedulerFeature {
    open spec fn obeys_sub_spec() -> bool {
        true
    }

    open spec fn sub_req(self, other: SchedulerFeature) -> bool {
        true
    }

    closed spec fn sub_spec(self, other: SchedulerFeature) -> SchedulerFeature {
        SchedulerFeature { bits: self.bits & !other.bits }
    }
}

impl core::ops::Not for SchedulerFeature {
    type Output = SchedulerFeature;

    fn not(self) -> (f: SchedulerFeature)
        ensures
            f@ == !self@ & 0x7Fu16,
    {
        SchedulerFeature { bits: !self.bits & 0x7Fu16 }
    }
}

impl vstd::std_specs::ops::NotSpecImpl for SchedulerFeature {
    open spec fn obeys_not_spec() -> bool {
        true
    }

    open spec fn not_req(self) -> bool {
        true
    }

    closed spec fn not_spec(self) -> SchedulerFeature {
        SchedulerFeature { bits: !self.bits & 0x7Fu16 }
    }
}

/// Distinct features have distinct names.
proof fn lemma_feature_names_distinct(i: int, j: int)
    requires
        0 <= i < 7,
        0 <= j < 7,
        i != j,
    ensures
        feature_name(i) != feature_name(j),
{
    reveal_strlit("WeightBuffering");
    reveal_strlit("Cascading");
    reveal_strlit("Grouping");
    reveal_strlit("FWD");
    reveal_strlit("Sparsity");
    reveal_strlit("FMStaging");
    reveal_strlit("ReuseIFM");
    assert(feature_name(i).len() != feature_name(j).len() || feature_name(i)[0] != feature_name(
        j,
    )[0]);
}

/// Among the first `n` features, the name of feature `i` is listed exactly
/// when `i` is one of them and the set holds its bit.
proof fn lemma_feature_listed(bits: u16, n: int, i: int)
    requires
        0 <= n <= 7,
        0 <= i < 7,
    ensures
        feature_names(bits, n).contains(feature_name(i)) <==> (i < n && bits & feature_bit(i)
            == feature_bit(i)),
    decreases n,
{
    if n > 0 {
        lemma_feature_listed(bits, n - 1, i);
        let prev = feature_names(bits, n - 1);
        let cur = feature_names(bits, n);
        if i != n - 1 {
            lemma_feature_names_distinct(i, n - 1);
        }
        if bits & feature_bit(n - 1) == feature_bit(n - 1) {
            assert(cur == prev.push(feature_name(n - 1)));
            assert(cur[prev.len() as int] == feature_name(n - 1));
            if prev.contains(feature_name(i)) {
                let k = choose|k: int| 0 <= k < prev.len() && prev[k] == feature_name(i);
                assert(cur[k] == feature_name(i));
            }
            if cur.contains(feature_name(i)) {
                let k = choose|k: int| 0 <= k < cur.len() && cur[k] == feature_name(i);
                if k < prev.len() {
                    assert(prev[k] == feature_name(i));
                }
            }
        } else {
            assert(cur == prev);
        }
    }
}

/// A feature's name is in the disabled list exactly when the set holds that
/// feature's own bit.
pub proof fn law_feature_listed_exactly_when_held(bits: u16, i: int)
    requires
        0 <= i < 7,
    ensures
        feature_names(bits, 7).contains(feature_name(i)) <==> bits & feature_bit(i) == feature_bit(
            i,
        ),
{
    lemma_feature_listed(bits, 7, i);
}

/// A feature's bit holds another feature's bit only when they are the same
/// feature.
proof fn lemma_feature_bit_holds(i: int, j: int)
    requires
        0 <= i < 7,
        0 <= j < 7,
    ensures
        (feature_bit(i) & feature_bit(j) == feature_bit(j)) <==> i == j,
{
    let x = feature_bit(i);
    let y = feature_bit(j);
    assert((x == 1 || x == 2 || x == 4 || x == 8 || x == 16 || x == 32 || x == 64) && (y == 1 || y
        == 2 || y == 4 || y == 8 || y == 16 || y == 32 || y == 64) ==> ((x & y == y) <==> x == y))
        by (bit_vector);
}

/// A set of one feature is written as that feature's name alone.
pub proof fn law_single_feature_is_its_name(i: int)
    requires
        0 <= i < 7,
    ensures
        features_value(feature_bit(i)) == feature_name(i),
{
    let b = feature_bit(i);
    lemma_feature_bit_holds(i, 0);
    lemma_feature_bit_holds(i, 1);
    lemma_feature_bit_holds(i, 2);
    lemma_feature_bit_holds(i, 3);
    lemma_feature_bit_holds(i, 4);
    lemma_feature_bit_holds(i, 5);
    lemma_feature_bit_holds(i, 6);
    reveal_with_fuel(feature_names, 8);
    assert(feature_names(b, 7) =~= seq![feature_name(i)]);
}

} // verus!
