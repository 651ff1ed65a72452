//! Permission composition.
//!
//! A permission value is a 64-bit mask. One override layer is a pair of
//! independent `allow` / `deny` masks; a bit set in neither mask means
//! "inherit from the next lower-priority layer". Layers are folded from the
//! lowest priority to the highest: each layer first clears its `deny` bits
//! and then sets its `allow` bits, so within one layer `allow` wins over
//! `deny`, and a later (higher-priority) layer wins over an earlier one.

use vstd::prelude::*;

verus! {

/// One layer of permission adjustment: an allow mask and a deny mask.
#[derive(Clone, Copy, PartialEq, Eq, Structural, Debug)]
pub struct OverrideField {
    /// Bits granted by this layer.
    pub allow: u64,
    /// Bits withheld by this layer (unless also in `allow`).
    pub deny: u64,
}

impl Default for OverrideField {
    /// The neutral layer: grants nothing, withholds nothing.
    fn default() -> (r: Self)
        ensures
            r.allow == 0 && r.deny == 0,
    {
        OverrideField { allow: 0, deny: 0 }
    }
}

/// What one layer does to an effective mask: clear `deny`, then set `allow`.
pub open spec fn spec_apply_override(effective: u64, layer: OverrideField) -> u64 {
    (effective & !layer.deny) | layer.allow
}

/// The left fold of `spec_apply_override` over a layer sequence ordered from
/// the lowest priority to the highest.
pub open spec fn spec_compose(base: u64, layers: Seq<OverrideField>) -> u64
    decreases layers.len(),
{
    if layers.len() == 0 {
        base
    } else {
        spec_apply_override(spec_compose(base, layers.drop_last()), layers.last())
    }
}

/// Applies one override layer to an effective mask.
pub fn apply_override(effective: u64, layer: OverrideField) -> (r: u64)
    ensures
        r == spec_apply_override(effective, layer),
{
    (effective & !layer.deny) | layer.allow
}

/// Folds override layers over a base mask, lowest priority first.
///
/// Total over every input: the empty sequence composes to `base` itself.
pub fn compose(base: u64, layers: &Vec<OverrideField>) -> (r: u64)
    ensures
        r == spec_compose(base, layers@),
{
    let mut effective = base;
    let mut i: usize = 0;
    while i < layers.len()
        invariant
            i <= layers.len(),
            effective == spec_compose(base, layers@.take(i as int)),
        decreases layers.len() - i,
    {
        proof {
            assert(layers@.take(i + 1).drop_last() =~= layers@.take(i as int));
            assert(layers@.take(i + 1).last() == layers@[i as int]);
        }
        effective = apply_override(effective, layers[i]);
        i = i + 1;
    }
    proof {
        assert(layers@.take(layers@.len() as int) =~= layers@);
    }
    effective
}

/// One role's contribution to permission composition: the role's rank and
/// its override value. A smaller rank is the more senior role.
#[derive(Clone, Copy, PartialEq, Eq, Structural, Debug)]
pub struct RoleOverride {
    /// Role ranking; lower rank means higher precedence.
    pub rank: i64,
    /// The role's allow/deny override.
    pub permissions: OverrideField,
}

/// Inserts a layer into a rank-descending sequence, keeping it descending.
/// The new layer goes in front of the first element whose rank it reaches,
/// so among equal ranks an earlier-listed layer keeps the earlier slot.
pub open spec fn spec_insert_layer(x: RoleOverride, s: Seq<RoleOverride>) -> Seq<RoleOverride>
    decreases s.len(),
{
    if s.len() == 0 {
        seq![x]
    } else if x.rank >= s.first().rank {
        seq![x] + s
    } else {
        seq![s.first()] + spec_insert_layer(x, s.drop_first())
    }
}

/// Orders role layers by descending rank, so that a fold applies the largest
/// rank (least senior role) first and the smallest rank (most senior role)
/// last. Among equal ranks the input order is kept.
pub open spec fn spec_sort_layers(s: Seq<RoleOverride>) -> Seq<RoleOverride>
    decreases s.len(),
{
    if s.len() == 0 {
        Seq::<RoleOverride>::empty()
    } else {
        spec_insert_layer(s.first(), spec_sort_layers(s.drop_first()))
    }
}

/// The override layers of a rank-descending role sequence, in fold order.
pub open spec fn spec_layer_fields(s: Seq<RoleOverride>) -> Seq<OverrideField> {
    s.map_values(|x: RoleOverride| x.permissions)
}

/// The effective mask of a member: the server base, every role layer folded
/// in descending rank order, and the channel override, when present, last.
pub open spec fn spec_effective(
    base: u64,
    roles: Seq<RoleOverride>,
    channel: Option<OverrideField>,
) -> u64 {
    let after_roles = spec_compose(base, spec_layer_fields(spec_sort_layers(roles)));
    match channel {
        Some(c) => spec_apply_override(after_roles, c),
        None => after_roles,
    }
}

/// Rank-descending order: every earlier layer has at least the rank of
/// every later one, so a left-to-right fold applies the smallest rank
/// last.
pub open spec fn layers_sorted_desc(s: Seq<RoleOverride>) -> bool {
    forall|i: int, j: int| 0 <= i < j < s.len() ==> s[i].rank >= s[j].rank
}

/// Inserting into a rank-descending sequence keeps it descending, adds
/// exactly one slot, and draws every element from the input.
proof fn lemma_insert_layer_sorted(x: RoleOverride, s: Seq<RoleOverride>)
    requires
        layers_sorted_desc(s),
    ensures
        layers_sorted_desc(spec_insert_layer(x, s)),
        spec_insert_layer(x, s).len() == s.len() + 1,
        forall|k: int|
            0 <= k < spec_insert_layer(x, s).len() ==> (spec_insert_layer(x, s)[k] == x
                || exists|m: int| 0 <= m < s.len() && s[m] == spec_insert_layer(x, s)[k]),
    decreases s.len(),
{
    let r = spec_insert_layer(x, s);
    if s.len() == 0 {
    } else if x.rank >= s.first().rank {
        assert(r == seq![x] + s);
        assert forall|i: int, j: int| 0 <= i < j < r.len() implies r[i].rank >= r[j].rank by {
            if i == 0 {
                assert(r[0] == x);
                assert(r[j] == s[j - 1]);
                if j > 1 {
                    assert(s[0].rank >= s[j - 1].rank);
                }
            } else {
                assert(r[i] == s[i - 1]);
                assert(r[j] == s[j - 1]);
            }
        }
        assert forall|k: int| 0 <= k < r.len() implies (r[k] == x || exists|m: int|
            0 <= m < s.len() && s[m] == r[k]) by {
            if k > 0 {
                assert(s[k - 1] == r[k]);
            }
        }
    } else {
        let rest = s.drop_first();
        lemma_insert_layer_sorted(x, rest);
        let t = spec_insert_layer(x, rest);
        assert(r == seq![s.first()] + t);
        assert forall|k: int| 0 <= k < r.len() implies (r[k] == x || exists|m: int|
            0 <= m < s.len() && s[m] == r[k]) by {
            if k == 0 {
                assert(s[0] == r[0]);
            } else {
                assert(r[k] == t[k - 1]);
                if t[k - 1] == x {
                } else {
                    let m = choose|m: int| 0 <= m < rest.len() && rest[m] == t[k - 1];
                    assert(s[m + 1] == r[k]);
                }
            }
        }
        assert forall|i: int, j: int| 0 <= i < j < r.len() implies r[i].rank >= r[j].rank by {
            if i == 0 {
                assert(r[j] == t[j - 1]);
                if t[j - 1] == x {
                    assert(r[0].rank >= x.rank);
                } else {
                    let m = choose|m: int| 0 <= m < rest.len() && rest[m] == t[j - 1];
                    assert(s[0].rank >= s[m + 1].rank);
                }
            } else {
                assert(r[i] == t[i - 1]);
                assert(r[j] == t[j - 1]);
            }
        }
    }
}

/// Ordering role layers by rank yields a rank-descending sequence: the
/// fold then applies the least senior role first and the most senior role
/// (the smallest rank) last, so the smallest rank's allow and deny win
/// over every larger rank.
pub proof fn lemma_sort_layers_sorted(s: Seq<RoleOverride>)
    ensures
        layers_sorted_desc(spec_sort_layers(s)),
    decreases s.len(),
{
    if s.len() == 0 {
    } else {
        lemma_sort_layers_sorted(s.drop_first());
        lemma_insert_layer_sorted(s.first(), spec_sort_layers(s.drop_first()));
    }
}

/// `spec_insert_layer` lands the new element exactly at the first index
/// whose rank it reaches; everything else keeps its relative position.
proof fn lemma_insert_layer_at(x: RoleOverride, s: Seq<RoleOverride>, i: int)
    requires
        0 <= i <= s.len(),
        forall|j: int| 0 <= j < i ==> x.rank < s[j].rank,
        i < s.len() ==> x.rank >= s[i].rank,
    ensures
        spec_insert_layer(x, s) == s.insert(i, x),
    decreases i,
{
    if i == 0 {
        if s.len() == 0 {
            assert(spec_insert_layer(x, s) =~= s.insert(0, x));
        } else {
            assert(x.rank >= s.first().rank);
            assert(seq![x] + s =~= s.insert(0, x));
        }
    } else {
        assert(x.rank < s[0].rank);
        lemma_insert_layer_at(x, s.drop_first(), i - 1);
        assert(seq![s.first()] + s.drop_first().insert(i - 1, x) =~= s.insert(i, x));
    }
}

/// Inserts one role layer into a rank-descending vector.
fn insert_layer(x: RoleOverride, layers: Vec<RoleOverride>) -> (r: Vec<RoleOverride>)
    ensures
        r@ == spec_insert_layer(x, layers@),
{
    let mut v = layers;
    let ghost s = v@;
    let mut i: usize = 0;
    while i < v.len() && x.rank < v[i].rank
        invariant
            v@ == s,
            i <= s.len(),
            forall|j: int| 0 <= j < i ==> x.rank < s[j].rank,
        decreases s.len() - i,
    {
        i = i + 1;
    }
    proof {
        lemma_insert_layer_at(x, s, i as int);
    }
    v.insert(i, x);
    v
}

/// Orders role layers by descending rank, most senior (smallest rank) last.
pub fn sort_layers(layers: Vec<RoleOverride>) -> (r: Vec<RoleOverride>)
    ensures
        r@ == spec_sort_layers(layers@),
{
    let ghost orig = layers@;
    let mut work = layers;
    let mut acc: Vec<RoleOverride> = Vec::new();
    proof {
        assert(orig.skip(orig.len() as int) =~= Seq::<RoleOverride>::empty());
    }
    while work.len() > 0
        invariant
            work@.len() <= orig.len(),
            work@ == orig.take(work@.len() as int),
            acc@ == spec_sort_layers(orig.skip(work@.len() as int)),
        decreases work.len(),
    {
        let ghost k = work@.len() as int;
        let x = match work.pop() {
            Some(x) => x,
            None => {
                proof {
                    assert(false);
                }
                RoleOverride { rank: 0, permissions: OverrideField { allow: 0, deny: 0 } }
            },
        };
        proof {
            assert(x == orig[k - 1]);
            assert(work@ =~= orig.take(k - 1));
            assert(orig.skip(k - 1).first() == orig[k - 1]);
            assert(orig.skip(k - 1).drop_first() =~= orig.skip(k));
        }
        acc = insert_layer(x, acc);
    }
    proof {
        assert(orig.skip(0) =~= orig);
    }
    acc
}

/// Composes a member's effective permission mask: the server base, then the
/// role layers in descending rank order (so the smallest rank, the most
/// senior role, is applied last), then the channel override, when present,
/// last of all, so that it wins over every role layer.
pub fn effective_permissions(
    base: u64,
    roles: Vec<RoleOverride>,
    channel: Option<OverrideField>,
) -> (r: u64)
    ensures
        r == spec_effective(base, roles@, channel),
{
    let sorted = sort_layers(roles);
    let mut fields: Vec<OverrideField> = Vec::new();
    let mut i: usize = 0;
    while i < sorted.len()
        invariant
            i <= sorted@.len(),
            fields@ == spec_layer_fields(sorted@.take(i as int)),
        decreases sorted.len() - i,
    {
        proof {
            assert(spec_layer_fields(sorted@.take(i + 1)) =~= spec_layer_fields(
                sorted@.take(i as int),
            ).push(sorted@[i as int].permissions));
        }
        let layer = sorted[i];
        fields.push(layer.permissions);
        i = i + 1;
    }
    proof {
        assert(sorted@.take(sorted@.len() as int) =~= sorted@);
    }
    let after_roles = compose(base, &fields);
    match channel {
        Some(c) => apply_override(after_roles, c),
        None => after_roles,
    }
}

/// The channel-scoped override always wins: whatever the role layers and
/// their ranks, every bit the channel layer allows is set in the effective
/// mask and every bit it denies (without also allowing) is clear.
pub proof fn lemma_channel_override_wins(
    base: u64,
    roles: Seq<RoleOverride>,
    channel: OverrideField,
)
    ensures
        spec_effective(base, roles, Some(channel)) & channel.allow == channel.allow,
        spec_effective(base, roles, Some(channel)) & channel.deny & !channel.allow == 0,
{
    let x = spec_compose(base, spec_layer_fields(spec_sort_layers(roles)));
    let a = channel.allow;
    let d = channel.deny;
    assert(((x & !d) | a) & a == a) by (bit_vector);
    assert(((x & !d) | a) & d & !a == 0) by (bit_vector);
}

/// Composing no layers leaves the base untouched.
pub proof fn lemma_compose_empty(base: u64)
    ensures
        spec_compose(base, Seq::<OverrideField>::empty()) == base,
{
}

/// A single layer that only allows `m` turns the base into `base | m`.
pub proof fn lemma_compose_single_allow(base: u64, m: u64)
    ensures
        spec_compose(base, seq![OverrideField { allow: m, deny: 0 }]) == base | m,
{
    let layers = seq![OverrideField { allow: m, deny: 0 }];
    assert(layers.drop_last() =~= Seq::<OverrideField>::empty());
    assert(layers.last() == OverrideField { allow: m, deny: 0 });
    lemma_compose_empty(base);
    assert(spec_compose(base, layers.drop_last()) == base);
    assert(spec_compose(base, layers) == (base & !0u64) | m);
    assert((base & !0u64) | m == base | m) by (bit_vector);
}

/// A single layer that only denies `m` turns the base into `base & !m`.
pub proof fn lemma_compose_single_deny(base: u64, m: u64)
    ensures
        spec_compose(base, seq![OverrideField { allow: 0, deny: m }]) == base & !m,
{
    let layers = seq![OverrideField { allow: 0, deny: m }];
    assert(layers.drop_last() =~= Seq::<OverrideField>::empty());
    assert(layers.last() == OverrideField { allow: 0, deny: m });
    lemma_compose_empty(base);
    assert(spec_compose(base, layers.drop_last()) == base);
    assert(spec_compose(base, layers) == (base & !m) | 0u64);
    assert((base & !m) | 0u64 == base & !m) by (bit_vector);
}

} // verus!
