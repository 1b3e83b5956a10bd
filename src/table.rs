//! The one-to-one association between image identities and configuration identities.
use vstd::prelude::*;

verus! {

#[verifier::external_type_specification]
#[verifier::external_body]
#[verifier::reject_recursive_types(L)]
#[verifier::reject_recursive_types(R)]
#[verifier::reject_recursive_types(LS)]
#[verifier::reject_recursive_types(RS)]
pub struct ExBiHashMap<L, R, LS, RS>(bimap::BiHashMap<L, R, LS, RS>);

/// What a bimap of image and configuration identities holds, as a map from left to right.
pub uninterp spec fn pairs_of(m: bimap::BiHashMap<u64, u64>) -> Map<u64, u64>;

/// A table with no pairs.
pub open spec fn no_pairs() -> Map<u64, u64> {
    Map::empty()
}

/// No two images share a configuration.
pub open spec fn is_one_to_one(m: Map<u64, u64>) -> bool {
    forall|a: u64, b: u64|
        #![trigger m[a], m[b]]
        m.contains_key(a) && m.contains_key(b) && m[a] == m[b] ==> a == b
}

/// Some image is associated with `config`.
pub open spec fn has_config(m: Map<u64, u64>, config: u64) -> bool {
    exists|image: u64| m.contains_key(image) && m[image] == config
}

/// `m` without the pair whose configuration is `config`.
pub open spec fn without_config(m: Map<u64, u64>, config: u64) -> Map<u64, u64> {
    Map::new(|image: u64| m.contains_key(image) && m[image] != config, |image: u64| m[image])
}

/// `m` after linking `image` with `config`: any pair that shares either side is dropped first.
pub open spec fn linked(m: Map<u64, u64>, image: u64, config: u64) -> Map<u64, u64> {
    without_config(m.remove(image), config).insert(image, config)
}

/// The configuration associated with `image`, if any.
pub open spec fn config_of(m: Map<u64, u64>, image: u64) -> Option<u64> {
    if m.contains_key(image) {
        Some(m[image])
    } else {
        None
    }
}

/// The image associated with `config`, if any.
pub open spec fn image_of(m: Map<u64, u64>, config: u64) -> Option<u64> {
    if has_config(m, config) {
        Some(choose|image: u64| m.contains_key(image) && m[image] == config)
    } else {
        None
    }
}

/// Relies on bimap::BiHashMap::new: a new bimap holds no pairs.
#[verifier::external_body]
fn bimap_new() -> (r: bimap::BiHashMap<u64, u64>)
    ensures
        pairs_of(r) == no_pairs(),
{
    bimap::BiHashMap::new()
}

/// Relies on bimap::BiHashMap::insert: both pairs that share a side with the new one are
/// removed, then the new pair is added.
#[verifier::external_body]
fn bimap_insert(m: &mut bimap::BiHashMap<u64, u64>, left: u64, right: u64)
    ensures
        pairs_of(*final(m)) == linked(pairs_of(*old(m)), left, right),
{
    m.insert(left, right);
}

/// Relies on bimap::BiHashMap::get_by_left: the right value paired with `left`.
#[verifier::external_body]
fn bimap_get_by_left(m: &bimap::BiHashMap<u64, u64>, left: u64) -> (r: Option<u64>)
    ensures
        r == config_of(pairs_of(*m), left),
{
    m.get_by_left(&left).copied()
}

/// Relies on bimap::BiHashMap::get_by_right: the left value paired with `right`.
#[verifier::external_body]
fn bimap_get_by_right(m: &bimap::BiHashMap<u64, u64>, right: u64) -> (r: Option<u64>)
    ensures
        r matches Some(left) ==> pairs_of(*m).contains_key(left) && pairs_of(*m)[left] == right,
        r is None ==> !has_config(pairs_of(*m), right),
{
    m.get_by_right(&right).copied()
}

/// Relies on bimap::BiHashMap::remove_by_left: the pair whose left value is `left` goes.
#[verifier::external_body]
fn bimap_remove_by_left(m: &mut bimap::BiHashMap<u64, u64>, left: u64)
    ensures
        pairs_of(*final(m)) == pairs_of(*old(m)).remove(left),
{
    m.remove_by_left(&left);
}

/// Relies on bimap::BiHashMap::remove_by_right: the pair whose right value is `right` goes.
#[verifier::external_body]
fn bimap_remove_by_right(m: &mut bimap::BiHashMap<u64, u64>, right: u64)
    ensures
        pairs_of(*final(m)) == without_config(pairs_of(*old(m)), right),
{
    m.remove_by_right(&right);
}

/// Linking an image with a configuration makes each the other's partner, and dropping the
/// pair by either side leaves neither of them linked.
pub proof fn lemma_link_round_trip(m: Map<u64, u64>, image: u64, config: u64)
    requires
        is_one_to_one(m),
    ensures
        config_of(linked(m, image, config), image) == Some(config),
        image_of(linked(m, image, config), config) == Some(image),
        config_of(linked(m, image, config).remove(image), image) is None,
        image_of(linked(m, image, config).remove(image), config) is None,
        config_of(without_config(linked(m, image, config), config), image) is None,
        image_of(without_config(linked(m, image, config), config), config) is None,
{
    let l = linked(m, image, config);
    assert(l.contains_key(image) && l[image] == config);
    let c = choose|i: u64| l.contains_key(i) && l[i] == config;
    assert(c == image);
    let r = l.remove(image);
    if has_config(r, config) {
        let w = choose|i: u64| r.contains_key(i) && r[i] == config;
        assert(l.contains_key(w) && l[w] == config);
    }
}

/// Linking an image with a new configuration leaves its former configuration linked with
/// no image.
pub proof fn lemma_relink_drops_former(m: Map<u64, u64>, image: u64, former: u64, config: u64)
    requires
        is_one_to_one(m),
        config_of(m, image) == Some(former),
        former != config,
    ensures
        image_of(linked(m, image, config), former) is None,
        config_of(linked(m, image, config), image) == Some(config),
{
    let l = linked(m, image, config);
    if has_config(l, former) {
        let w = choose|i: u64| l.contains_key(i) && l[i] == former;
        assert(m.contains_key(w) && m[w] == m[image]);
    }
}

/// Image identities linked one to one with configuration identities.
pub struct AssociationTable {
    pairs: bimap::BiHashMap<u64, u64>,
}

impl View for AssociationTable {
    type V = Map<u64, u64>;

    closed spec fn view(&self) -> Map<u64, u64> {
        pairs_of(self.pairs)
    }
}

proof fn lemma_linked_one_to_one(m: Map<u64, u64>, image: u64, config: u64)
    requires
        is_one_to_one(m),
    ensures
        is_one_to_one(linked(m, image, config)),
{
}

proof fn lemma_without_config_one_to_one(m: Map<u64, u64>, config: u64)
    requires
        is_one_to_one(m),
    ensures
        is_one_to_one(without_config(m, config)),
{
}

impl AssociationTable {
    /// Each side of the table appears in at most one pair.
    pub open spec fn wf(&self) -> bool {
        is_one_to_one(self@)
    }

    /// An empty table.
    pub fn new() -> (r: AssociationTable)
        ensures
            r@ == no_pairs(),
            r.wf(),
    {
        AssociationTable { pairs: bimap_new() }
    }

    /// Links `image` with `config`, dropping any earlier pair of either of them.
    pub fn insert(&mut self, image: u64, config: u64)
        requires
            old(self).wf(),
        ensures
            final(self).wf(),
            final(self)@ == linked(old(self)@, image, config),
    {
        bimap_insert(&mut self.pairs, image, config);
        proof {
            lemma_linked_one_to_one(old(self)@, image, config);
        }
    }

    /// The configuration linked with `image`.
    pub fn config_for_image(&self, image: u64) -> (r: Option<u64>)
        ensures
            r == config_of(self@, image),
    {
        bimap_get_by_left(&self.pairs, image)
    }

    /// The image linked with `config`.
    pub fn image_for_config(&self, config: u64) -> (r: Option<u64>)
        requires
            self.wf(),
        ensures
            r == image_of(self@, config),
    {
        let r = bimap_get_by_right(&self.pairs, config);
        proof {
            if let Some(image) = r {
                let m = self@;
                assert(has_config(m, config));
                let c = choose|i: u64| m.contains_key(i) && m[i] == config;
                assert(m[c] == m[image]);
            }
        }
        r
    }

    /// Drops the pair of `image`, if there is one.
    pub fn remove_by_image(&mut self, image: u64)
        requires
            old(self).wf(),
        ensures
            final(self).wf(),
            final(self)@ == old(self)@.remove(image),
    {
        bimap_remove_by_left(&mut self.pairs, image);
    }

    /// Drops the pair of `config`, if there is one.
    pub fn remove_by_config(&mut self, config: u64)
        requires
            old(self).wf(),
        ensures
            final(self).wf(),
            final(self)@ == without_config(old(self)@, config),
    {
        bimap_remove_by_right(&mut self.pairs, config);
        proof {
            lemma_without_config_one_to_one(old(self)@, config);
        }
    }
}

} // verus!
