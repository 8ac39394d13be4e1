//! Types shared by the renderers: shader descriptions, image row layouts and
//! a map from keys to sets of values.
use crate::align::{align_up, div_ceil, lemma_groups_cover_len, lemma_padding_reaches_align_up};
use std::collections::{HashMap, HashSet};
use std::hash::Hash;
use vstd::prelude::*;
use vstd::std_specs::hash::obeys_key_model;

verus! {

broadcast use vstd::std_specs::hash::group_hash_axioms;

/// Bytes in one RGBA8 pixel.
pub const BYTES_PER_PIXEL: u32 = 4;

/// The number of work groups of `subgroup_size` invocations that a dispatch
/// over `len` invocations needs.
pub fn dispatch_optimal_size(len: u32, subgroup_size: u32) -> (groups: u32)
    requires
        subgroup_size > 0,
        align_up(len as int, subgroup_size as int) <= u32::MAX,
    ensures
        groups == div_ceil(len as int, subgroup_size as int),
{
    proof {
        lemma_padding_reaches_align_up(len as int, subgroup_size as int);
        lemma_groups_cover_len(len as int, subgroup_size as int);
    }
    let padded_size = (subgroup_size - len % subgroup_size) % subgroup_size;
    (len + padded_size) / subgroup_size
}

/// Compiled shader words, either a vertex and fragment pair or one compute
/// shader.
pub enum ShaderData {
    Render { vert: Vec<u32>, frag: Vec<u32> },
    Compute(Vec<u32>),
}

/// The source language of a shader.
#[derive(Hash, Debug, Clone, Copy)]
pub enum ShaderFlavour {
    Glsl,
    Wgsl,
}

/// The source language of a shader, SPIR-V included.
#[derive(Hash, Debug, Clone)]
pub enum ShaderType {
    Glsl,
    Wgsl,
    Spir,
}

/// The pipeline stage a shader runs in.
#[derive(Hash, Debug, Clone)]
pub enum ShaderStage {
    Vertex,
    Fragment,
    Compute,
}

/// The row layout of an RGBA8 image whose rows are padded to an alignment.
#[derive(Debug, Clone, Copy)]
pub struct ImageDimentions {
    pub width: u32,
    pub height: u32,
    pub unpadded_bytes_per_row: u32,
    pub padded_bytes_per_row: u32,
}

impl ImageDimentions {
    /// Lays out rows of `width` RGBA8 pixels, each row padded to a multiple of
    /// `align` bytes.
    pub fn new(width: u32, height: u32, align: u32) -> (dims: Self)
        requires
            align > 0,
            width * BYTES_PER_PIXEL <= u32::MAX,
            align_up(width * BYTES_PER_PIXEL, align as int) <= u32::MAX,
        ensures
            dims.width == width,
            dims.height == height,
            dims.unpadded_bytes_per_row == width * BYTES_PER_PIXEL,
            dims.padded_bytes_per_row == align_up(width * BYTES_PER_PIXEL, align as int),
    {
        let bytes_per_pixel = BYTES_PER_PIXEL;
        let unpadded_bytes_per_row = width * bytes_per_pixel;
        proof {
            lemma_padding_reaches_align_up(unpadded_bytes_per_row as int, align as int);
        }
        let row_padding = (align - unpadded_bytes_per_row % align) % align;
        let padded_bytes_per_row = unpadded_bytes_per_row + row_padding;
        Self { width, height, unpadded_bytes_per_row, padded_bytes_per_row }
    }

    /// The number of bytes that the padded rows of the image take.
    pub fn linear_size(&self) -> (size: u64)
        ensures
            size == self.padded_bytes_per_row * self.height,
    {
        assert(self.padded_bytes_per_row * self.height <= u32::MAX * u32::MAX) by (nonlinear_arith)
            requires
                self.padded_bytes_per_row <= u32::MAX,
                self.height <= u32::MAX,
        ;
        self.padded_bytes_per_row as u64 * self.height as u64
    }
}

/// A hash map that holds, for each key, a set of unique values.
#[derive(Debug)]
pub struct ContiniousHashMap<K, V>(HashMap<K, HashSet<V>>);

impl<K, V> std::ops::Deref for ContiniousHashMap<K, V> {
    type Target = HashMap<K, HashSet<V>>;

    fn deref(&self) -> (map: &Self::Target)
        ensures
            *map == self.table(),
    {
        &self.0
    }
}

impl<K, V> std::ops::DerefMut for ContiniousHashMap<K, V> {
    fn deref_mut(&mut self) -> (map: &mut Self::Target)
        ensures
            *map == old(self).table(),
            final(self).table() == *final(map),
    {
        &mut self.0
    }
}

impl<K, V> View for ContiniousHashMap<K, V> {
    type V = Map<K, Set<V>>;

    /// The values held under each key.
    open spec fn view(&self) -> Map<K, Set<V>> {
        Map::new(|k: K| self.table()@.contains_key(k), |k: K| self.table()@[k]@)
    }
}

impl<K, V> ContiniousHashMap<K, V> {
    /// The underlying table from keys to sets of values.
    pub closed spec fn table(&self) -> HashMap<K, HashSet<V>> {
        self.0
    }

    /// Creates an empty map.
    pub fn new() -> (map: Self)
        ensures
            map@ == Map::<K, Set<V>>::empty(),
    {
        let map = Self(HashMap::new());
        assert(map@ =~= Map::<K, Set<V>>::empty());
        map
    }
}

/// The values held under `key` in `m`, the empty set where there are none.
pub open spec fn values_at<K, V>(m: Map<K, Set<V>>, key: K) -> Set<V> {
    if m.contains_key(key) {
        m[key]
    } else {
        Set::empty()
    }
}

/// `m` after `value` is added to the set held under `key`.
pub open spec fn pushed<K, V>(m: Map<K, Set<V>>, key: K, value: V) -> Map<K, Set<V>> {
    m.insert(key, values_at(m, key).insert(value))
}

impl<K: Eq + Hash, V: Eq + Hash> ContiniousHashMap<K, V> {
    /// Adds `value` to the set held under `key`, creating the set where the
    /// key is new; the values already held under the key stay.
    pub fn push_value(&mut self, key: K, value: V)
        ensures
            obeys_key_model::<K>() && obeys_key_model::<V>() ==> final(self)@ == pushed(old(self)@, key, value),
    {
        let ghost old_view = self@;
        let mut set = match self.0.remove(&key) {
            Some(set) => set,
            None => HashSet::new(),
        };
        set.insert(value);
        self.0.insert(key, set);
        proof {
            if obeys_key_model::<K>() && obeys_key_model::<V>() {
                assert(self@ =~= pushed(old_view, key, value));
            }
        }
    }
}

/// Pushing a value keeps every value held before, under every key, and the
/// pushed value is then held under its key.
pub proof fn lemma_push_keeps_values<K, V>(before: Map<K, Set<V>>, after: Map<K, Set<V>>, key: K, value: V)
    requires
        after == pushed(before, key, value),
    ensures
        values_at(after, key).contains(value),
        forall|k: K, v: V| values_at(before, k).contains(v) ==> #[trigger] values_at(after, k).contains(v),
        forall|k: K| k != key ==> #[trigger] values_at(after, k) == values_at(before, k),
{
}

/// Values are held once per key: pushing a value a second time leaves the
/// map as the first push left it.
pub proof fn lemma_push_twice<K, V>(m: Map<K, Set<V>>, key: K, value: V)
    ensures
        pushed(pushed(m, key, value), key, value) == pushed(m, key, value),
{
    let once = pushed(m, key, value);
    assert(values_at(once, key) == values_at(m, key).insert(value));
    assert(values_at(once, key).insert(value) =~= values_at(once, key));
    assert(pushed(once, key, value) =~= once);
}

/// The order of pushes does not matter: pushing two values in either order
/// leaves the same map.
pub proof fn lemma_push_commutes<K, V>(m: Map<K, Set<V>>, k1: K, v1: V, k2: K, v2: V)
    ensures
        pushed(pushed(m, k1, v1), k2, v2) == pushed(pushed(m, k2, v2), k1, v1),
{
    let a = pushed(pushed(m, k1, v1), k2, v2);
    let b = pushed(pushed(m, k2, v2), k1, v1);
    assert forall|k: K| #[trigger] a.contains_key(k) implies b.contains_key(k) && a[k] =~= b[k] by {
    }
    assert(a =~= b);
}

} // verus!
