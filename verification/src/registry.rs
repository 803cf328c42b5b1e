//! The canvas registry: a map of fixed capacity from identifier to canvas.
//!
//! The canvases are kept in a `heapless::FnvIndexMap`. What that map does is
//! taken on trust, from its source, in the few functions below that call it;
//! the registry's own methods are proved against those statements.

use vstd::prelude::*;
use crate::canvas::{Canvas, CanvasView, Gid, LayoutError};

verus! {

/// The number of canvases that a registry can hold.
pub const MAX_CANVASES: usize = 32;

/// `heapless::IndexMap`, named so that a registry can hold one. Nothing is
/// known of what is inside it but what the functions below say.
#[verifier::external_type_specification]
#[verifier::external_body]
#[verifier::reject_recursive_types(K)]
#[verifier::reject_recursive_types(V)]
#[verifier::reject_recursive_types(S)]
pub struct ExIndexMap<K, V, S, const N: usize>(heapless::IndexMap<K, V, S, N>);

/// `hash32::BuildHasherDefault`, which the map's type names. It is never
/// used here but as a part of that type.
#[verifier::external_type_specification]
#[verifier::external_body]
#[verifier::reject_recursive_types(H)]
pub struct ExBuildHasherDefault<H>(hash32::BuildHasherDefault<H>);

/// `hash32::FnvHasher`, which the map's type names. It is never used here
/// but as a part of that type.
#[verifier::external_type_specification]
#[verifier::external_body]
pub struct ExFnvHasher(hash32::FnvHasher);

/// The map that a registry keeps its canvases in.
pub type CanvasMap = heapless::FnvIndexMap<[u32; 4], Canvas, MAX_CANVASES>;

/// What a registry holds, as a plain value: each canvas under the words of its
/// identifier.
pub type Entries = Map<Seq<u32>, CanvasView>;

/// The canvases that a map holds, each under the words of its key.
pub uninterp spec fn canvas_map_entries(m: CanvasMap) -> Entries;

/// The registry that holds nothing.
pub open spec fn no_entries() -> Entries {
    Map::empty()
}

/// Whether a registry with these entries has no room for one more.
pub open spec fn is_full(entries: Entries) -> bool {
    entries.dom().len() >= MAX_CANVASES
}

/// `heapless::IndexMap::new`: the map it makes holds nothing.
#[verifier::external_body]
fn canvas_map_new() -> (m: CanvasMap)
    ensures
        canvas_map_entries(m) == no_entries(),
{
    CanvasMap::new()
}

/// `heapless::IndexMap::len`: the number of keys in the map.
#[verifier::external_body]
fn canvas_map_len(m: &CanvasMap) -> (n: usize)
    ensures
        n == canvas_map_entries(*m).dom().len(),
{
    m.len()
}

/// `heapless::IndexMap::contains_key`: whether the map holds the key.
#[verifier::external_body]
fn canvas_map_contains_key(m: &CanvasMap, key: &[u32; 4]) -> (b: bool)
    ensures
        b == canvas_map_entries(*m).dom().contains(key@),
{
    m.contains_key(key)
}

/// `heapless::IndexMap::get`: the value under the key, if the map holds it.
#[verifier::external_body]
fn canvas_map_get<'a>(m: &'a CanvasMap, key: &[u32; 4]) -> (r: Option<&'a Canvas>)
    ensures
        r is Some <==> canvas_map_entries(*m).dom().contains(key@),
        r is Some ==> r->Some_0@ == canvas_map_entries(*m)[key@],
{
    m.get(key)
}

/// `heapless::IndexMap::insert`. Under a key that the map holds, the value
/// replaces the one that was there, which is handed back. Under a new key the
/// pair is added if the map is not full; if it is full, the map stays as it
/// was and the pair is handed back.
#[verifier::external_body]
fn canvas_map_insert(m: &mut CanvasMap, key: [u32; 4], value: Canvas) -> (r: Result<
    Option<Canvas>,
    ([u32; 4], Canvas),
>)
    ensures
        r is Err <==> !canvas_map_entries(*old(m)).dom().contains(key@) && is_full(
            canvas_map_entries(*old(m)),
        ),
        r is Err ==> canvas_map_entries(*final(m)) == canvas_map_entries(*old(m))
            && r->Err_0.0@ == key@ && r->Err_0.1@ == value@,
        r is Ok ==> canvas_map_entries(*final(m)) == canvas_map_entries(*old(m)).insert(
            key@,
            value@,
        ),
        r is Ok ==> (r->Ok_0 is Some <==> canvas_map_entries(*old(m)).dom().contains(key@)),
        r is Ok && r->Ok_0 is Some ==> r->Ok_0->Some_0@ == canvas_map_entries(*old(m))[key@],
    no_unwind
{
    m.insert(key, value)
}

/// `heapless::IndexMap::get_mut`: the value under the key, to be changed in
/// place, if the map holds the key. Nothing else in the map changes.
#[verifier::external_body]
fn canvas_map_get_mut<'a>(m: &'a mut CanvasMap, key: &[u32; 4]) -> (r: Option<&'a mut Canvas>)
    ensures
        r is Some <==> canvas_map_entries(*old(m)).dom().contains(key@),
        r is None ==> canvas_map_entries(*final(m)) == canvas_map_entries(*old(m)),
        r is Some ==> (*r->Some_0)@ == canvas_map_entries(*old(m))[key@]
            && canvas_map_entries(*final(m)) == canvas_map_entries(*old(m)).insert(
            key@,
            (*final(r->Some_0))@,
        ),
    no_unwind
{
    m.get_mut(key)
}

/// The canvases of a shell, by identifier. It holds at most `MAX_CANVASES`
/// of them, and none is ever taken out.
pub struct CanvasRegistry {
    map: CanvasMap,
}

impl View for CanvasRegistry {
    type V = Entries;

    closed spec fn view(&self) -> Entries {
        canvas_map_entries(self.map)
    }
}

impl CanvasRegistry {
    /// The identifiers in use are never more than the registry has room for.
    #[verifier::type_invariant]
    spec fn bounded(self) -> bool {
        canvas_map_entries(self.map).dom().finite() && canvas_map_entries(self.map).dom().len()
            <= MAX_CANVASES
    }

    pub fn new() -> (r: CanvasRegistry)
        ensures
            r@ == no_entries(),
    {
        CanvasRegistry { map: canvas_map_new() }
    }

    /// The number of canvases in the registry.
    pub fn len(&self) -> (n: usize)
        ensures
            self@.dom().finite(),
            n == self@.dom().len(),
            n <= MAX_CANVASES,
    {
        proof {
            use_type_invariant(self);
        }
        canvas_map_len(&self.map)
    }

    /// Whether the registry holds a canvas under `id`.
    pub fn contains(&self, id: &Gid) -> (b: bool)
        ensures
            b == self@.dom().contains(id@),
    {
        let key = id.gid();
        canvas_map_contains_key(&self.map, &key)
    }

    /// Puts `canvas` under `id`. A canvas that was there under `id` is
    /// replaced and handed back. A new identifier is refused once the registry
    /// is full, and the registry then stays as it was.
    pub fn insert(&mut self, id: Gid, canvas: Canvas) -> (r: Result<Option<Canvas>, LayoutError>)
        ensures
            r is Err <==> !old(self)@.dom().contains(id@) && is_full(old(self)@),
            r is Err ==> r == Err::<Option<Canvas>, LayoutError>(LayoutError::CapacityExceeded)
                && final(self)@ == old(self)@,
            r is Ok ==> final(self)@ == old(self)@.insert(id@, canvas@),
            r is Ok ==> (r->Ok_0 is Some <==> old(self)@.dom().contains(id@)),
            r is Ok && r->Ok_0 is Some ==> r->Ok_0->Some_0@ == old(self)@[id@],
    {
        proof {
            use_type_invariant(&*self);
        }
        match canvas_map_insert(&mut self.map, id.gid(), canvas) {
            Ok(previous) => Ok(previous),
            Err(_) => Err(LayoutError::CapacityExceeded),
        }
    }

    /// The canvas under `id`.
    pub fn get(&self, id: &Gid) -> (r: Result<&Canvas, LayoutError>)
        ensures
            r is Ok <==> self@.dom().contains(id@),
            r is Ok ==> r->Ok_0@ == self@[id@],
            r is Err ==> r == Err::<&Canvas, LayoutError>(LayoutError::NotFound),
    {
        let key = id.gid();
        match canvas_map_get(&self.map, &key) {
            Some(canvas) => Ok(canvas),
            None => Err(LayoutError::NotFound),
        }
    }

    /// The canvas under `id`, to be changed in place.
    pub fn get_mut(&mut self, id: &Gid) -> (r: Result<&mut Canvas, LayoutError>)
        ensures
            r is Ok <==> old(self)@.dom().contains(id@),
            r is Err ==> r->Err_0 == LayoutError::NotFound && final(self)@ == old(self)@,
            r is Ok ==> (*r->Ok_0)@ == old(self)@[id@] && final(self)@ == old(self)@.insert(
                id@,
                (*final(r->Ok_0))@,
            ),
    {
        proof {
            use_type_invariant(&*self);
        }
        let key = id.gid();
        match canvas_map_get_mut(&mut self.map, &key) {
            Some(canvas) => Ok(canvas),
            None => Err(LayoutError::NotFound),
        }
    }
}

} // verus!
