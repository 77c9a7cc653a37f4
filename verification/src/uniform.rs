//! Typed shader inputs and the per-pass input registry.
//!
//! A shader declares its configurable inputs in its source text; each one
//! becomes a [`UniformInfo`] held in a [`UniformRegistry`] keyed by the
//! declared name (the name bytes of the source text).  The registry is the
//! single store that the control panel edits and the draw path reads.
//!
//! Scalar and vector input values are stored as raw IEEE 754 single-precision
//! bit patterns; the GPU layer reinterprets the bits when it uploads them.
//! This keeps the value model exact: preserving a value across a reload means
//! preserving its bits.

use vstd::prelude::*;
use vstd::slice::slice_to_vec;

verus! {

/// Bit pattern of single-precision one, the default for scalar inputs and
/// for every component of a four-component vector input.
pub const ONE_BITS: u32 = 0x3F80_0000;

/// Bit pattern of single-precision one half, the default for every component
/// of a two- or three-component vector input.
pub const HALF_BITS: u32 = 0x3F00_0000;

/// The declared type of a shader input.
#[derive(Clone, Copy, Debug, PartialEq, Eq, Structural)]
pub enum UniformType {
    Float,
    Vec2,
    Vec3,
    Vec4,
    Sampler2D,
}

/// A texture bound to a sampler input: where it came from, the GPU object
/// standing for it (if one was created), and its pixel size.
#[derive(Clone, Debug, PartialEq, Eq)]
pub struct TextureHandle {
    /// The path the texture was loaded from, as raw bytes.
    pub path: Vec<u8>,
    /// The GPU texture object, by the identifier the resource ledger gave it;
    /// `None` while no texture is loaded.
    pub texture_id: Option<u64>,
    pub width: u32,
    pub height: u32,
}

/// Mathematical value of a [`TextureHandle`].
pub ghost struct TextureHandleV {
    pub path: Seq<u8>,
    pub texture_id: Option<u64>,
    pub width: u32,
    pub height: u32,
}

impl View for TextureHandle {
    type V = TextureHandleV;

    open spec fn view(&self) -> TextureHandleV {
        TextureHandleV {
            path: self.path@,
            texture_id: self.texture_id,
            width: self.width,
            height: self.height,
        }
    }
}

/// The current value of a shader input.  The variant always matches the
/// declared [`UniformType`]; see [`value_matches_type`].
#[derive(Clone, Debug, PartialEq)]
pub enum UniformValue {
    Float(u32),
    Vec2(u32, u32),
    Vec3(u32, u32, u32),
    Vec4(u32, u32, u32, u32),
    Sampler2D(Option<TextureHandle>),
}

/// Mathematical value of a [`UniformValue`].
pub ghost enum UniformValueV {
    Float(u32),
    Vec2(u32, u32),
    Vec3(u32, u32, u32),
    Vec4(u32, u32, u32, u32),
    Sampler2D(Option<TextureHandleV>),
}

impl View for UniformValue {
    type V = UniformValueV;

    open spec fn view(&self) -> UniformValueV {
        match self {
            UniformValue::Float(a) => UniformValueV::Float(*a),
            UniformValue::Vec2(a, b) => UniformValueV::Vec2(*a, *b),
            UniformValue::Vec3(a, b, c) => UniformValueV::Vec3(*a, *b, *c),
            UniformValue::Vec4(a, b, c, d) => UniformValueV::Vec4(*a, *b, *c, *d),
            UniformValue::Sampler2D(t) => UniformValueV::Sampler2D(match t {
                Some(h) => Some(h@),
                None => None,
            }),
        }
    }
}

/// A declared input: its type and its current value.
#[derive(Clone, Debug, PartialEq)]
pub struct UniformInfo {
    pub uniform_type: UniformType,
    pub value: UniformValue,
}

/// Mathematical value of a [`UniformInfo`].
pub ghost struct UniformInfoV {
    pub uniform_type: UniformType,
    pub value: UniformValueV,
}

impl View for UniformInfo {
    type V = UniformInfoV;

    open spec fn view(&self) -> UniformInfoV {
        UniformInfoV { uniform_type: self.uniform_type, value: self.value@ }
    }
}

/// Does a value's variant agree with the declared type?
pub open spec fn value_matches_type(v: UniformValueV, t: UniformType) -> bool {
    match t {
        UniformType::Float => v is Float,
        UniformType::Vec2 => v is Vec2,
        UniformType::Vec3 => v is Vec3,
        UniformType::Vec4 => v is Vec4,
        UniformType::Sampler2D => v is Sampler2D,
    }
}

/// A well-formed info holds a value of its own declared type.
pub open spec fn info_wf(info: UniformInfoV) -> bool {
    value_matches_type(info.value, info.uniform_type)
}

/// The default value for each declared type: one for scalars, one half per
/// component for two- and three-component vectors, one per component for
/// four-component vectors, and an unbound sampler.
pub open spec fn spec_default_value(t: UniformType) -> UniformValueV {
    match t {
        UniformType::Float => UniformValueV::Float(ONE_BITS),
        UniformType::Vec2 => UniformValueV::Vec2(HALF_BITS, HALF_BITS),
        UniformType::Vec3 => UniformValueV::Vec3(HALF_BITS, HALF_BITS, HALF_BITS),
        UniformType::Vec4 => UniformValueV::Vec4(ONE_BITS, ONE_BITS, ONE_BITS, ONE_BITS),
        UniformType::Sampler2D => UniformValueV::Sampler2D(None),
    }
}

/// A freshly detected input of type `t`, carrying the default value.
pub open spec fn spec_default_info(t: UniformType) -> UniformInfoV {
    UniformInfoV { uniform_type: t, value: spec_default_value(t) }
}

impl UniformValue {
    /// The fixed default value for a declared type.
    pub fn default_for_type(uniform_type: &UniformType) -> (r: Self)
        ensures
            r@ == spec_default_value(*uniform_type),
    {
        match uniform_type {
            UniformType::Float => UniformValue::Float(ONE_BITS),
            UniformType::Vec2 => UniformValue::Vec2(HALF_BITS, HALF_BITS),
            UniformType::Vec3 => UniformValue::Vec3(HALF_BITS, HALF_BITS, HALF_BITS),
            UniformType::Vec4 => UniformValue::Vec4(ONE_BITS, ONE_BITS, ONE_BITS, ONE_BITS),
            UniformType::Sampler2D => UniformValue::Sampler2D(None),
        }
    }
}

/// One named entry of a registry.
#[derive(Clone, Debug, PartialEq)]
pub struct UniformEntry {
    pub name: Vec<u8>,
    pub info: UniformInfo,
}

/// Mathematical value of a [`UniformEntry`].
pub ghost struct UniformEntryV {
    pub name: Seq<u8>,
    pub info: UniformInfoV,
}

impl View for UniformEntry {
    type V = UniformEntryV;

    open spec fn view(&self) -> UniformEntryV {
        UniformEntryV { name: self.name@, info: self.info@ }
    }
}

/// The mapping an entry sequence denotes: entries are folded left to right,
/// so of two entries with one name the later one wins.
pub open spec fn entries_map(s: Seq<UniformEntryV>) -> Map<Seq<u8>, UniformInfoV>
    decreases s.len(),
{
    if s.len() == 0 {
        Map::empty()
    } else {
        entries_map(s.drop_last()).insert(s.last().name, s.last().info)
    }
}

/// The inputs of one render pass, keyed by declared name.
///
/// Kept as an entry list with pairwise distinct names; [`Self::as_map`] is
/// the abstract mapping that all contracts speak of.  The registry carries
/// no order of meaning: a consumer that wants a stable display order sorts
/// the names at read time.
#[derive(Clone, Debug, PartialEq)]
pub struct UniformRegistry {
    entries: Vec<UniformEntry>,
}

impl View for UniformRegistry {
    type V = Seq<UniformEntryV>;

    closed spec fn view(&self) -> Seq<UniformEntryV> {
        Seq::new(self.entries@.len(), |i: int| self.entries@[i]@)
    }
}

impl UniformRegistry {
    /// The mapping from declared name to input.
    pub open spec fn as_map(self) -> Map<Seq<u8>, UniformInfoV> {
        entries_map(self@)
    }

    /// Names are pairwise distinct and every value matches its declared type.
    pub open spec fn wf(self) -> bool {
        &&& forall|i: int, j: int| 0 <= i < j < self@.len() ==> self@[i].name != self@[j].name
        &&& forall|i: int| 0 <= i < self@.len() ==> info_wf(#[trigger] self@[i].info)
    }

    pub fn new() -> (r: Self)
        ensures
            r.wf(),
            r.as_map() == Map::<Seq<u8>, UniformInfoV>::empty(),
            r@.len() == 0,
    {
        UniformRegistry { entries: Vec::new() }
    }

    pub fn len(&self) -> (n: usize)
        ensures
            n == self@.len(),
    {
        self.entries.len()
    }

    /// The entry at a position, for consumers that walk the registry.
    pub fn entry_at(&self, i: usize) -> (e: &UniformEntry)
        requires
            i < self@.len(),
        ensures
            e@ == self@[i as int],
    {
        &self.entries[i]
    }

    /// Append an entry, leaving well-formedness to the caller.
    fn push_entry(&mut self, entry: UniformEntry)
        ensures
            final(self)@ == old(self)@.push(entry@),
    {
        self.entries.push(entry);
        proof {
            assert(self@ =~= old(self)@.push(entry@));
        }
    }

    /// The position of a name, if it is present.
    fn find(&self, name: &[u8]) -> (r: Option<usize>)
        ensures
            match r {
                Some(i) => i < self@.len() && self@[i as int].name == name@,
                None => forall|i: int| 0 <= i < self@.len() ==> self@[i].name != name@,
            },
    {
        let mut i: usize = 0;
        while i < self.entries.len()
            invariant
                i <= self.entries@.len(),
                forall|j: int| 0 <= j < i ==> self@[j].name != name@,
            decreases self.entries@.len() - i,
        {
            if bytes_eq(self.entries[i].name.as_slice(), name) {
                return Some(i);
            }
            i = i + 1;
        }
        None
    }

    /// Look a name up.
    pub fn get(&self, name: &[u8]) -> (r: Option<&UniformInfo>)
        requires
            self.wf(),
        ensures
            match r {
                Some(info) => self.as_map().contains_key(name@) && info@ == self.as_map()[name@],
                None => !self.as_map().contains_key(name@),
            },
    {
        proof {
            lemma_entries_map_contains(self@, name@);
        }
        match self.find(name) {
            Some(i) => {
                proof {
                    lemma_entries_map_index(self@, i as int);
                }
                Some(&self.entries[i].info)
            },
            None => None,
        }
    }

    /// Insert an input under a name, replacing any input the name had.
    pub fn insert(&mut self, name: Vec<u8>, info: UniformInfo)
        requires
            old(self).wf(),
            info_wf(info@),
        ensures
            final(self).wf(),
            final(self).as_map() == old(self).as_map().insert(name@, info@),
    {
        let entry = UniformEntry { name, info };
        match self.find(entry.name.as_slice()) {
            Some(i) => {
                proof {
                    lemma_entries_map_update(self@, i as int, entry@);
                }
                let ghost prev = self@;
                let ghost e = entry@;
                let ghost pos = i as int;
                self.entries.set(i, entry);
                proof {
                    assert(self@ =~= prev.update(pos, e));
                }
            },
            None => {
                let ghost prev = self@;
                let ghost e = entry@;
                self.entries.push(entry);
                proof {
                    assert(self@ =~= prev.push(e));
                    assert(self@.drop_last() =~= prev);
                }
            },
        }
    }

    /// Update the value of a present input, refusing a value of the wrong
    /// type.  Returns whether the value was taken.
    pub fn set_value(&mut self, name: &[u8], value: UniformValue) -> (ok: bool)
        requires
            old(self).wf(),
        ensures
            final(self).wf(),
            ok == (old(self).as_map().contains_key(name@)
                && value_matches_type(value@, old(self).as_map()[name@].uniform_type)),
            ok ==> final(self).as_map() == old(self).as_map().insert(
                name@,
                UniformInfoV {
                    uniform_type: old(self).as_map()[name@].uniform_type,
                    value: value@,
                },
            ),
            !ok ==> *final(self) == *old(self),
    {
        proof {
            lemma_entries_map_contains(self@, name@);
        }
        match self.find(name) {
            Some(i) => {
                proof {
                    lemma_entries_map_index(self@, i as int);
                }
                let t = self.entries[i].info.uniform_type;
                if matches_type_exec(&value, &t) {
                    let entry = UniformEntry {
                        name: slice_to_vec(name),
                        info: UniformInfo { uniform_type: t, value },
                    };
                    proof {
                        lemma_entries_map_update(self@, i as int, entry@);
                    }
                    let ghost prev = self@;
                    let ghost e = entry@;
                    let ghost pos = i as int;
                    self.entries.set(i, entry);
                    proof {
                        assert(self@ =~= prev.update(pos, e));
                    }
                    true
                } else {
                    false
                }
            },
            None => false,
        }
    }
}

/// What merging a previous registry with a freshly detected one yields for a
/// name the fresh one declares: the previous value survives exactly when the
/// name was already present with the same declared type; otherwise the fresh
/// entry (carrying the default value) is taken.
pub open spec fn spec_merged_info(
    prev: Map<Seq<u8>, UniformInfoV>,
    fresh: Map<Seq<u8>, UniformInfoV>,
    n: Seq<u8>,
) -> UniformInfoV {
    if prev.contains_key(n) && prev[n].uniform_type == fresh[n].uniform_type {
        prev[n]
    } else {
        fresh[n]
    }
}

/// The merge of a previous registry into a freshly detected one, as a
/// mapping: defined on exactly the freshly declared names.
pub open spec fn spec_merge(
    prev: Map<Seq<u8>, UniformInfoV>,
    fresh: Map<Seq<u8>, UniformInfoV>,
) -> Map<Seq<u8>, UniformInfoV> {
    Map::new(|n: Seq<u8>| fresh.contains_key(n), |n: Seq<u8>| spec_merged_info(prev, fresh, n))
}

/// Merge a freshly detected registry into a previous one, preserving the
/// previous value of every input whose name and declared type are unchanged
/// and taking the fresh entry for every other declared name.  Pure: neither
/// argument is touched.
pub fn merge(previous: &UniformRegistry, fresh: &UniformRegistry) -> (merged: UniformRegistry)
    requires
        previous.wf(),
        fresh.wf(),
    ensures
        merged.wf(),
        merged.as_map() == spec_merge(previous.as_map(), fresh.as_map()),
{
    let ghost prevm = previous.as_map();
    let ghost freshm = fresh.as_map();
    let mut merged = UniformRegistry::new();
    let mut i: usize = 0;
    while i < fresh.len()
        invariant
            previous.wf(),
            fresh.wf(),
            prevm == previous.as_map(),
            freshm == fresh.as_map(),
            i <= fresh@.len(),
            merged@.len() == i,
            forall|j: int| 0 <= j < i ==> merged@[j].name == fresh@[j].name,
            forall|j: int|
                0 <= j < i ==> (#[trigger] merged@[j]).info == spec_merged_info(
                    prevm,
                    freshm,
                    fresh@[j].name,
                ),
            forall|j: int| 0 <= j < i ==> info_wf(#[trigger] merged@[j].info),
        decreases fresh@.len() - i,
    {
        let e = fresh.entry_at(i);
        proof {
            lemma_entries_map_index(fresh@, i as int);
            lemma_entries_map_contains(previous@, e.name@);
            if previous.as_map().contains_key(e.name@) {
                let k = choose|k: int| 0 <= k < previous@.len() && previous@[k].name == e.name@;
                lemma_entries_map_index(previous@, k);
            }
        }
        let info: UniformInfo = match previous.get(e.name.as_slice()) {
            Some(old_info) => {
                if types_eq(&old_info.uniform_type, &e.info.uniform_type) {
                    clone_info(old_info)
                } else {
                    clone_info(&e.info)
                }
            },
            None => clone_info(&e.info),
        };
        let ghost before = merged@;
        merged.push_entry(UniformEntry { name: slice_to_vec(e.name.as_slice()), info });
        proof {
            assert(merged@.drop_last() =~= before);
        }
        i = i + 1;
    }
    proof {
        assert forall|n: Seq<u8>|
            entries_map(merged@).contains_key(n) == freshm.contains_key(n) by {
            lemma_entries_map_contains(merged@, n);
            lemma_entries_map_contains(fresh@, n);
        }
        assert forall|n: Seq<u8>| freshm.contains_key(n) implies entries_map(merged@)[n]
            == spec_merged_info(prevm, freshm, n) by {
            lemma_entries_map_contains(fresh@, n);
            let k = choose|k: int| 0 <= k < fresh@.len() && fresh@[k].name == n;
            assert(merged@[k].name == n);
            lemma_entries_map_index(merged@, k);
        }
        assert(merged.as_map() =~= spec_merge(prevm, freshm));
    }
    merged
}

/// Merging never invents a name and never keeps a name the fresh detection
/// no longer declares: the merged registry holds exactly the freshly
/// declared names.
pub proof fn lemma_merge_names(
    prev: Map<Seq<u8>, UniformInfoV>,
    fresh: Map<Seq<u8>, UniformInfoV>,
)
    ensures
        spec_merge(prev, fresh).dom() == fresh.dom(),
{
    assert(spec_merge(prev, fresh).dom() =~= fresh.dom());
}

/// A previous value survives a merge exactly on a name whose declared type
/// is unchanged.
pub proof fn lemma_merge_preserves_value_on_type_match(
    prev: Map<Seq<u8>, UniformInfoV>,
    fresh: Map<Seq<u8>, UniformInfoV>,
    n: Seq<u8>,
)
    requires
        fresh.contains_key(n),
        prev.contains_key(n),
        prev[n].uniform_type == fresh[n].uniform_type,
    ensures
        spec_merge(prev, fresh)[n] == prev[n],
{
}

/// On a name the previous registry lacks, or holds with another declared
/// type, a merge takes the fresh entry.
pub proof fn lemma_merge_takes_fresh_value_otherwise(
    prev: Map<Seq<u8>, UniformInfoV>,
    fresh: Map<Seq<u8>, UniformInfoV>,
    n: Seq<u8>,
)
    requires
        fresh.contains_key(n),
        !(prev.contains_key(n) && prev[n].uniform_type == fresh[n].uniform_type),
    ensures
        spec_merge(prev, fresh)[n] == fresh[n],
{
}

/// Structural equality of two declared types.
pub fn types_eq(a: &UniformType, b: &UniformType) -> (r: bool)
    ensures
        r == (*a == *b),
{
    *a == *b
}

/// An exact copy of a texture binding.
pub fn clone_texture_handle(h: &TextureHandle) -> (r: TextureHandle)
    ensures
        r@ == h@,
{
    TextureHandle {
        path: slice_to_vec(h.path.as_slice()),
        texture_id: h.texture_id,
        width: h.width,
        height: h.height,
    }
}

/// An exact copy of an input value.
pub fn clone_value(v: &UniformValue) -> (r: UniformValue)
    ensures
        r@ == v@,
{
    match v {
        UniformValue::Float(a) => UniformValue::Float(*a),
        UniformValue::Vec2(a, b) => UniformValue::Vec2(*a, *b),
        UniformValue::Vec3(a, b, c) => UniformValue::Vec3(*a, *b, *c),
        UniformValue::Vec4(a, b, c, d) => UniformValue::Vec4(*a, *b, *c, *d),
        UniformValue::Sampler2D(t) => UniformValue::Sampler2D(
            match t {
                Some(h) => Some(clone_texture_handle(h)),
                None => None,
            },
        ),
    }
}

/// An exact copy of an input.
pub fn clone_info(info: &UniformInfo) -> (r: UniformInfo)
    ensures
        r@ == info@,
{
    UniformInfo { uniform_type: info.uniform_type, value: clone_value(&info.value) }
}

/// An exact copy of a registry.
pub fn clone_registry(reg: &UniformRegistry) -> (r: UniformRegistry)
    ensures
        r@ == reg@,
{
    let mut entries: Vec<UniformEntry> = Vec::new();
    let mut i: usize = 0;
    while i < reg.entries.len()
        invariant
            i <= reg.entries@.len(),
            entries@.len() == i,
            forall|j: int| 0 <= j < i ==> entries@[j]@ == reg@[j],
        decreases reg.entries@.len() - i,
    {
        let e = &reg.entries[i];
        entries.push(UniformEntry { name: slice_to_vec(e.name.as_slice()), info: clone_info(&e.info) });
        i = i + 1;
    }
    let r = UniformRegistry { entries };
    proof {
        assert(r@ =~= reg@);
    }
    r
}

/// Does a value's variant agree with a declared type?  Executable twin of
/// [`value_matches_type`].
pub fn matches_type_exec(v: &UniformValue, t: &UniformType) -> (r: bool)
    ensures
        r == value_matches_type(v@, *t),
{
    match (v, t) {
        (UniformValue::Float(..), UniformType::Float) => true,
        (UniformValue::Vec2(..), UniformType::Vec2) => true,
        (UniformValue::Vec3(..), UniformType::Vec3) => true,
        (UniformValue::Vec4(..), UniformType::Vec4) => true,
        (UniformValue::Sampler2D(..), UniformType::Sampler2D) => true,
        _ => false,
    }
}

/// Byte-wise equality of two byte strings.
pub fn bytes_eq(a: &[u8], b: &[u8]) -> (r: bool)
    ensures
        r == (a@ == b@),
{
    if a.len() != b.len() {
        proof {
            assert(a@ != b@) by {
                assert(a@.len() != b@.len());
            }
        }
        return false;
    }
    let mut i: usize = 0;
    while i < a.len()
        invariant
            a@.len() == b@.len(),
            i <= a@.len(),
            forall|j: int| 0 <= j < i ==> a@[j] == b@[j],
        decreases a@.len() - i,
    {
        if a[i] != b[i] {
            return false;
        }
        i = i + 1;
    }
    proof {
        assert(a@ =~= b@);
    }
    true
}

/// A name occurs in the folded mapping exactly when some entry carries it.
pub proof fn lemma_entries_map_contains(s: Seq<UniformEntryV>, n: Seq<u8>)
    ensures
        entries_map(s).contains_key(n) <==> exists|i: int| 0 <= i < s.len() && s[i].name == n,
    decreases s.len(),
{
    if s.len() > 0 {
        lemma_entries_map_contains(s.drop_last(), n);
        if s.last().name == n {
            assert(s[s.len() - 1].name == n);
        } else {
            if entries_map(s).contains_key(n) {
                let i = choose|i: int| 0 <= i < s.drop_last().len() && s.drop_last()[i].name == n;
                assert(s[i].name == n);
            }
            if exists|i: int| 0 <= i < s.len() && s[i].name == n {
                let i = choose|i: int| 0 <= i < s.len() && s[i].name == n;
                assert(s.drop_last()[i].name == n);
            }
        }
    }
}

/// With pairwise distinct names, the folded mapping sends each entry's name
/// to that entry's input.
pub proof fn lemma_entries_map_index(s: Seq<UniformEntryV>, i: int)
    requires
        forall|p: int, q: int| 0 <= p < q < s.len() ==> s[p].name != s[q].name,
        0 <= i < s.len(),
    ensures
        entries_map(s).contains_key(s[i].name),
        entries_map(s)[s[i].name] == s[i].info,
    decreases s.len(),
{
    if i < s.len() - 1 {
        lemma_entries_map_index(s.drop_last(), i);
        assert(s.drop_last()[i] == s[i]);
        assert(s[i].name != s.last().name);
    }
}

/// Replacing the entry that holds a name folds to a plain map insert.
pub proof fn lemma_entries_map_update(s: Seq<UniformEntryV>, i: int, e: UniformEntryV)
    requires
        forall|p: int, q: int| 0 <= p < q < s.len() ==> s[p].name != s[q].name,
        0 <= i < s.len(),
        e.name == s[i].name,
    ensures
        entries_map(s.update(i, e)) == entries_map(s).insert(e.name, e.info),
    decreases s.len(),
{
    let t = s.update(i, e);
    if i == s.len() - 1 {
        assert(t.drop_last() =~= s.drop_last());
        assert(t.last() == e);
        assert(entries_map(s.update(i, e)) =~= entries_map(s).insert(e.name, e.info));
    } else {
        assert(t.drop_last() =~= s.drop_last().update(i, e));
        assert(t.last() == s.last());
        lemma_entries_map_update(s.drop_last(), i, e);
        assert(s.drop_last()[i] == s[i]);
        assert(e.name != s.last().name);
        assert(entries_map(t) =~= entries_map(s).insert(e.name, e.info));
    }
}

} // verus!
