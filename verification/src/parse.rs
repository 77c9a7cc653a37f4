//! Detection of declared inputs in shader source text.
//!
//! The tool exposes as controls every declaration of the shape
//! `uniform TYPE NAME;` where `TYPE` is one of the five supported input
//! types and `NAME` is an identifier.  Detection scans the raw UTF-8 bytes
//! of the source left to right for the earliest such declaration, takes it,
//! and continues after it; a declaration with an unsupported type does not
//! match and is skipped byte by byte, so the shader may freely use types the
//! tool has no control for.  Of two declarations of one name the later one
//! wins.  This is deliberately a constrained pattern match, not a shading
//! language front end.

use vstd::prelude::*;
use vstd::slice::slice_to_vec;
use vstd::string::StringSliceAdditionalSpecFns;

use crate::uniform::lemma_merge_takes_fresh_value_otherwise;
use crate::uniform::spec_default_info;
use crate::uniform::spec_default_value;
use crate::uniform::spec_merge;
use crate::uniform::value_matches_type;
use crate::uniform::UniformInfo;
use crate::uniform::UniformInfoV;
use crate::uniform::UniformRegistry;
use crate::uniform::UniformType;
use crate::uniform::UniformValue;

verus! {

/// A byte of whitespace: space, tab, line feed, vertical tab, form feed or
/// carriage return.
pub open spec fn is_ws(b: u8) -> bool {
    b == 32 || b == 9 || b == 10 || b == 11 || b == 12 || b == 13
}

/// A byte that may open an identifier: a letter or an underscore.
pub open spec fn is_ident_start(b: u8) -> bool {
    (97 <= b && b <= 122) || (65 <= b && b <= 90) || b == 95
}

/// A byte that may continue an identifier: a letter, a digit or an
/// underscore.
pub open spec fn is_ident_char(b: u8) -> bool {
    is_ident_start(b) || (48 <= b && b <= 57)
}

/// The first position at or after `i` that does not hold whitespace.
pub open spec fn skip_ws(s: Seq<u8>, i: int) -> int
    decreases s.len() - i,
{
    if 0 <= i && i < s.len() && is_ws(s[i]) {
        skip_ws(s, i + 1)
    } else {
        i
    }
}

/// The first position at or after `i` that does not hold an identifier
/// byte.
pub open spec fn skip_ident(s: Seq<u8>, i: int) -> int
    decreases s.len() - i,
{
    if 0 <= i && i < s.len() && is_ident_char(s[i]) {
        skip_ident(s, i + 1)
    } else {
        i
    }
}

/// Does `uniform` stand at position `i`?
pub open spec fn uniform_kw_at(s: Seq<u8>, i: int) -> bool {
    &&& 0 <= i
    &&& i + 7 <= s.len()
    &&& s[i] == 117
    &&& s[i + 1] == 110
    &&& s[i + 2] == 105
    &&& s[i + 3] == 102
    &&& s[i + 4] == 111
    &&& s[i + 5] == 114
    &&& s[i + 6] == 109
}

/// Does `float` stand at position `i`?
pub open spec fn float_kw_at(s: Seq<u8>, i: int) -> bool {
    &&& 0 <= i
    &&& i + 5 <= s.len()
    &&& s[i] == 102
    &&& s[i + 1] == 108
    &&& s[i + 2] == 111
    &&& s[i + 3] == 97
    &&& s[i + 4] == 116
}

/// Does `vec2`, `vec3` or `vec4` stand at position `i`?  The last byte is
/// given by `digit`.
pub open spec fn vec_kw_at(s: Seq<u8>, i: int, digit: u8) -> bool {
    &&& 0 <= i
    &&& i + 4 <= s.len()
    &&& s[i] == 118
    &&& s[i + 1] == 101
    &&& s[i + 2] == 99
    &&& s[i + 3] == digit
}

/// Does `sampler2D` stand at position `i`?
pub open spec fn sampler2d_kw_at(s: Seq<u8>, i: int) -> bool {
    &&& 0 <= i
    &&& i + 9 <= s.len()
    &&& s[i] == 115
    &&& s[i + 1] == 97
    &&& s[i + 2] == 109
    &&& s[i + 3] == 112
    &&& s[i + 4] == 108
    &&& s[i + 5] == 101
    &&& s[i + 6] == 114
    &&& s[i + 7] == 50
    &&& s[i + 8] == 68
}

/// The supported input type declared at position `i`, with the position
/// just after its keyword.
pub open spec fn type_at(s: Seq<u8>, i: int) -> Option<(UniformType, int)> {
    if float_kw_at(s, i) {
        Some((UniformType::Float, i + 5))
    } else if vec_kw_at(s, i, 50) {
        Some((UniformType::Vec2, i + 4))
    } else if vec_kw_at(s, i, 51) {
        Some((UniformType::Vec3, i + 4))
    } else if vec_kw_at(s, i, 52) {
        Some((UniformType::Vec4, i + 4))
    } else if sampler2d_kw_at(s, i) {
        Some((UniformType::Sampler2D, i + 9))
    } else {
        None
    }
}

/// One detected declaration: the declared name, its type, and the position
/// just after the terminating semicolon.
pub ghost struct DeclV {
    pub name: Seq<u8>,
    pub ty: UniformType,
    pub end: int,
}

/// The declaration that starts exactly at position `i`: the word `uniform`,
/// whitespace, a supported type keyword, whitespace, an identifier taken as
/// long as possible, optional whitespace, and a semicolon.
pub open spec fn match_decl_at(s: Seq<u8>, i: int) -> Option<DeclV> {
    if !uniform_kw_at(s, i) {
        None
    } else {
        let j1 = skip_ws(s, i + 7);
        if j1 == i + 7 {
            None
        } else {
            match type_at(s, j1) {
                None => None,
                Some((ty, k)) => {
                    let j2 = skip_ws(s, k);
                    if j2 == k {
                        None
                    } else if !(j2 < s.len() && is_ident_start(s[j2])) {
                        None
                    } else {
                        let e = skip_ident(s, j2 + 1);
                        let j3 = skip_ws(s, e);
                        if j3 < s.len() && s[j3] == 59 {
                            Some(DeclV { name: s.subrange(j2, e), ty, end: j3 + 1 })
                        } else {
                            None
                        }
                    }
                },
            }
        }
    }
}

/// Every declaration in the text, in source order: at each position the
/// scan takes the declaration that starts there, if one does, and resumes
/// after it; otherwise it moves one byte on.
pub open spec fn scan_decls(s: Seq<u8>, i: int) -> Seq<DeclV>
    decreases s.len() - i,
{
    if i < 0 || i >= s.len() {
        Seq::empty()
    } else {
        match match_decl_at(s, i) {
            Some(d) => {
                let next = if i < d.end && d.end <= s.len() {
                    d.end
                } else {
                    i + 1
                };
                seq![d] + scan_decls(s, next)
            },
            None => scan_decls(s, i + 1),
        }
    }
}

/// Fold a run of declarations into a mapping, over an already-collected
/// prefix: each declaration binds its name to a fresh input of its type, so
/// of two declarations of one name the later one wins.
pub open spec fn apply_decls(
    m: Map<Seq<u8>, UniformInfoV>,
    ds: Seq<DeclV>,
) -> Map<Seq<u8>, UniformInfoV>
    decreases ds.len(),
{
    if ds.len() == 0 {
        m
    } else {
        apply_decls(m, ds.drop_last()).insert(ds.last().name, spec_default_info(ds.last().ty))
    }
}

/// The inputs a shader source text declares, each carrying the default
/// value of its declared type.
pub open spec fn spec_parse(s: Seq<u8>) -> Map<Seq<u8>, UniformInfoV> {
    apply_decls(Map::empty(), scan_decls(s, 0))
}

/// Folding a run of declarations one head at a time.
pub proof fn lemma_apply_decls_cons(m: Map<Seq<u8>, UniformInfoV>, d: DeclV, rest: Seq<DeclV>)
    ensures
        apply_decls(m, seq![d] + rest) == apply_decls(
            m.insert(d.name, spec_default_info(d.ty)),
            rest,
        ),
    decreases rest.len(),
{
    let m2 = m.insert(d.name, spec_default_info(d.ty));
    if rest.len() == 0 {
        assert(seq![d] + rest =~= seq![d]);
        assert((seq![d]).drop_last() =~= Seq::<DeclV>::empty());
        assert(apply_decls(m, Seq::<DeclV>::empty()) == m);
        assert(apply_decls(m2, rest) == m2);
        assert(apply_decls(m, seq![d] + rest) == apply_decls(
            m,
            (seq![d] + rest).drop_last(),
        ).insert(d.name, spec_default_info(d.ty)));
    } else {
        let s2 = seq![d] + rest;
        assert(s2.len() == 1 + rest.len());
        assert(s2.drop_last() =~= seq![d] + rest.drop_last());
        assert(s2.last() == rest.last());
        lemma_apply_decls_cons(m, d, rest.drop_last());
        assert(apply_decls(m, s2) == apply_decls(m, s2.drop_last()).insert(
            s2.last().name,
            spec_default_info(s2.last().ty),
        ));
        assert(apply_decls(m2, rest) == apply_decls(m2, rest.drop_last()).insert(
            rest.last().name,
            spec_default_info(rest.last().ty),
        ));
    }
}

/// Whatever a fold of declarations maps a name to is either what the
/// collected prefix already had or a fresh input of some declared type.
pub proof fn lemma_apply_decls_value_shape(
    m: Map<Seq<u8>, UniformInfoV>,
    ds: Seq<DeclV>,
    n: Seq<u8>,
)
    requires
        apply_decls(m, ds).contains_key(n),
    ensures
        (m.contains_key(n) && apply_decls(m, ds)[n] == m[n]) || (exists|t: UniformType|
            apply_decls(m, ds)[n] == spec_default_info(t)),
    decreases ds.len(),
{
    if ds.len() > 0 {
        if ds.last().name == n {
            assert(apply_decls(m, ds)[n] == spec_default_info(ds.last().ty));
        } else {
            lemma_apply_decls_value_shape(m, ds.drop_last(), n);
        }
    }
}

/// Every input a parse yields carries the default value of its declared
/// type.
pub proof fn lemma_parse_yields_defaults(s: Seq<u8>, n: Seq<u8>)
    requires
        spec_parse(s).contains_key(n),
    ensures
        spec_parse(s)[n].value == spec_default_value(spec_parse(s)[n].uniform_type),
{
    lemma_apply_decls_value_shape(Map::empty(), scan_decls(s, 0), n);
    let t = choose|t: UniformType| spec_parse(s)[n] == spec_default_info(t);
    assert(spec_parse(s)[n].uniform_type == t);
}

/// Across a reload, an input whose name is newly declared, or whose
/// declared type changed, comes out of the merge with the freshly
/// declared type and that type's default value: stale values never
/// survive a type change.
pub proof fn lemma_reload_resets_changed_inputs(
    prev: Map<Seq<u8>, UniformInfoV>,
    s: Seq<u8>,
    n: Seq<u8>,
)
    requires
        spec_parse(s).contains_key(n),
        !(prev.contains_key(n) && prev[n].uniform_type == spec_parse(s)[n].uniform_type),
    ensures
        spec_merge(prev, spec_parse(s))[n].uniform_type == spec_parse(s)[n].uniform_type,
        spec_merge(prev, spec_parse(s))[n].value == spec_default_value(
            spec_parse(s)[n].uniform_type,
        ),
{
    lemma_merge_takes_fresh_value_otherwise(prev, spec_parse(s), n);
    lemma_parse_yields_defaults(s, n);
}

/// Detection is a function of the source text alone: two registries parsed
/// from equal text are equal as mappings, entry for entry.
pub proof fn lemma_parse_deterministic(r1: UniformRegistry, r2: UniformRegistry, s: Seq<u8>)
    requires
        r1.as_map() == spec_parse(s),
        r2.as_map() == spec_parse(s),
    ensures
        r1.as_map() == r2.as_map(),
{
}

/// Whitespace test, executable twin of [`is_ws`].
fn is_ws_b(b: u8) -> (r: bool)
    ensures
        r == is_ws(b),
{
    b == 32 || b == 9 || b == 10 || b == 11 || b == 12 || b == 13
}

/// Identifier-start test, executable twin of [`is_ident_start`].
fn is_ident_start_b(b: u8) -> (r: bool)
    ensures
        r == is_ident_start(b),
{
    (97 <= b && b <= 122) || (65 <= b && b <= 90) || b == 95
}

/// Identifier-byte test, executable twin of [`is_ident_char`].
fn is_ident_char_b(b: u8) -> (r: bool)
    ensures
        r == is_ident_char(b),
{
    is_ident_start_b(b) || (48 <= b && b <= 57)
}

/// Walk past whitespace.
fn eat_ws(s: &[u8], i: usize) -> (j: usize)
    requires
        i <= s.len(),
    ensures
        j == skip_ws(s@, i as int),
        i <= j <= s.len(),
{
    let mut j: usize = i;
    while j < s.len() && is_ws_b(s[j])
        invariant
            i <= j <= s.len(),
            skip_ws(s@, j as int) == skip_ws(s@, i as int),
        decreases s.len() - j,
    {
        j = j + 1;
    }
    j
}

/// Walk past identifier bytes.
fn eat_ident(s: &[u8], i: usize) -> (j: usize)
    requires
        i <= s.len(),
    ensures
        j == skip_ident(s@, i as int),
        i <= j <= s.len(),
{
    let mut j: usize = i;
    while j < s.len() && is_ident_char_b(s[j])
        invariant
            i <= j <= s.len(),
            skip_ident(s@, j as int) == skip_ident(s@, i as int),
        decreases s.len() - j,
    {
        j = j + 1;
    }
    j
}

/// Is `uniform` at position `i`?  Executable twin of [`uniform_kw_at`].
fn uniform_kw_at_b(s: &[u8], i: usize) -> (r: bool)
    requires
        i <= s.len(),
    ensures
        r == uniform_kw_at(s@, i as int),
{
    s.len() - i >= 7 && s[i] == 117 && s[i + 1] == 110 && s[i + 2] == 105 && s[i + 3] == 102
        && s[i + 4] == 111 && s[i + 5] == 114 && s[i + 6] == 109
}

/// The supported type keyword at position `i`, executable twin of
/// [`type_at`].
fn type_at_b(s: &[u8], i: usize) -> (r: Option<(UniformType, usize)>)
    requires
        i <= s.len(),
    ensures
        match (r, type_at(s@, i as int)) {
            (Some((t1, e1)), Some((t2, e2))) => t1 == t2 && e1 as int == e2,
            (None, None) => true,
            _ => false,
        },
{
    if s.len() - i >= 5 && s[i] == 102 && s[i + 1] == 108 && s[i + 2] == 111 && s[i + 3] == 97
        && s[i + 4] == 116 {
        Some((UniformType::Float, i + 5))
    } else if s.len() - i >= 4 && s[i] == 118 && s[i + 1] == 101 && s[i + 2] == 99 && s[i + 3]
        == 50 {
        Some((UniformType::Vec2, i + 4))
    } else if s.len() - i >= 4 && s[i] == 118 && s[i + 1] == 101 && s[i + 2] == 99 && s[i + 3]
        == 51 {
        Some((UniformType::Vec3, i + 4))
    } else if s.len() - i >= 4 && s[i] == 118 && s[i + 1] == 101 && s[i + 2] == 99 && s[i + 3]
        == 52 {
        Some((UniformType::Vec4, i + 4))
    } else if s.len() - i >= 9 && s[i] == 115 && s[i + 1] == 97 && s[i + 2] == 109 && s[i + 3]
        == 112 && s[i + 4] == 108 && s[i + 5] == 101 && s[i + 6] == 114 && s[i + 7] == 50 && s[i
        + 8] == 68 {
        Some((UniformType::Sampler2D, i + 9))
    } else {
        None
    }
}

/// The declaration that starts exactly at position `i`, executable twin of
/// [`match_decl_at`]: the declared type, the name bytes, and the position
/// just after the semicolon.
fn try_match_decl(s: &[u8], i: usize) -> (r: Option<(UniformType, Vec<u8>, usize)>)
    requires
        i <= s.len(),
    ensures
        match r {
            Some((ty, name, end)) => {
                &&& match_decl_at(s@, i as int) is Some
                &&& {
                    let d = match_decl_at(s@, i as int)->Some_0;
                    d.ty == ty && d.name == name@ && d.end == end as int
                }
                &&& i < end <= s.len()
            },
            None => match_decl_at(s@, i as int) is None,
        },
{
    if !uniform_kw_at_b(s, i) {
        return None;
    }
    let j1 = eat_ws(s, i + 7);
    if j1 == i + 7 {
        return None;
    }
    match type_at_b(s, j1) {
        None => None,
        Some((ty, k)) => {
            let j2 = eat_ws(s, k);
            if j2 == k {
                return None;
            }
            if !(j2 < s.len() && is_ident_start_b(s[j2])) {
                return None;
            }
            let e = eat_ident(s, j2 + 1);
            let j3 = eat_ws(s, e);
            if j3 < s.len() && s[j3] == 59 {
                let name = slice_to_vec(&s[j2..e]);
                proof {
                    assert(name@ =~= s@.subrange(j2 as int, e as int));
                }
                Some((ty, name, j3 + 1))
            } else {
                None
            }
        },
    }
}

/// Detect the declared inputs of a shader source text.  The result maps
/// each declared name to an input of the declared type carrying that type's
/// default value; it is a function of the text alone.
pub fn parse_uniforms(shader_source: &str) -> (r: UniformRegistry)
    ensures
        r.wf(),
        r.as_map() == spec_parse(shader_source.spec_bytes()),
{
    parse_uniform_bytes(shader_source.as_bytes())
}

/// Detect the declared inputs of a shader source given as raw bytes.
pub fn parse_uniform_bytes(s: &[u8]) -> (r: UniformRegistry)
    ensures
        r.wf(),
        r.as_map() == spec_parse(s@),
{
    let mut reg = UniformRegistry::new();
    let mut i: usize = 0;
    while i < s.len()
        invariant
            i <= s.len(),
            reg.wf(),
            apply_decls(reg.as_map(), scan_decls(s@, i as int)) == spec_parse(s@),
        decreases s.len() - i,
    {
        match try_match_decl(s, i) {
            Some((ty, name, end)) => {
                let ghost d = match_decl_at(s@, i as int)->Some_0;
                proof {
                    assert(scan_decls(s@, i as int) == seq![d] + scan_decls(s@, d.end));
                    lemma_apply_decls_cons(reg.as_map(), d, scan_decls(s@, d.end));
                    assert(value_matches_type(spec_default_value(ty), ty));
                }
                let value = UniformValue::default_for_type(&ty);
                reg.insert(name, UniformInfo { uniform_type: ty, value });
                i = end;
            },
            None => {
                proof {
                    assert(scan_decls(s@, i as int) == scan_decls(s@, i + 1));
                }
                i = i + 1;
            },
        }
    }
    proof {
        assert(scan_decls(s@, i as int) =~= Seq::<DeclV>::empty());
    }
    reg
}

} // verus!
