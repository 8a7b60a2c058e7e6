//! The graphics context: the one piece of shared mutable state of the
//! engine.  It holds the program cache - a map from exact shader source
//! text pairs to compiled programs, append-only for the context's lifetime
//! - and the log of issued draw calls.  Compiled programs are write-once,
//! read-many values; a failed compilation is never stored, so a later call
//! with the same broken source re-attempts it.
//!
//! Compilation is modelled on source text alone: a shader stage compiles
//! exactly when its source is non-empty, and a compiled program defines a
//! uniform name exactly when that name occurs in its fragment source.

use vstd::prelude::*;
use vstd::string::*;
use vstd::utf8::encode_utf8;

use crate::aabb::AxisAlignedBoundingBox;
use crate::camera::Viewport;
use crate::rstates::RenderStates;
use crate::strings::contains_bytes;
use crate::strings::contains_seq;
use crate::Error;

verus! {

/// A compiled, linked pair of vertex and fragment shader stages.  The
/// source text is retained: it is the cache key and the uniform-name
/// lookup table of the model.
pub struct Program {
    pub id: u64,
    pub vertex_source: String,
    pub fragment_source: String,
}

impl Clone for Program {
    fn clone(&self) -> (r: Program)
        ensures
            r == *self,
    {
        Program {
            id: self.id,
            vertex_source: self.vertex_source.clone(),
            fragment_source: self.fragment_source.clone(),
        }
    }
}

/// A fragment source defines a uniform or texture name exactly when the
/// name occurs in the source text.
pub open spec fn fs_defines(fs: Seq<char>, name: Seq<char>) -> bool {
    contains_seq(encode_utf8(fs), encode_utf8(name))
}

impl Program {
    /// The program defines `name` exactly when the name occurs in its
    /// fragment source.
    pub open spec fn defines(&self, name: Seq<char>) -> bool {
        fs_defines(self.fragment_source@, name)
    }

    /// Look a uniform or texture slot up by name; absence is a binding
    /// error, the sign of a material/shader mismatch.
    pub fn use_uniform(&self, name: &str) -> (r: Result<(), Error>)
        ensures
            r is Ok <==> self.defines(name@),
            r matches Err(e) ==> e.is_binding(),
    {
        let hay = self.fragment_source.as_str().as_bytes_vec();
        let needle = name.as_bytes_vec();
        if contains_bytes(&hay, &needle) {
            Ok(())
        } else {
            Err(Error::Binding { message: String::from_str(name) })
        }
    }

    /// Bind a scalar uniform by name.
    pub fn use_uniform_float(&self, name: &str, _value: &i64) -> (r: Result<(), Error>)
        ensures
            r is Ok <==> self.defines(name@),
            r matches Err(e) ==> e.is_binding(),
    {
        self.use_uniform(name)
    }

    /// Bind a four-component uniform by name.
    pub fn use_uniform_vec4(&self, name: &str, _value: &crate::math::Vec4) -> (r: Result<(), Error>)
        ensures
            r is Ok <==> self.defines(name@),
            r matches Err(e) ==> e.is_binding(),
    {
        self.use_uniform(name)
    }

    /// Bind a three-component uniform by name.
    pub fn use_uniform_vec3(&self, name: &str, _value: &crate::math::Vec3) -> (r: Result<(), Error>)
        ensures
            r is Ok <==> self.defines(name@),
            r matches Err(e) ==> e.is_binding(),
    {
        self.use_uniform(name)
    }

    /// Bind a matrix uniform by name.
    pub fn use_uniform_mat4(&self, name: &str, _value: &crate::math::Mat4) -> (r: Result<(), Error>)
        ensures
            r is Ok <==> self.defines(name@),
            r matches Err(e) ==> e.is_binding(),
    {
        self.use_uniform(name)
    }

    /// Bind a color texture by name.
    pub fn use_texture(&self, name: &str, _texture: &crate::texture::Texture2D) -> (r: Result<
        (),
        Error,
    >)
        ensures
            r is Ok <==> self.defines(name@),
            r matches Err(e) ==> e.is_binding(),
    {
        self.use_uniform(name)
    }

    /// Bind a depth texture by name.
    pub fn use_depth_texture(
        &self,
        name: &str,
        _texture: &crate::texture::DepthTargetTexture2D,
    ) -> (r: Result<(), Error>)
        ensures
            r is Ok <==> self.defines(name@),
            r matches Err(e) ==> e.is_binding(),
    {
        self.use_uniform(name)
    }
}

/// One issued draw call: which object (by its bound), with which program,
/// render state and viewport.
#[derive(PartialEq, Eq, Structural, Clone, Copy, Debug)]
pub struct DrawCall {
    pub aabb: AxisAlignedBoundingBox,
    pub program_id: u64,
    pub states: RenderStates,
    pub viewport: Viewport,
}

/// The cache entry `p` stores exactly the source pair `(vs, fs)`.
pub open spec fn entry_matches(p: Program, vs: Seq<char>, fs: Seq<char>) -> bool {
    p.vertex_source@ == vs && p.fragment_source@ == fs
}

/// The source pair compiles: both stages are non-empty.  Compilation is a
/// function of the source text alone, so the outcome of a re-attempt never
/// differs.
pub open spec fn compiles(vs: Seq<char>, fs: Seq<char>) -> bool {
    vs.len() > 0 && fs.len() > 0
}

/// The id of the first cache entry storing `(vs, fs)`, if any.
pub open spec fn cache_lookup(cache: Seq<Program>, vs: Seq<char>, fs: Seq<char>) -> Option<u64>
    decreases cache.len(),
{
    if cache.len() == 0 {
        None
    } else if entry_matches(cache[0], vs, fs) {
        Some(cache[0].id)
    } else {
        cache_lookup(cache.skip(1), vs, fs)
    }
}

/// Well-formed cache: each entry's id is its index (so ids are unique and
/// stable), and no two entries store the same source pair.
pub open spec fn cache_wf(cache: Seq<Program>) -> bool {
    &&& forall|i: int| 0 <= i < cache.len() ==> (#[trigger] cache[i].id) == i as u64
    &&& forall|i: int, j: int|
        0 <= i < j < cache.len() ==> !((#[trigger] cache[i]).vertex_source@ == (
        #[trigger] cache[j]).vertex_source@ && cache[i].fragment_source@
            == cache[j].fragment_source@)
}

/// `b` extends `a` without disturbing it: the cache is append-only.
pub open spec fn cache_extends(a: Seq<Program>, b: Seq<Program>) -> bool {
    a.len() <= b.len() && b.subrange(0, a.len() as int) == a
}

/// Extension is reflexive.
pub proof fn lemma_cache_extends_refl(a: Seq<Program>)
    ensures
        cache_extends(a, a),
{
    assert(a.subrange(0, a.len() as int) =~= a);
}

/// Extension is transitive: what two render steps append, the frame
/// appends.
pub proof fn lemma_cache_extends_trans(a: Seq<Program>, b: Seq<Program>, c: Seq<Program>)
    requires
        cache_extends(a, b),
        cache_extends(b, c),
    ensures
        cache_extends(a, c),
{
    assert forall|i: int| 0 <= i < a.len() implies c.subrange(0, a.len() as int)[i] == a[i] by {
        assert(a[i] == b.subrange(0, a.len() as int)[i]);
        assert(b[i] == c.subrange(0, b.len() as int)[i]);
    }
    assert(c.subrange(0, a.len() as int) =~= a);
}

/// The id a successful resolution of `(vs, fs)` against `cache` yields:
/// the stored entry's id on a hit, the next free id on a miss.
pub open spec fn resolved_id(cache: Seq<Program>, vs: Seq<char>, fs: Seq<char>) -> u64 {
    match cache_lookup(cache, vs, fs) {
        Some(id) => id,
        None => cache.len() as u64,
    }
}

/// Looking up a pair in a cache whose prefix holds no match is the same as
/// looking it up from `k` on.
proof fn lemma_lookup_from(cache: Seq<Program>, vs: Seq<char>, fs: Seq<char>, k: int)
    requires
        0 <= k <= cache.len(),
        forall|j: int| 0 <= j < k ==> !entry_matches(#[trigger] cache[j], vs, fs),
    ensures
        cache_lookup(cache, vs, fs) == cache_lookup(cache.skip(k), vs, fs),
    decreases k,
{
    if k > 0 {
        assert(!entry_matches(cache[0], vs, fs));
        lemma_lookup_from(cache.skip(1), vs, fs, k - 1);
        assert(cache.skip(1).skip(k - 1) =~= cache.skip(k));
    } else {
        assert(cache.skip(0) =~= cache);
    }
}

/// A successful lookup names an entry that stores the pair.
pub proof fn lemma_lookup_some_entry(cache: Seq<Program>, vs: Seq<char>, fs: Seq<char>)
    requires
        cache_lookup(cache, vs, fs) is Some,
    ensures
        exists|i: int|
            0 <= i < cache.len() && entry_matches(#[trigger] cache[i], vs, fs) && cache[i].id
                == cache_lookup(cache, vs, fs)->0,
    decreases cache.len(),
{
    if cache.len() > 0 {
        if entry_matches(cache[0], vs, fs) {
            assert(entry_matches(cache[0], vs, fs) && cache[0].id == cache_lookup(
                cache,
                vs,
                fs,
            )->0);
        } else {
            lemma_lookup_some_entry(cache.skip(1), vs, fs);
            let i = choose|i: int|
                0 <= i < cache.skip(1).len() && entry_matches(#[trigger] cache.skip(1)[i], vs, fs)
                    && cache.skip(1)[i].id == cache_lookup(cache.skip(1), vs, fs)->0;
            assert(cache.skip(1)[i] == cache[i + 1]);
            assert(entry_matches(cache[i + 1], vs, fs) && cache[i + 1].id == cache_lookup(
                cache,
                vs,
                fs,
            )->0);
        }
    }
}

/// Inserting a missing pair makes its later lookups hit the new entry:
/// the cache is stable under re-resolution.
pub proof fn lemma_lookup_after_insert(
    cache: Seq<Program>,
    p: Program,
    vs: Seq<char>,
    fs: Seq<char>,
)
    requires
        cache_lookup(cache, vs, fs) is None,
        entry_matches(p, vs, fs),
    ensures
        cache_lookup(cache.push(p), vs, fs) == Some(p.id),
    decreases cache.len(),
{
    if cache.len() == 0 {
        assert(cache.push(p)[0] == p);
        assert(cache.push(p).len() == 1);
    } else {
        assert(cache.push(p)[0] == cache[0]);
        if !entry_matches(cache[0], vs, fs) {
            lemma_lookup_after_insert(cache.skip(1), p, vs, fs);
            assert(cache.push(p).skip(1) =~= cache.skip(1).push(p));
        }
    }
}

/// Inserting one pair does not change the lookup of any other pair.
pub proof fn lemma_lookup_other_after_insert(
    cache: Seq<Program>,
    p: Program,
    vs: Seq<char>,
    fs: Seq<char>,
)
    requires
        !entry_matches(p, vs, fs),
    ensures
        cache_lookup(cache.push(p), vs, fs) == cache_lookup(cache, vs, fs),
    decreases cache.len(),
{
    reveal_with_fuel(cache_lookup, 3);
    if cache.len() == 0 {
        assert(cache.push(p)[0] == p);
        assert(cache.push(p).skip(1) =~= Seq::<Program>::empty());
    } else {
        assert(cache.push(p)[0] == cache[0]);
        if !entry_matches(cache[0], vs, fs) {
            lemma_lookup_other_after_insert(cache.skip(1), p, vs, fs);
            assert(cache.push(p).skip(1) =~= cache.skip(1).push(p));
        } else {
            assert(entry_matches(cache.push(p)[0], vs, fs));
            assert(cache_lookup(cache.push(p), vs, fs) == Some(cache.push(p)[0].id));
        }
    }
}

/// In a well-formed cache, two different source pairs never resolve to the
/// same program: distinct sources always yield independent entries.
pub proof fn lemma_distinct_sources_distinct_ids(
    cache: Seq<Program>,
    vs1: Seq<char>,
    fs1: Seq<char>,
    vs2: Seq<char>,
    fs2: Seq<char>,
)
    requires
        cache_wf(cache),
        cache.len() <= u64::MAX,
        vs1 != vs2 || fs1 != fs2,
        cache_lookup(cache, vs1, fs1) is Some,
        cache_lookup(cache, vs2, fs2) is Some,
    ensures
        cache_lookup(cache, vs1, fs1) != cache_lookup(cache, vs2, fs2),
{
    lemma_lookup_some_entry(cache, vs1, fs1);
    lemma_lookup_some_entry(cache, vs2, fs2);
    let i1 = choose|i: int|
        0 <= i < cache.len() && entry_matches(#[trigger] cache[i], vs1, fs1) && cache[i].id
            == cache_lookup(cache, vs1, fs1)->0;
    let i2 = choose|i: int|
        0 <= i < cache.len() && entry_matches(#[trigger] cache[i], vs2, fs2) && cache[i].id
            == cache_lookup(cache, vs2, fs2)->0;
    if i1 == i2 {
        assert(vs1 == vs2 && fs1 == fs2);
    }
    assert(cache[i1].id == i1 as u64);
    assert(cache[i2].id == i2 as u64);
}

/// The graphics context.  Duplicating a context handle is cheap in a real
/// device layer; here the context is threaded through render calls as the
/// single mutable device state.
pub struct Context {
    pub programs: Vec<Program>,
    pub draws: Vec<DrawCall>,
}

impl Context {
    /// The context's cache invariant.
    pub open spec fn wf(&self) -> bool {
        cache_wf(self.programs@)
    }

    /// A fresh context: empty cache, no draws issued.
    pub fn new() -> (r: Context)
        ensures
            r.wf(),
            r.programs@.len() == 0,
            r.draws@.len() == 0,
    {
        Context { programs: Vec::new(), draws: Vec::new() }
    }

    /// Resolve a source pair to a program: on a cache hit the stored
    /// program is returned unchanged and nothing is recompiled; on a miss
    /// the pair is compiled, stored and returned; a compilation failure is
    /// reported and leaves the cache exactly as it was.
    pub fn resolve_or_compile(&mut self, vertex_source: &String, fragment_source: &String) -> (r:
        Result<Program, Error>)
        requires
            old(self).wf(),
        ensures
            final(self).wf(),
            final(self).draws@ == old(self).draws@,
            cache_extends(old(self).programs@, final(self).programs@),
            match cache_lookup(old(self).programs@, vertex_source@, fragment_source@) {
                Some(id) => {
                    &&& final(self).programs@ == old(self).programs@
                    &&& r matches Ok(p) && p.id == id
                },
                None => {
                    if compiles(vertex_source@, fragment_source@) {
                        &&& r matches Ok(p) && p.id == old(self).programs@.len() as u64
                        &&& final(self).programs@.len() == old(self).programs@.len() + 1
                        &&& r matches Ok(p) && final(self).programs@ == old(
                            self,
                        ).programs@.push(p)
                    } else {
                        &&& final(self).programs@ == old(self).programs@
                        &&& r matches Err(e) && e.is_compile()
                    }
                },
            },
            r matches Ok(p) ==> p.vertex_source@ == vertex_source@ && p.fragment_source@
                == fragment_source@ && p.id == resolved_id(
                old(self).programs@,
                vertex_source@,
                fragment_source@,
            ),
            r is Ok <==> (cache_lookup(old(self).programs@, vertex_source@, fragment_source@)
                is Some || compiles(vertex_source@, fragment_source@)),
    {
        let n = self.programs.len();
        let mut i: usize = 0;
        while i < n
            invariant
                n == self.programs@.len(),
                0 <= i <= n,
                *self == *old(self),
                old(self).wf(),
                forall|j: int|
                    0 <= j < i ==> !entry_matches(
                        #[trigger] self.programs@[j],
                        vertex_source@,
                        fragment_source@,
                    ),
            decreases n - i,
        {
            let hit = self.programs[i].vertex_source.eq(vertex_source)
                && self.programs[i].fragment_source.eq(fragment_source);
            if hit {
                proof {
                    lemma_lookup_from(self.programs@, vertex_source@, fragment_source@, i as int);
                    assert(self.programs@.skip(i as int)[0] == self.programs@[i as int]);
                }
                let p = self.programs[i].clone();
                proof {
                    assert(self.programs@.subrange(0, self.programs@.len() as int)
                        =~= self.programs@);
                }
                return Ok(p);
            }
            i = i + 1;
        }
        proof {
            lemma_lookup_from(self.programs@, vertex_source@, fragment_source@, n as int);
            assert(self.programs@.skip(n as int) =~= Seq::<Program>::empty());
        }
        if vertex_source.as_str().is_empty() || fragment_source.as_str().is_empty() {
            proof {
                assert(self.programs@.subrange(0, self.programs@.len() as int) =~= self.programs@);
            }
            return Err(Error::Compile { message: String::from_str("empty shader stage") });
        }
        let id = self.programs.len() as u64;
        let p = Program {
            id,
            vertex_source: vertex_source.clone(),
            fragment_source: fragment_source.clone(),
        };
        self.programs.push(p.clone());
        proof {
            assert(self.programs@ == old(self).programs@.push(p));
            assert(old(self).programs@.subrange(0, old(self).programs@.len() as int) =~= old(
                self,
            ).programs@);
            assert(self.programs@.subrange(0, old(self).programs@.len() as int) =~= old(
                self,
            ).programs@);
            assert forall|k: int|
                0 <= k < self.programs@.len() implies (#[trigger] self.programs@[k].id)
                == k as u64 by {
                if k < old(self).programs@.len() {
                    assert(self.programs@[k] == old(self).programs@[k]);
                }
            }
        }
        Ok(p)
    }

    /// Issue one draw call; the cache is untouched.
    pub fn submit_draw(&mut self, call: DrawCall)
        ensures
            final(self).programs@ == old(self).programs@,
            final(self).draws@ == old(self).draws@.push(call),
            old(self).wf() ==> final(self).wf(),
    {
        self.draws.push(call);
    }
}

} // verus!
