//! A shader program model: the link state and the uniform-location cache.
//! Compiling, linking and setting uniform values are host work on the
//! program handle; the cache decides when the host may skip a location
//! lookup, and a resolved location — including the invalid-location
//! sentinel the graphics API yields for optimized-out uniforms — is kept
//! for the program's lifetime and never invalidated.

use vstd::prelude::*;

verus! {

/// First-match lookup of a uniform name among the cached entries.
pub open spec fn spec_lookup(entries: Seq<(String, i32)>, name: Seq<char>) -> Option<i32>
    decreases entries.len(),
{
    if entries.len() == 0 {
        None
    } else if entries[0].0@ == name {
        Some(entries[0].1)
    } else {
        spec_lookup(entries.drop_first(), name)
    }
}

/// A lookup that misses finds no entry under that name.
pub proof fn lemma_lookup_none(entries: Seq<(String, i32)>, name: Seq<char>)
    requires
        spec_lookup(entries, name) is None,
    ensures
        forall|i: int| 0 <= i < entries.len() ==> (#[trigger] entries[i]).0@ != name,
    decreases entries.len(),
{
    if entries.len() > 0 {
        lemma_lookup_none(entries.drop_first(), name);
        assert forall|i: int| 0 <= i < entries.len() implies (#[trigger] entries[i]).0@
            != name by {
            if i > 0 {
                assert(entries.drop_first()[i - 1] == entries[i]);
            }
        }
    }
}

/// Appending one entry resolves exactly the names that missed before and
/// now match the new entry; every earlier entry still wins.
pub proof fn lemma_lookup_push(entries: Seq<(String, i32)>, entry: (String, i32), name: Seq<char>)
    ensures
        spec_lookup(entries.push(entry), name) == (match spec_lookup(entries, name) {
            Some(loc) => Some(loc),
            None => if entry.0@ == name {
                Some(entry.1)
            } else {
                None
            },
        }),
    decreases entries.len(),
{
    let pushed = entries.push(entry);
    assert(pushed.len() == entries.len() + 1);
    if entries.len() == 0 {
        assert(pushed[0] == entry);
        assert(pushed.drop_first() =~= entries);
        if entry.0@ == name {
            assert(spec_lookup(pushed, name) == Some(entry.1));
        } else {
            assert(spec_lookup(pushed, name) == spec_lookup(entries, name));
        }
    } else {
        assert(pushed[0] == entries[0]);
        assert(pushed.drop_first() =~= entries.drop_first().push(entry));
        lemma_lookup_push(entries.drop_first(), entry, name);
        if entries[0].0@ == name {
            assert(spec_lookup(pushed, name) == Some(entries[0].1));
            assert(spec_lookup(entries, name) == Some(entries[0].1));
        } else {
            assert(spec_lookup(pushed, name) == spec_lookup(
                entries.drop_first().push(entry),
                name,
            ));
            assert(spec_lookup(entries, name) == spec_lookup(entries.drop_first(), name));
        }
    }
}

/// If the first `i` entries miss, the lookup's outcome is decided by the
/// remaining entries.
proof fn lemma_lookup_skip(entries: Seq<(String, i32)>, i: int, name: Seq<char>)
    requires
        0 <= i <= entries.len(),
        forall|j: int| 0 <= j < i ==> (#[trigger] entries[j]).0@ != name,
    ensures
        spec_lookup(entries, name) == spec_lookup(entries.skip(i), name),
    decreases i,
{
    if i > 0 {
        lemma_lookup_skip(entries.drop_first(), i - 1, name);
        assert(entries.drop_first().skip(i - 1) =~= entries.skip(i));
    } else {
        assert(entries.skip(0) =~= entries);
    }
}

/// Link state and uniform-location cache of one shader program. The host
/// compiles the stages and links the handle — aborting on a compile or
/// link failure, which is fatal — and consults the cache before asking the
/// graphics API for a uniform location.
pub struct ShaderProgram {
    uniforms: Vec<(String, i32)>,
    linked: bool,
}

impl ShaderProgram {
    /// The cached entries, oldest first.
    pub closed spec fn cache(self) -> Seq<(String, i32)> {
        self.uniforms@
    }

    /// Whether the program has been linked.
    pub closed spec fn spec_linked(self) -> bool {
        self.linked
    }

    /// No name is cached twice, so a cached location is never overwritten.
    pub closed spec fn wf(self) -> bool {
        forall|i: int, j: int|
            0 <= i < j < self.uniforms@.len() ==> (#[trigger] self.uniforms@[i]).0@ != (
            #[trigger] self.uniforms@[j]).0@
    }

    /// A new program: not linked, nothing cached.
    pub fn new() -> (prog: ShaderProgram)
        ensures
            prog.wf(),
            !prog.spec_linked(),
            prog.cache() == Seq::<(String, i32)>::empty(),
    {
        ShaderProgram { uniforms: Vec::new(), linked: false }
    }

    /// Whether the program has been linked.
    pub fn linked(&self) -> (l: bool)
        ensures
            l == self.spec_linked(),
    {
        self.linked
    }

    /// Records that the host linked the program. The host must only call
    /// this after a successful link; a failed link is fatal and never
    /// reaches this point.
    pub fn link(&mut self)
        requires
            old(self).wf(),
        ensures
            final(self).wf(),
            final(self).spec_linked(),
            final(self).cache() == old(self).cache(),
    {
        self.linked = true;
    }

    /// The cached location of a uniform name, if one was ever resolved.
    pub fn cached_location(&self, name: &String) -> (loc: Option<i32>)
        ensures
            loc == spec_lookup(self.cache(), name@),
    {
        let n = self.uniforms.len();
        let mut i: usize = 0;
        while i < n
            invariant
                n == self.uniforms@.len(),
                i <= n,
                forall|j: int| 0 <= j < i ==> (#[trigger] self.uniforms@[j]).0@ != name@,
            decreases n - i,
        {
            if self.uniforms[i].0 == *name {
                proof {
                    lemma_lookup_skip(self.uniforms@, i as int, name@);
                    assert(self.uniforms@.skip(i as int)[0] == self.uniforms@[i as int]);
                }
                return Some(self.uniforms[i].1);
            }
            i = i + 1;
        }
        proof {
            lemma_lookup_skip(self.uniforms@, n as int, name@);
            assert(self.uniforms@.skip(n as int) =~= Seq::<(String, i32)>::empty());
        }
        None
    }

    /// Caches the location the host resolved for a name that had not been
    /// looked up before. The entry is kept for the program's lifetime.
    pub fn store_location(&mut self, name: String, loc: i32)
        requires
            old(self).wf(),
            spec_lookup(old(self).cache(), name@) is None,
        ensures
            final(self).wf(),
            final(self).spec_linked() == old(self).spec_linked(),
            final(self).cache() == old(self).cache().push((name, loc)),
            spec_lookup(final(self).cache(), name@) == Some(loc),
            forall|n: Seq<char>|
                n != name@ ==> spec_lookup(final(self).cache(), n) == spec_lookup(
                    old(self).cache(),
                    n,
                ),
    {
        proof {
            lemma_lookup_none(old(self).cache(), name@);
        }
        let ghost entry = (name, loc);
        self.uniforms.push((name, loc));
        proof {
            assert(self.uniforms@ =~= old(self).cache().push(entry));
            lemma_lookup_push(old(self).cache(), entry, name@);
            assert forall|n: Seq<char>| n != name@ implies spec_lookup(self.uniforms@, n)
                == spec_lookup(old(self).cache(), n) by {
                lemma_lookup_push(old(self).cache(), entry, n);
            }
        }
    }
}

} // verus!
