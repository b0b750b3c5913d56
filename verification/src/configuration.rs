//! The result of a distribution-configuration query.
//!
//! The native query hands back an array of NUL-terminated `KEY=VALUE` byte
//! strings. [`EnvironmentVariables`] owns those entries as plain byte
//! vectors; each lookup scans its entry afresh, stopping at the first NUL
//! and splitting at the first `=`, exactly as the raw buffer semantics
//! dictate. The platform layer that reads the native allocation converts it
//! to these owned values and frees it with the matching deallocator.

use vstd::prelude::*;

use crate::flags::WSL_DISTRIBUTION_FLAGS;

verus! {

/// The bytes of an entry before its first NUL: the whole entry when no NUL
/// is present.
pub open spec fn entry_content(e: Seq<u8>) -> Seq<u8>
    decreases e.len(),
{
    if e.len() == 0 {
        Seq::empty()
    } else if e[0] == 0u8 {
        Seq::empty()
    } else {
        seq![e[0]] + entry_content(e.drop_first())
    }
}

/// The key of an entry's content: the bytes before the first `=`, or the
/// whole content when no `=` is present.
pub open spec fn key_of(c: Seq<u8>) -> Seq<u8>
    decreases c.len(),
{
    if c.len() == 0 {
        Seq::empty()
    } else if c[0] == 61u8 {
        Seq::empty()
    } else {
        seq![c[0]] + key_of(c.drop_first())
    }
}

/// The value of an entry's content: the bytes after the first `=`, or empty
/// when no `=` is present.
pub open spec fn value_of(c: Seq<u8>) -> Seq<u8>
    decreases c.len(),
{
    if c.len() == 0 {
        Seq::empty()
    } else if c[0] == 61u8 {
        c.drop_first()
    } else {
        value_of(c.drop_first())
    }
}

/// The content of an entry is its prefix up to the first NUL: `i` is the
/// index of the first NUL, or the length when there is none.
pub proof fn lemma_entry_content_prefix(e: Seq<u8>, i: int)
    requires
        0 <= i <= e.len(),
        forall|j: int| 0 <= j < i ==> e[j] != 0u8,
        i == e.len() || e[i] == 0u8,
    ensures
        entry_content(e) == e.subrange(0, i),
    decreases e.len(),
{
    if i == 0 {
        assert(e.subrange(0, 0) =~= Seq::<u8>::empty());
    } else {
        assert(e[0] != 0u8);
        lemma_entry_content_prefix(e.drop_first(), i - 1);
        assert(entry_content(e) =~= e.subrange(0, i));
    }
}

/// Splitting at the first `=`: when content `c` has its first `=` at index
/// `i`, the key is everything before it and the value everything after it.
pub proof fn lemma_split_at_first_equals(c: Seq<u8>, i: int)
    requires
        0 <= i < c.len(),
        c[i] == 61u8,
        forall|j: int| 0 <= j < i ==> c[j] != 61u8,
    ensures
        key_of(c) == c.subrange(0, i),
        value_of(c) == c.subrange(i + 1, c.len() as int),
    decreases c.len(),
{
    if i == 0 {
        assert(key_of(c) =~= c.subrange(0, 0));
        assert(value_of(c) =~= c.subrange(1, c.len() as int));
    } else {
        lemma_split_at_first_equals(c.drop_first(), i - 1);
        assert(key_of(c) =~= c.subrange(0, i));
        assert(value_of(c) =~= c.subrange(i + 1, c.len() as int));
    }
}

/// Splitting without `=`: when content `c` holds no `=`, the key is the
/// whole content and the value is empty.
pub proof fn lemma_split_no_equals(c: Seq<u8>)
    requires
        forall|j: int| 0 <= j < c.len() ==> c[j] != 61u8,
    ensures
        key_of(c) == c,
        value_of(c) == Seq::<u8>::empty(),
    decreases c.len(),
{
    if c.len() > 0 {
        lemma_split_no_equals(c.drop_first());
        assert(key_of(c) =~= c);
    }
}

/// Copies `e[from..to]` into a fresh vector.
fn copy_range(e: &Vec<u8>, from: usize, to: usize) -> (r: Vec<u8>)
    requires
        from <= to <= e@.len(),
    ensures
        r@ == e@.subrange(from as int, to as int),
{
    let mut r: Vec<u8> = Vec::new();
    let mut i: usize = from;
    while i < to
        invariant
            from <= i <= to <= e@.len(),
            r@ == e@.subrange(from as int, i as int),
        decreases to - i,
    {
        r.push(e[i]);
        proof {
            assert(r@ =~= e@.subrange(from as int, i + 1));
        }
        i = i + 1;
    }
    r
}

/// The environment variables of a distribution-configuration query: an
/// owned array of `KEY=VALUE` byte-string entries.
#[derive(Debug)]
pub struct EnvironmentVariables {
    entries: Vec<Vec<u8>>,
}

impl EnvironmentVariables {
    /// The entries as byte sequences, for use in specifications.
    pub closed spec fn entries_model(&self) -> Seq<Seq<u8>> {
        self.entries.deep_view()
    }

    /// Create an empty array of environment variables.
    pub fn new() -> (r: EnvironmentVariables)
        ensures
            r.entries_model() == Seq::<Seq<u8>>::empty(),
    {
        let entries: Vec<Vec<u8>> = Vec::new();
        proof {
            assert(entries.deep_view() =~= Seq::<Seq<u8>>::empty());
        }
        EnvironmentVariables { entries }
    }

    /// Take ownership of entries, each the raw bytes of one `KEY=VALUE`
    /// string (conventionally NUL-terminated; lookups stop at the first NUL
    /// either way).
    pub fn from_entries(entries: Vec<Vec<u8>>) -> (r: EnvironmentVariables)
        ensures
            r.entries_model() == entries.deep_view(),
    {
        EnvironmentVariables { entries }
    }

    /// Get the number of environment variables.
    pub fn len(&self) -> (n: usize)
        ensures
            n == self.entries_model().len(),
    {
        self.entries.len()
    }

    /// Get the key/value pair at `index`: absent when out of range,
    /// otherwise the entry's bytes before its first NUL, split at the first
    /// `=` (no `=`: the full string and an empty value).
    pub fn get(&self, index: usize) -> (r: Option<(Vec<u8>, Vec<u8>)>)
        ensures
            r is Some <==> index < self.entries_model().len(),
            r matches Some(kv) ==> {
                let c = entry_content(self.entries_model()[index as int]);
                kv.0@ == key_of(c) && kv.1@ == value_of(c)
            },
    {
        if index >= self.entries.len() {
            return None;
        }
        let e = &self.entries[index];
        let len = e.len();

        let mut n: usize = 0;
        while n < len && e[n] != 0
            invariant
                n <= len,
                len == e@.len(),
                forall|j: int| 0 <= j < n ==> e@[j] != 0u8,
            decreases len - n,
        {
            n = n + 1;
        }
        proof {
            lemma_entry_content_prefix(e@, n as int);
        }
        let ghost c = entry_content(e@);

        let mut q: usize = 0;
        while q < n && e[q] != 61
            invariant
                q <= n <= len,
                len == e@.len(),
                forall|j: int| 0 <= j < q ==> e@[j] != 61u8,
            decreases n - q,
        {
            q = q + 1;
        }

        let key = copy_range(e, 0, q);
        let value = if q < n {
            copy_range(e, q + 1, n)
        } else {
            Vec::new()
        };
        proof {
            assert(forall|j: int| 0 <= j < c.len() ==> c[j] == e@[j]);
            if q < n {
                lemma_split_at_first_equals(c, q as int);
                assert(key@ =~= key_of(c));
                assert(value@ =~= value_of(c));
            } else {
                lemma_split_no_equals(c);
                assert(key@ =~= key_of(c));
            }
            assert(self.entries_model()[index as int] == e@);
        }
        Some((key, value))
    }

    /// All key/value pairs, in array order.
    pub fn pairs(&self) -> (r: Vec<(Vec<u8>, Vec<u8>)>)
        ensures
            r@.len() == self.entries_model().len(),
            forall|i: int| 0 <= i < r@.len() ==> {
                let c = entry_content(self.entries_model()[i]);
                (#[trigger] r@[i]).0@ == key_of(c) && r@[i].1@ == value_of(c)
            },
    {
        let mut r: Vec<(Vec<u8>, Vec<u8>)> = Vec::new();
        let n = self.len();
        let mut i: usize = 0;
        while i < n
            invariant
                i <= n,
                n == self.entries_model().len(),
                r@.len() == i,
                forall|k: int| 0 <= k < i ==> {
                    let c = entry_content(self.entries_model()[k]);
                    (#[trigger] r@[k]).0@ == key_of(c) && r@[k].1@ == value_of(c)
                },
            decreases n - i,
        {
            let kv = self.get(i);
            match kv {
                Some(p) => {
                    r.push(p);
                }
                None => {
                    proof {
                        assert(false);  // get returns a pair for every index below the length
                    }
                }
            }
            i = i + 1;
        }
        r
    }

    /// Iterate over the key/value pairs from the start of the array.
    pub fn iter(&self) -> (r: EnvironmentVariablesIter)
        ensures
            r.vars_model() == self.entries_model(),
            r.index_model() == 0,
    {
        EnvironmentVariablesIter { vars: EnvironmentVariables { entries: clone_entries(&self.entries) }, index: 0 }
    }
}

impl Default for EnvironmentVariables {
    /// The default value is the empty array.
    fn default() -> (r: EnvironmentVariables)
        ensures
            r.entries_model() == Seq::<Seq<u8>>::empty(),
    {
        EnvironmentVariables::new()
    }
}

/// Clones entry vectors one by one.
fn clone_entries(entries: &Vec<Vec<u8>>) -> (r: Vec<Vec<u8>>)
    ensures
        r.deep_view() == entries.deep_view(),
{
    let mut r: Vec<Vec<u8>> = Vec::new();
    let n = entries.len();
    let mut i: usize = 0;
    while i < n
        invariant
            i <= n,
            n == entries@.len(),
            r@.len() == i,
            forall|k: int| 0 <= k < i ==> r.deep_view()[k] == entries.deep_view()[k],
        decreases n - i,
    {
        let e = copy_range(&entries[i], 0, entries[i].len());
        r.push(e);
        i = i + 1;
    }
    proof {
        assert(r.deep_view() =~= entries.deep_view());
    }
    r
}

/// Iterator over the pairs of an [`EnvironmentVariables`] value: a lazy,
/// finite sequence in array order, restartable by asking for a fresh one.
pub struct EnvironmentVariablesIter {
    vars: EnvironmentVariables,
    index: usize,
}

impl EnvironmentVariablesIter {
    /// The entries iterated over, for use in specifications.
    pub closed spec fn vars_model(&self) -> Seq<Seq<u8>> {
        self.vars.entries_model()
    }

    /// The position of the next pair, for use in specifications.
    pub closed spec fn index_model(&self) -> int {
        self.index as int
    }

    /// The next key/value pair, absent once the array is exhausted.
    pub fn next(&mut self) -> (r: Option<(Vec<u8>, Vec<u8>)>)
        ensures
            final(self).vars_model() == old(self).vars_model(),
            r is Some <==> old(self).index_model() < old(self).vars_model().len(),
            r matches Some(kv) ==> {
                let c = entry_content(old(self).vars_model()[old(self).index_model()]);
                kv.0@ == key_of(c) && kv.1@ == value_of(c)
                    && final(self).index_model() == old(self).index_model() + 1
            },
            r is None ==> final(self).index_model() == old(self).index_model(),
    {
        let n = self.vars.len();
        if self.index < n {
            let kv = self.vars.get(self.index);
            self.index = self.index + 1;
            kv
        } else {
            None
        }
    }
}

/// The result of a distribution-configuration query.
#[derive(Debug)]
pub struct Configuration {
    /// The version of WSL for which this distribution is configured.
    pub version: u32,
    /// The default user ID used when launching new WSL sessions for this
    /// distribution.
    pub default_uid: u32,
    /// The flags governing the behavior of this distribution.
    pub flags: WSL_DISTRIBUTION_FLAGS,
    /// The default environment variable strings used when launching new WSL
    /// sessions for this distribution.
    pub default_environment_variables: EnvironmentVariables,
}

impl Default for Configuration {
    /// The default configuration: zero version and user ID, default flags,
    /// and no environment variables.
    fn default() -> (r: Configuration)
        ensures
            r.version == 0,
            r.default_uid == 0,
            r.flags.0 == 0x7,
            r.default_environment_variables.entries_model() == Seq::<Seq<u8>>::empty(),
    {
        Configuration {
            version: 0,
            default_uid: 0,
            flags: WSL_DISTRIBUTION_FLAGS::DEFAULT(),
            default_environment_variables: EnvironmentVariables::new(),
        }
    }
}

} // verus!
