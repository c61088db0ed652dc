//! Decorated kernel names.
//!
//! A user-supplied resource name (ASCII) is normalized by stripping any
//! leading `/` characters and trailing NUL characters, then decorated with
//! three distinct prefixes to form the kernel names of the mutex
//! semaphore, the counter semaphore and the shared-memory object. All
//! three are derived from the same user name, so every process that opens
//! the same resource name reaches the same three kernel objects.

use vstd::prelude::*;
use vstd::string::StrSliceExecFns;
use vstd::string::StringExecFns;

verus! {

/// The user name with every leading `/` removed.
pub open spec fn strip_leading_slashes(s: Seq<char>) -> Seq<char>
    decreases s.len(),
{
    if s.len() > 0 && s[0] == '/' {
        strip_leading_slashes(s.subrange(1, s.len() as int))
    } else {
        s
    }
}

/// The user name with every trailing NUL removed.
pub open spec fn strip_trailing_nuls(s: Seq<char>) -> Seq<char>
    decreases s.len(),
{
    if s.len() > 0 && s[s.len() - 1] == '\0' {
        strip_trailing_nuls(s.subrange(0, s.len() - 1))
    } else {
        s
    }
}

/// The normalized form of a user name: no leading `/`, no trailing NUL.
pub open spec fn normalized(s: Seq<char>) -> Seq<char> {
    strip_trailing_nuls(strip_leading_slashes(s))
}

/// The kernel name of the mutex semaphore for a user name.
pub open spec fn mutex_name_of(s: Seq<char>) -> Seq<char> {
    "/sem_mutex_"@ + normalized(s)
}

/// The kernel name of the counter semaphore for a user name.
pub open spec fn counter_name_of(s: Seq<char>) -> Seq<char> {
    "sem_counter_"@ + normalized(s)
}

/// The kernel name of the shared-memory object for a user name.
pub open spec fn segment_name_of(s: Seq<char>) -> Seq<char> {
    "shm_"@ + normalized(s)
}

proof fn lemma_strip_leading_at(s: Seq<char>, i: int)
    requires
        0 <= i <= s.len(),
        forall|k: int| 0 <= k < i ==> s[k] == '/',
        i == s.len() || s[i] != '/',
    ensures
        strip_leading_slashes(s) == s.subrange(i, s.len() as int),
    decreases i,
{
    if i == 0 {
        assert(s.subrange(0, s.len() as int) =~= s);
    } else {
        let t = s.subrange(1, s.len() as int);
        lemma_strip_leading_at(t, i - 1);
        assert(t.subrange(i - 1, t.len() as int) =~= s.subrange(i, s.len() as int));
    }
}

proof fn lemma_strip_trailing_at(s: Seq<char>, j: int)
    requires
        0 <= j <= s.len(),
        forall|k: int| j <= k < s.len() ==> s[k] == '\0',
        j == 0 || s[j - 1] != '\0',
    ensures
        strip_trailing_nuls(s) == s.subrange(0, j),
    decreases s.len(),
{
    if j == s.len() {
        assert(s.subrange(0, s.len() as int) =~= s);
    } else {
        let t = s.subrange(0, s.len() - 1);
        lemma_strip_trailing_at(t, j);
        assert(t.subrange(0, j) =~= s.subrange(0, j));
    }
}

/// The normalized form of an ASCII user name: every leading `/` and every
/// trailing NUL stripped.
pub fn normalize_name(name: &str) -> (r: String)
    requires
        name.is_ascii(),
    ensures
        r@ == normalized(name@),
        r.is_ascii(),
    {
    let len = name.unicode_len();
    let mut start: usize = 0;
    while start < len && name.get_char(start) == '/'
        invariant
            name.is_ascii(),
            len == name@.len(),
            0 <= start <= len,
            forall|k: int| 0 <= k < start ==> name@[k] == '/',
        decreases len - start,
    {
        start = start + 1;
    }
    let mut end: usize = len;
    while end > start && name.get_char(end - 1) == '\0'
        invariant
            name.is_ascii(),
            len == name@.len(),
            0 <= start <= end <= len,
            forall|k: int| end <= k < len ==> name@[k] == '\0',
        decreases end,
    {
        end = end - 1;
    }
    let sub = name.substring_ascii(start, end);
    proof {
        lemma_strip_leading_at(name@, start as int);
        let stripped = name@.subrange(start as int, len as int);
        lemma_strip_trailing_at(stripped, end - start);
        assert(stripped.subrange(0, end - start) =~= name@.subrange(
            start as int,
            end as int,
        ));
    }
    sub.to_owned()
}

/// The kernel name of the mutex semaphore for an ASCII user name.
pub fn mutex_name(name: &str) -> (r: String)
    requires
        name.is_ascii(),
    ensures
        r@ == mutex_name_of(name@),
    {
    let n = normalize_name(name);
    String::from_str("/sem_mutex_").concat(n.as_str())
}

/// The kernel name of the counter semaphore for an ASCII user name.
pub fn counter_name(name: &str) -> (r: String)
    requires
        name.is_ascii(),
    ensures
        r@ == counter_name_of(name@),
    {
    let n = normalize_name(name);
    String::from_str("sem_counter_").concat(n.as_str())
}

/// The kernel name of the shared-memory object for an ASCII user name.
pub fn segment_name(name: &str) -> (r: String)
    requires
        name.is_ascii(),
    ensures
        r@ == segment_name_of(name@),
    {
    let n = normalize_name(name);
    String::from_str("shm_").concat(n.as_str())
}

/// The three decorated names of one user name are pairwise distinct, so
/// the mutex, the counter and the shared-memory object can never collide
/// in the kernel namespaces.
pub proof fn lemma_decorated_names_distinct(s: Seq<char>)
    ensures
        mutex_name_of(s) != counter_name_of(s),
        mutex_name_of(s) != segment_name_of(s),
        counter_name_of(s) != segment_name_of(s),
{
    reveal_strlit("/sem_mutex_");
    reveal_strlit("sem_counter_");
    reveal_strlit("shm_");
    assert(mutex_name_of(s).len() == 11 + normalized(s).len());
    assert(counter_name_of(s).len() == 12 + normalized(s).len());
    assert(segment_name_of(s).len() == 4 + normalized(s).len());
}

/// Decoration is injective on normalized names: two user names reach the
/// same kernel object exactly when their normalized forms agree. Without
/// this, attachment to one resource could diverge across processes.
pub proof fn lemma_decoration_injective(a: Seq<char>, b: Seq<char>)
    ensures
        (mutex_name_of(a) == mutex_name_of(b)) <==> (normalized(a) == normalized(b)),
        (counter_name_of(a) == counter_name_of(b)) <==> (normalized(a) == normalized(b)),
        (segment_name_of(a) == segment_name_of(b)) <==> (normalized(a) == normalized(b)),
{
    lemma_prefix_injective("/sem_mutex_"@, normalized(a), normalized(b));
    lemma_prefix_injective("sem_counter_"@, normalized(a), normalized(b));
    lemma_prefix_injective("shm_"@, normalized(a), normalized(b));
}

proof fn lemma_prefix_injective(p: Seq<char>, x: Seq<char>, y: Seq<char>)
    ensures
        (p + x == p + y) <==> (x == y),
{
    if p + x == p + y {
        assert(x =~= (p + x).subrange(p.len() as int, (p + x).len() as int));
        assert(y =~= (p + y).subrange(p.len() as int, (p + y).len() as int));
    }
}

} // verus!
