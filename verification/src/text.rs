//! Character-level comparisons on strings and file-name extensions.
use vstd::prelude::*;

verus! {

/// Whether `s` holds a `'.'` at some index in `lo..s.len()`.
pub open spec fn has_dot_from(s: Seq<char>, lo: int) -> bool {
    exists|i: int| lo <= i < s.len() && s[i] == '.'
}

/// Whether `k` is the index of the last `'.'` of `s`.
pub open spec fn is_last_dot(s: Seq<char>, k: int) -> bool {
    &&& 0 <= k < s.len()
    &&& s[k] == '.'
    &&& forall|j: int| k < j < s.len() ==> s[j] != '.'
}

/// The extension of a file name, as `std::path::Path::extension` documents it: none when
/// the name holds no `'.'`, none when the only `'.'` is its first character, and otherwise
/// the characters after the last `'.'`.
pub open spec fn extension_of(name: Seq<char>) -> Option<Seq<char>> {
    if !has_dot_from(name, 0) {
        None
    } else if name[0] == '.' && !has_dot_from(name, 1) {
        None
    } else {
        let k = choose|k: int| is_last_dot(name, k);
        Some(name.subrange(k + 1, name.len() as int))
    }
}

/// Compares two strings character by character.
pub fn str_eq(a: &str, b: &str) -> (r: bool)
    ensures
        r == (a@ == b@),
{
    let n = a.unicode_len();
    if n != b.unicode_len() {
        return false;
    }
    let mut i: usize = 0;
    while i < n
        invariant
            n == a@.len(),
            n == b@.len(),
            i <= n,
            forall|j: int| 0 <= j < i ==> a@[j] == b@[j],
        decreases n - i,
    {
        if a.get_char(i) != b.get_char(i) {
            return false;
        }
        i = i + 1;
    }
    proof {
        assert(a@ =~= b@);
    }
    true
}

/// The index of the last `'.'` in `s`, if it holds one.
pub fn last_dot(s: &str) -> (r: Option<usize>)
    ensures
        r is None <==> !has_dot_from(s@, 0),
        r matches Some(k) ==> is_last_dot(s@, k as int),
{
    let n = s.unicode_len();
    let mut k: usize = n;
    while k > 0
        invariant
            n == s@.len(),
            k <= n,
            forall|j: int| k <= j < n ==> s@[j] != '.',
        decreases k,
    {
        if s.get_char(k - 1) == '.' {
            return Some(k - 1);
        }
        k = k - 1;
    }
    None
}

/// Whether the file name `name` has the extension `ext`, as
/// `Path::new(name).extension() == Some(ext)` decides it for the name of a directory entry
/// (one without separators, and neither `.` nor `..`, which a listing never yields).
pub fn has_extension(name: &str, ext: &str) -> (r: bool)
    ensures
        r == (extension_of(name@) == Some(ext@)),
{
    let n = name.unicode_len();
    let k = match last_dot(name) {
        None => return false,
        Some(k) => k,
    };
    assert(is_last_dot(name@, k as int));
    proof {
        assert(has_dot_from(name@, 0));
        let c = choose|c: int| is_last_dot(name@, c);
        assert(is_last_dot(name@, c));
        assert(c == k as int);
        if k > 0 {
            assert(name@[k as int] == '.');
            assert(has_dot_from(name@, 1));
        }
    }
    if k == 0 {
        proof {
            assert(!has_dot_from(name@, 1));
        }
        return false;
    }
    let m = ext.unicode_len();
    if n - (k + 1) != m {
        proof {
            assert(name@.subrange(k + 1, n as int).len() != ext@.len());
        }
        return false;
    }
    let mut i: usize = 0;
    while i < m
        invariant
            n == name@.len(),
            m == ext@.len(),
            k + 1 + m == n,
            i <= m,
            extension_of(name@) == Some(name@.subrange(k + 1, n as int)),
            forall|j: int| 0 <= j < i ==> name@[k + 1 + j] == ext@[j],
        decreases m - i,
    {
        if name.get_char(k + 1 + i) != ext.get_char(i) {
            proof {
                assert(name@.subrange(k + 1, n as int)[i as int] != ext@[i as int]);
            }
            return false;
        }
        i = i + 1;
    }
    proof {
        assert(name@.subrange(k + 1, n as int) =~= ext@);
    }
    true
}

} // verus!
