use vstd::prelude::*;
use vstd::string::*;

verus! {

/// `p` occurs in `s` starting at position `i`.
pub open spec fn occurs_at(s: Seq<char>, p: Seq<char>, i: int) -> bool {
    0 <= i && i + p.len() <= s.len() && s.subrange(i, i + p.len()) == p
}

/// `p` occurs somewhere in `s` (the empty text occurs everywhere).
pub open spec fn occurs_in(s: Seq<char>, p: Seq<char>) -> bool {
    exists|i: int| occurs_at(s, p, i)
}

/// `i` is the position of the first occurrence of `p` in `s`.
pub open spec fn is_first_occurrence(s: Seq<char>, p: Seq<char>, i: int) -> bool {
    occurs_at(s, p, i) && forall|j: int| 0 <= j < i ==> !occurs_at(s, p, j)
}

/// `s` with the first occurrence of `p` replaced by `by`; `s` itself when `p`
/// does not occur in it.
pub open spec fn replace_first(s: Seq<char>, p: Seq<char>, by: Seq<char>) -> Seq<char> {
    if occurs_in(s, p) {
        let i = choose|i: int| is_first_occurrence(s, p, i);
        s.subrange(0, i) + by + s.subrange(i + p.len(), s.len() as int)
    } else {
        s
    }
}

/// Splices shared code into a fragment source: the first placeholder of
/// `libraries` (in list order) that occurs in `s` has its first occurrence
/// replaced by its code; the other placeholders are left alone.
pub open spec fn spliced(s: Seq<char>, libraries: Seq<(Seq<char>, Seq<char>)>) -> Seq<char>
    decreases libraries.len(),
{
    if libraries.len() == 0 {
        s
    } else if occurs_in(s, libraries[0].0) {
        replace_first(s, libraries[0].0, libraries[0].1)
    } else {
        spliced(s, libraries.drop_first())
    }
}

/// The placeholder and code of each shared library, as character sequences.
pub open spec fn library_view(libraries: Seq<(String, String)>) -> Seq<(Seq<char>, Seq<char>)> {
    libraries.map_values(|e: (String, String)| (e.0@, e.1@))
}

/// Whether `p` occurs in `s` at `i`, where `i + p.len()` does not pass the end.
fn occurs_here(s: &str, p: &str, i: usize, p_len: usize, s_len: usize) -> (r: bool)
    requires
        p_len == p@.len(),
        s_len == s@.len(),
        i + p_len <= s_len,
    ensures
        r == occurs_at(s@, p@, i as int),
{
    let mut k: usize = 0;
    while k < p_len
        invariant
            p_len == p@.len(),
            s_len == s@.len(),
            i + p_len <= s_len,
            k <= p_len,
            forall|t: int| 0 <= t < k ==> s@[i + t] == p@[t],
        decreases p_len - k,
    {
        if s.get_char(i + k) != p.get_char(k) {
            assert(s@.subrange(i as int, i + p_len)[k as int] != p@[k as int]);
            return false;
        }
        k = k + 1;
    }
    assert(s@.subrange(i as int, i + p_len) =~= p@);
    true
}

/// The position of the first occurrence of `p` in `s`, if there is one.
pub fn find_first(s: &str, p: &str) -> (r: Option<usize>)
    ensures
        match r {
            Some(i) => is_first_occurrence(s@, p@, i as int),
            None => !occurs_in(s@, p@),
        },
{
    let s_len = s.unicode_len();
    let p_len = p.unicode_len();
    if p_len > s_len {
        return None;
    }
    let last = s_len - p_len;
    let mut i: usize = 0;
    loop
        invariant
            s_len == s@.len(),
            p_len == p@.len(),
            last == s_len - p_len,
            i <= last,
            forall|j: int| 0 <= j < i ==> !occurs_at(s@, p@, j),
        decreases last - i,
    {
        if occurs_here(s, p, i, p_len, s_len) {
            return Some(i);
        }
        if i == last {
            return None;
        }
        i = i + 1;
    }
}

/// Splices the first of `libraries` whose placeholder occurs in `source` into
/// it, at the placeholder's first occurrence. Each entry of `libraries` is a
/// placeholder and the code that replaces it.
pub fn splice_library(source: &str, libraries: &Vec<(String, String)>) -> (r: String)
    ensures
        r@ == spliced(source@, library_view(libraries@)),
{
    let ghost all = library_view(libraries@);
    let mut k: usize = 0;
    assert(all.subrange(0, all.len() as int) =~= all);
    while k < libraries.len()
        invariant
            all == library_view(libraries@),
            k <= libraries.len(),
            spliced(source@, all) == spliced(source@, all.subrange(k as int, all.len() as int)),
        decreases libraries.len() - k,
    {
        let ghost rest = all.subrange(k as int, all.len() as int);
        let phrase = libraries[k].0.as_str();
        match find_first(source, phrase) {
            Some(i) => {
                let code = libraries[k].1.as_str();
                let p_len = phrase.unicode_len();
                let s_len = source.unicode_len();
                let before = source.substring_char(0, i);
                let after = source.substring_char(i + p_len, s_len);
                let r = String::from_str(before).concat(code).concat(after);
                proof {
                    assert(rest[0] == all[k as int]);
                    let j = choose|j: int| is_first_occurrence(source@, phrase@, j);
                    if j < i {
                    } else if i < j {
                    }
                    assert(j == i);
                }
                return r;
            },
            None => {
                proof {
                    assert(rest[0] == all[k as int]);
                    assert(rest.drop_first() =~= all.subrange(k + 1, all.len() as int));
                }
            },
        }
        k = k + 1;
    }
    proof {
        assert(all.subrange(k as int, all.len() as int) =~= Seq::<(Seq<char>, Seq<char>)>::empty());
    }
    String::from_str(source)
}

} // verus!
