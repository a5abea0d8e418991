use vstd::prelude::*;

verus! {

/// `s[i..j]` is one of the comma-separated fields of `s`.
pub open spec fn is_field(s: Seq<char>, i: int, j: int) -> bool {
    &&& 0 <= i <= j <= s.len()
    &&& (i == 0 || s[i - 1] == ',')
    &&& (j == s.len() || s[j] == ',')
    &&& forall|k: int| i <= k < j ==> s[k] != ','
}

/// `name` is one of the comma-separated fields of `list`.
pub open spec fn lists_module(list: Seq<char>, name: Seq<char>) -> bool {
    exists|i: int, j: int| is_field(list, i, j) && list.subrange(i, j) == name
}

/// A comma-free stretch `s[start..end]` that begins a field and ends at a comma
/// or at the end of `s` is a field, and the only one that ends at `end`.
proof fn lemma_field_ending_at(s: Seq<char>, start: int, end: int)
    requires
        0 <= start <= end <= s.len(),
        start == 0 || s[start - 1] == ',',
        end == s.len() || s[end] == ',',
        forall|k: int| start <= k < end ==> s[k] != ',',
    ensures
        is_field(s, start, end),
        forall|a: int| is_field(s, a, end) ==> a == start,
{
    assert forall|a: int| is_field(s, a, end) implies a == start by {
        if a < start {
            assert(s[start - 1] != ',');
        } else if a > start {
            assert(s[a - 1] != ',');
        }
    }
}

fn chars_of(s: &str) -> (r: Vec<char>)
    ensures
        r@ == s@,
{
    let n = s.unicode_len();
    let mut r: Vec<char> = Vec::new();
    let mut i: usize = 0;
    while i < n
        invariant
            n == s@.len(),
            i <= n,
            r@ == s@.subrange(0, i as int),
        decreases n - i,
    {
        r.push(s.get_char(i));
        i = i + 1;
    }
    assert(r@ == s@);
    r
}

fn segment_equals(s: &Vec<char>, start: usize, end: usize, name: &Vec<char>) -> (r: bool)
    requires
        start <= end <= s@.len(),
    ensures
        r == (s@.subrange(start as int, end as int) == name@),
{
    if end - start != name.len() {
        return false;
    }
    let mut k: usize = 0;
    while k < name.len()
        invariant
            start <= end <= s@.len(),
            end - start == name@.len(),
            k <= name@.len(),
            forall|m: int| 0 <= m < k ==> s@[start + m] == name@[m],
        decreases name@.len() - k,
    {
        if s[start + k] != name[k] {
            assert(s@.subrange(start as int, end as int)[k as int] != name@[k as int]);
            return false;
        }
        k = k + 1;
    }
    assert(s@.subrange(start as int, end as int) == name@);
    true
}

/// Whether `name` is one of the comma-separated entries of `list` (the
/// kernel's listing of active security modules).
pub fn is_module_listed(list: &str, name: &str) -> (r: bool)
    ensures
        r == lists_module(list@, name@),
{
    let s = chars_of(list);
    let nm = chars_of(name);
    let n = s.len();
    let mut found = false;
    let mut start: usize = 0;
    let mut i: usize = 0;
    while i < n
        invariant
            n == s@.len(),
            start <= i <= n,
            start == 0 || s@[start - 1] == ',',
            forall|k: int| start <= k < i ==> s@[k] != ',',
            found ==> lists_module(s@, nm@),
            !found ==> forall|a: int, b: int|
                is_field(s@, a, b) && b < i ==> s@.subrange(a, b) != nm@,
        decreases n - i,
    {
        if s[i] == ',' {
            let eq = segment_equals(&s, start, i, &nm);
            proof {
                lemma_field_ending_at(s@, start as int, i as int);
            }
            if eq {
                found = true;
            }
            start = i + 1;
        }
        i = i + 1;
    }
    let eq = segment_equals(&s, start, n, &nm);
    proof {
        lemma_field_ending_at(s@, start as int, n as int);
    }
    eq || found
}

} // verus!
