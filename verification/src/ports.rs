//! Port-name handling: the device is matched by its fixed name token, every
//! other input port is a merge candidate, and port names that arrive
//! prefixed with the owning client's name are cleaned up first.

use vstd::prelude::*;

verus! {

use vstd::string::StrSliceExecFns;

/// The pattern occurs in `s` starting at position `i`.
pub open spec fn matches_at(s: Seq<char>, pat: Seq<char>, i: int) -> bool {
    &&& 0 <= i
    &&& i + pat.len() <= s.len()
    &&& forall|j: int| 0 <= j < pat.len() ==> s[i + j] == pat[j]
}

/// The pattern occurs somewhere in `s`.
pub open spec fn contains_seq(s: Seq<char>, pat: Seq<char>) -> bool {
    exists|i: int| matches_at(s, pat, i)
}

/// A port name that belongs to the device.
pub open spec fn is_device_name(s: Seq<char>) -> bool {
    contains_seq(s, "Tooro"@)
}

/// A port name that may serve as a merge input: any port that is not the
/// device itself, under either capitalisation of its name token.
pub open spec fn is_merge_candidate(s: Seq<char>) -> bool {
    !contains_seq(s, "Tooro"@) && !contains_seq(s, "tooro"@)
}

/// Position of the first colon in `s`, or `s.len()` when there is none.
pub open spec fn first_colon(s: Seq<char>) -> int
    decreases s.len(),
{
    if s.len() == 0 {
        0
    } else if s[0] == ':' {
        0
    } else {
        1 + first_colon(s.drop_first())
    }
}

/// The name with a leading `<client>:` segment removed, provided the
/// remainder repeats the client name; any other name stays as it is.
pub open spec fn cleaned_name(s: Seq<char>) -> Seq<char> {
    let i = first_colon(s);
    if i < s.len() {
        let client = s.subrange(0, i);
        let rest = s.subrange(i + 1, s.len() as int);
        if client.len() <= rest.len() && rest.subrange(0, i) == client {
            rest
        } else {
            s
        }
    } else {
        s
    }
}

proof fn lemma_first_colon_is(s: Seq<char>, i: int)
    requires
        0 <= i < s.len(),
        s[i] == ':',
        forall|j: int| 0 <= j < i ==> s[j] != ':',
    ensures
        first_colon(s) == i,
    decreases s.len(),
{
    if i == 0 {
    } else {
        let t = s.drop_first();
        assert(t[i - 1] == ':');
        assert forall|j: int| 0 <= j < i - 1 implies t[j] != ':' by {
            assert(s[j + 1] != ':');
        }
        lemma_first_colon_is(t, i - 1);
    }
}

proof fn lemma_no_colon(s: Seq<char>)
    requires
        forall|j: int| 0 <= j < s.len() ==> s[j] != ':',
    ensures
        first_colon(s) == s.len(),
    decreases s.len(),
{
    if s.len() > 0 {
        let t = s.drop_first();
        assert forall|j: int| 0 <= j < t.len() implies t[j] != ':' by {
            assert(s[j + 1] != ':');
        }
        lemma_no_colon(t);
    }
}

/// True when the pattern occurs somewhere in `s`.
pub fn str_contains(s: &str, pat: &str) -> (b: bool)
    ensures
        b == contains_seq(s@, pat@),
{
    let n: usize = s.unicode_len();
    let m: usize = pat.unicode_len();
    if m > n {
        proof {
            assert(!contains_seq(s@, pat@)) by {
                if contains_seq(s@, pat@) {
                    let i = choose|i: int| matches_at(s@, pat@, i);
                    assert(false);
                }
            }
        }
        return false;
    }
    let mut i: usize = 0;
    while i <= n - m
        invariant
            m <= n,
            n == s@.len(),
            m == pat@.len(),
            forall|k: int| 0 <= k < i ==> !matches_at(s@, pat@, k),
        decreases n - m + 1 - i,
    {
        let mut j: usize = 0;
        let mut ok: bool = true;
        while j < m
            invariant
                m <= n,
                n == s@.len(),
                m == pat@.len(),
                i + m <= n,
                j <= m,
                ok == (forall|k: int| 0 <= k < j ==> s@[i + k] == pat@[k]),
            decreases m - j,
        {
            let c1 = s.get_char(i + j);
            let c2 = pat.get_char(j);
            if c1 != c2 {
                ok = false;
            }
            j = j + 1;
        }
        if ok {
            proof {
                assert(matches_at(s@, pat@, i as int));
            }
            return true;
        }
        i = i + 1;
    }
    proof {
        assert(!contains_seq(s@, pat@)) by {
            if contains_seq(s@, pat@) {
                let k = choose|k: int| matches_at(s@, pat@, k);
                assert(!matches_at(s@, pat@, k));
                assert(false);
            }
        }
    }
    false
}

/// True when the name belongs to the device.
pub fn is_device_port(name: &str) -> (b: bool)
    ensures
        b == is_device_name(name@),
{
    str_contains(name, "Tooro")
}

/// True when the name may serve as a merge input.
pub fn is_merge_port(name: &str) -> (b: bool)
    ensures
        b == is_merge_candidate(name@),
{
    !str_contains(name, "Tooro") && !str_contains(name, "tooro")
}

/// Remove the client name part from a port name: systems that enumerate
/// ports as `<client>:<port>` repeat the client name in the port part, and
/// the bare port part is what the device and merge matching work on.
pub fn cleanup_port_name(port_name: String) -> (r: String)
    ensures
        r@ == cleaned_name(port_name@),
{
    let s: &str = port_name.as_str();
    let n: usize = s.unicode_len();
    let mut i: usize = 0;
    while i < n
        invariant
            i <= n,
            n == s@.len(),
            forall|j: int| 0 <= j < i ==> s@[j] != ':',
        ensures
            i <= n,
            n == s@.len(),
            forall|j: int| 0 <= j < i ==> s@[j] != ':',
            i < n ==> s@[i as int] == ':',
        decreases n - i,
    {
        if s.get_char(i) == ':' {
            break ;
        }
        i = i + 1;
    }
    if i == n {
        proof {
            lemma_no_colon(s@);
        }
        return port_name;
    }
    proof {
        lemma_first_colon_is(s@, i as int);
    }
    if n - (i + 1) < i {
        proof {
            assert(cleaned_name(s@) =~= s@);
        }
        return port_name;
    }
    let mut j: usize = 0;
    let mut same: bool = true;
    while j < i
        invariant
            n == s@.len(),
            i < n,
            i <= n - (i + 1),
            j <= i,
            same == (forall|k: int| 0 <= k < j ==> #[trigger] s@[k] == s@[i + 1 + k]),
        decreases i - j,
    {
        let c1 = s.get_char(j);
        let c2 = s.get_char(i + 1 + j);
        if c1 != c2 {
            same = false;
        }
        j = j + 1;
    }
    let ghost client = s@.subrange(0, i as int);
    let ghost rest = s@.subrange(i as int + 1, s@.len() as int);
    if same {
        proof {
            assert(rest.subrange(0, i as int) =~= client);
        }
        let r = s.substring_char(i + 1, n);
        return r.to_owned();
    }
    proof {
        let k = choose|k: int| 0 <= k < i && #[trigger] s@[k] != s@[i + 1 + k];
        assert(rest.subrange(0, i as int)[k] != client[k]);
        assert(cleaned_name(s@) =~= s@);
    }
    port_name
}


/// Index of the first name from position `i` on whose cleaned form belongs
/// to the device; `names.len()` when there is none.
pub open spec fn first_device_at(names: Seq<String>, i: int) -> int
    decreases names.len() - i,
    when 0 <= i <= names.len()
{
    if i >= names.len() {
        names.len() as int
    } else if is_device_name(cleaned_name(names[i]@)) {
        i
    } else {
        first_device_at(names, i + 1)
    }
}

/// The cleaned names of all merge candidates from position `i` on, in order.
pub open spec fn merge_names_at(names: Seq<String>, i: int) -> Seq<Seq<char>>
    decreases names.len() - i,
    when 0 <= i <= names.len()
{
    if i >= names.len() {
        Seq::empty()
    } else if is_merge_candidate(cleaned_name(names[i]@)) {
        seq![cleaned_name(names[i]@)] + merge_names_at(names, i + 1)
    } else {
        merge_names_at(names, i + 1)
    }
}

/// Index of the first name from position `i` on whose cleaned form equals
/// `target`; `names.len()` when there is none.
pub open spec fn first_named_at(names: Seq<String>, target: Seq<char>, i: int) -> int
    decreases names.len() - i,
    when 0 <= i <= names.len()
{
    if i >= names.len() {
        names.len() as int
    } else if cleaned_name(names[i]@) == target {
        i
    } else {
        first_named_at(names, target, i + 1)
    }
}

/// Find the first enumerated port whose cleaned name equals `target`.
pub fn find_port_by_name(names: &Vec<String>, target: &String) -> (r: Option<usize>)
    ensures
        ({
            let d = first_named_at(names@, target@, 0);
            if d < names@.len() {
                r == Some(d as usize)
            } else {
                r is None
            }
        }),
{
    let n: usize = names.len();
    let mut i: usize = 0;
    while i < n
        invariant
            i <= n,
            n == names@.len(),
            first_named_at(names@, target@, 0) == first_named_at(names@, target@, i as int),
        decreases n - i,
    {
        let cleaned = cleanup_port_name(names[i].clone());
        if cleaned == *target {
            return Some(i);
        }
        i = i + 1;
    }
    None
}

} // verus!
