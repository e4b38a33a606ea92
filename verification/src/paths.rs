use vstd::prelude::*;
use vstd::string::StrSliceExecFns;
use vstd::string::StringExecFns;

verus! {

/// Index of the first '/' in `p` at or after `from`, or `p.len()` when
/// there is none at or after it.
pub open spec fn spec_find_slash(p: Seq<char>, from: int) -> int
    decreases p.len() - from,
{
    if from < 0 || from >= p.len() {
        p.len() as int
    } else if p[from] == '/' {
        from
    } else {
        spec_find_slash(p, from + 1)
    }
}

pub proof fn lemma_find_slash(p: Seq<char>, from: int)
    requires
        0 <= from <= p.len(),
    ensures
        from <= spec_find_slash(p, from) <= p.len(),
        spec_find_slash(p, from) < p.len() ==> p[spec_find_slash(p, from)] == '/',
    decreases p.len() - from,
{
    if from < p.len() && p[from] != '/' {
        lemma_find_slash(p, from + 1);
    }
}

/// A stretch of non-slash characters ending at a slash (or at the end of
/// the path) is exactly what the slash search skips.
pub proof fn lemma_find_slash_range(p: Seq<char>, from: int, to: int)
    requires
        0 <= from <= to <= p.len(),
        forall|k: int| from <= k < to ==> p[k] != '/',
        to == p.len() || p[to] == '/',
    ensures
        spec_find_slash(p, from) == to,
    decreases to - from,
{
    if from < to {
        lemma_find_slash_range(p, from + 1, to);
    }
}

/// The host segment of a feed path: the text between the second and third
/// '/' (or the end), i.e. the second segment of the path split on '/'.
/// `None` when the path has fewer than two '/' characters.
pub open spec fn spec_host_of(p: Seq<char>) -> Option<Seq<char>> {
    let a = spec_find_slash(p, 0);
    if a < p.len() {
        let b = spec_find_slash(p, a + 1);
        if b < p.len() {
            Some(p.subrange(b + 1, spec_find_slash(p, b + 1)))
        } else {
            None
        }
    } else {
        None
    }
}

fn find_slash_from(s: &str, from: usize) -> (r: usize)
    requires
        from <= s@.len(),
    ensures
        r == spec_find_slash(s@, from as int),
        r <= s@.len(),
{
    let n = s.unicode_len();
    let mut i = from;
    while i < n
        invariant
            from <= i <= n,
            n == s@.len(),
            spec_find_slash(s@, from as int) == spec_find_slash(s@, i as int),
        decreases n - i,
    {
        if s.get_char(i) == '/' {
            return i;
        }
        i = i + 1;
    }
    n
}

/// Derives the source identifier from a listed feed path, as its second
/// path segment: `/hw/h1/cpu-temp` names the host `h1`. Paths without a
/// second segment carry no host and are skipped by discovery.
pub fn extract_host(path: &str) -> (r: Option<String>)
    ensures
        r is Some <==> spec_host_of(path@) is Some,
        r matches Some(h) ==> spec_host_of(path@) == Some(h@),
{
    let n = path.unicode_len();
    let a = find_slash_from(path, 0);
    if a < n {
        let b = find_slash_from(path, a + 1);
        if b < n {
            let c = find_slash_from(path, b + 1);
            proof {
                lemma_find_slash(path@, b as int + 1);
            }
            let h = path.substring_char(b + 1, c);
            Some(String::from_str(h))
        } else {
            None
        }
    } else {
        None
    }
}

/// The canonical input path a source publishes its readings under.
pub open spec fn spec_cpu_temp_path(host: Seq<char>) -> Seq<char> {
    "/hw/"@ + host + "/cpu-temp"@
}

/// The derived output path for the alert timestamp of a host.
pub open spec fn spec_overtemp_ts_path(host: Seq<char>) -> Seq<char> {
    "/hw/"@ + host + "/overtemp-ts"@
}

/// The derived output path for the alert reading of a host.
pub open spec fn spec_overtemp_path(host: Seq<char>) -> Seq<char> {
    "/hw/"@ + host + "/overtemp"@
}

pub fn cpu_temp_path(host: &String) -> (r: String)
    ensures
        r@ == spec_cpu_temp_path(host@),
{
    String::from_str("/hw/").concat(host.as_str()).concat("/cpu-temp")
}

pub fn overtemp_ts_path(host: &String) -> (r: String)
    ensures
        r@ == spec_overtemp_ts_path(host@),
{
    String::from_str("/hw/").concat(host.as_str()).concat("/overtemp-ts")
}

pub fn overtemp_path(host: &String) -> (r: String)
    ensures
        r@ == spec_overtemp_path(host@),
{
    String::from_str("/hw/").concat(host.as_str()).concat("/overtemp")
}

} // verus!
