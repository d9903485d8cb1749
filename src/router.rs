//! Path templates: trimming, splitting into segments, and matching a path
//! against a pattern whose `:`-prefixed segments match any single segment.
use vstd::prelude::*;
use vstd::string::StringSliceAdditionalSpecFns;

verus! {

/// The byte `/`, which delimits segments.
pub const SLASH: u8 = 0x2f;

/// The byte `:`, which starts a parameter segment of a pattern.
pub const PARAM_MARKER: u8 = 0x3a;

/// The code of the GET method.
pub const METHOD_GET: u8 = 0;

/// The code of every method that has no code of its own.
pub const METHOD_NONE: u8 = 255;

/// `s` without its leading slashes.
pub open spec fn trim_start(s: Seq<u8>) -> Seq<u8>
    decreases s.len(),
{
    if s.len() > 0 && s[0] == SLASH {
        trim_start(s.drop_first())
    } else {
        s
    }
}

/// `s` without its trailing slashes.
pub open spec fn trim_end(s: Seq<u8>) -> Seq<u8>
    decreases s.len(),
{
    if s.len() > 0 && s.last() == SLASH {
        trim_end(s.drop_last())
    } else {
        s
    }
}

/// `s` without its leading and trailing slashes.
pub open spec fn trimmed(s: Seq<u8>) -> Seq<u8> {
    trim_end(trim_start(s))
}

/// The `/`-delimited segments of `s`, in order; the empty sequence has one
/// empty segment, and two adjacent slashes delimit an empty one.
pub open spec fn segments(s: Seq<u8>) -> Seq<Seq<u8>>
    decreases s.len(),
{
    if s.len() == 0 {
        seq![Seq::empty()]
    } else {
        let init = segments(s.drop_last());
        if s.last() == SLASH {
            init.push(Seq::empty())
        } else {
            init.update(init.len() - 1, init.last().push(s.last()))
        }
    }
}

/// Whether one pattern segment matches one path segment: a parameter segment
/// matches anything, every other segment only itself.
pub open spec fn segment_matches(p: Seq<u8>, s: Seq<u8>) -> bool {
    (p.len() > 0 && p[0] == PARAM_MARKER) || p == s
}

/// Whether `path` matches `pattern`: both trimmed of slashes are empty, or they
/// have the same number of segments and each pattern segment matches the path
/// segment at its position.
pub open spec fn path_matches(pattern: Seq<u8>, path: Seq<u8>) -> bool {
    let p = trimmed(pattern);
    let s = trimmed(path);
    (p.len() == 0 && s.len() == 0) || {
        &&& segments(p).len() == segments(s).len()
        &&& forall|i: int|
            0 <= i < segments(p).len() ==> #[trigger] segment_matches(segments(p)[i], segments(s)[i])
    }
}

/// The code of a method given by its name: GET has its own, every other
/// method shares one.
pub open spec fn method_code(name: Seq<u8>) -> u8 {
    if name == seq![0x47u8, 0x45u8, 0x54u8] {
        METHOD_GET
    } else {
        METHOD_NONE
    }
}

/// The views of a sequence of byte vectors.
pub open spec fn views(v: Seq<Vec<u8>>) -> Seq<Seq<u8>> {
    v.map_values(|x: Vec<u8>| x@)
}

proof fn lemma_segments_nonempty(s: Seq<u8>)
    ensures
        segments(s).len() >= 1,
    decreases s.len(),
{
    if s.len() > 0 {
        lemma_segments_nonempty(s.drop_last());
    }
}

proof fn lemma_single_segment(s: Seq<u8>)
    ensures
        segments(s).len() == 1 ==> segments(s)[0] == s,
    decreases s.len(),
{
    if s.len() > 0 {
        lemma_segments_nonempty(s.drop_last());
        lemma_single_segment(s.drop_last());
        assert(s.drop_last().push(s.last()) =~= s);
    }
}

/// A pattern that is empty once trimmed of slashes (such as `/`) matches a
/// path exactly when the path is empty once trimmed of slashes.
pub proof fn lemma_root_pattern_matches_only_root(pattern: Seq<u8>, path: Seq<u8>)
    requires
        trimmed(pattern).len() == 0,
    ensures
        path_matches(pattern, path) <==> trimmed(path).len() == 0,
{
    let p = trimmed(pattern);
    let s = trimmed(path);
    assert(p =~= Seq::<u8>::empty());
    assert(segments(p) == seq![Seq::<u8>::empty()]);
    if s.len() > 0 && path_matches(pattern, path) {
        lemma_single_segment(s);
        assert(segment_matches(segments(p)[0], segments(s)[0]));
        assert(segments(s)[0].len() > 0);
    }
}

/// The bounds of `b` trimmed of leading and trailing slashes.
fn trim_bounds(b: &[u8]) -> (r: (usize, usize))
    ensures
        r.0 <= r.1 <= b@.len(),
        b@.subrange(r.0 as int, r.1 as int) == trimmed(b@),
{
    let n = b.len();
    let mut lo: usize = 0;
    assert(b@.subrange(0, n as int) =~= b@);
    while lo < n && b[lo] == SLASH
        invariant
            lo <= n == b@.len(),
            trim_start(b@) == trim_start(b@.subrange(lo as int, n as int)),
        decreases n - lo,
    {
        assert(b@.subrange(lo as int, n as int).drop_first() =~= b@.subrange(lo + 1, n as int));
        lo = lo + 1;
    }
    assert(trim_start(b@) == b@.subrange(lo as int, n as int));
    let mut hi: usize = n;
    while hi > lo && b[hi - 1] == SLASH
        invariant
            lo <= hi <= n == b@.len(),
            trimmed(b@) == trim_end(b@.subrange(lo as int, hi as int)),
        decreases hi - lo,
    {
        assert(b@.subrange(lo as int, hi as int).drop_last() =~= b@.subrange(lo as int, hi - 1));
        hi = hi - 1;
    }
    (lo, hi)
}

/// The segments of `b[lo..hi]`.
fn split_segments(b: &[u8], lo: usize, hi: usize) -> (r: Vec<Vec<u8>>)
    requires
        lo <= hi <= b@.len(),
    ensures
        views(r@) == segments(b@.subrange(lo as int, hi as int)),
{
    let mut done: Vec<Vec<u8>> = Vec::new();
    let mut cur: Vec<u8> = Vec::new();
    let mut i: usize = lo;
    assert(views(done@).push(cur@) =~= segments(b@.subrange(lo as int, lo as int)));
    while i < hi
        invariant
            lo <= i <= hi <= b@.len(),
            views(done@).push(cur@) == segments(b@.subrange(lo as int, i as int)),
        decreases hi - i,
    {
        let ghost prev = segments(b@.subrange(lo as int, i as int));
        let c = b[i];
        assert(b@.subrange(lo as int, i + 1).drop_last() =~= b@.subrange(lo as int, i as int));
        if c == SLASH {
            done.push(cur);
            cur = Vec::new();
            assert(views(done@).push(cur@) =~= prev.push(Seq::empty()));
        } else {
            let ghost old_cur = cur@;
            cur.push(c);
            assert(views(done@).push(cur@) =~= prev.update(prev.len() - 1, old_cur.push(c)));
        }
        i = i + 1;
    }
    done.push(cur);
    assert(views(done@) =~= segments(b@.subrange(lo as int, hi as int)));
    done
}

/// Whether the pattern segment `p` matches the path segment `s`.
fn segment_matches_exec(p: &Vec<u8>, s: &Vec<u8>) -> (r: bool)
    ensures
        r == segment_matches(p@, s@),
{
    if p.len() > 0 && p[0] == PARAM_MARKER {
        return true;
    }
    if p.len() != s.len() {
        return false;
    }
    let mut i: usize = 0;
    while i < p.len()
        invariant
            i <= p@.len() == s@.len(),
            !(p@.len() > 0 && p@[0] == PARAM_MARKER),
            p@.subrange(0, i as int) == s@.subrange(0, i as int),
        decreases p@.len() - i,
    {
        if p[i] != s[i] {
            assert(p@ != s@) by {
                if p@ == s@ {
                    assert(p@[i as int] == s@[i as int]);
                }
            }
            return false;
        }
        assert(p@.subrange(0, i + 1) =~= p@.subrange(0, i as int).push(p@[i as int]));
        assert(s@.subrange(0, i + 1) =~= s@.subrange(0, i as int).push(s@[i as int]));
        i = i + 1;
    }
    assert(p@.subrange(0, i as int) =~= p@);
    assert(s@.subrange(0, i as int) =~= s@);
    true
}

/// Whether `path` matches the route template `pattern`. Both are trimmed of
/// leading and trailing slashes and split at `/`; the segment counts must be
/// equal, a segment of the pattern that starts with `:` matches any segment,
/// and every other segment must equal the path's. Two paths that are empty
/// once trimmed match.
pub fn matches(pattern: &str, path: &str) -> (r: bool)
    ensures
        r == path_matches(pattern.spec_bytes(), path.spec_bytes()),
{
    let p = pattern.as_bytes();
    let s = path.as_bytes();
    let (plo, phi) = trim_bounds(p);
    let (slo, shi) = trim_bounds(s);
    if plo == phi && slo == shi {
        return true;
    }
    let ps = split_segments(p, plo, phi);
    let ss = split_segments(s, slo, shi);
    let ghost psv = views(ps@);
    let ghost ssv = views(ss@);
    assert(psv == segments(trimmed(pattern.spec_bytes())));
    assert(ssv == segments(trimmed(path.spec_bytes())));
    if ps.len() != ss.len() {
        return false;
    }
    let mut i: usize = 0;
    while i < ps.len()
        invariant
            i <= ps@.len() == ss@.len(),
            psv == views(ps@),
            ssv == views(ss@),
            psv == segments(trimmed(pattern.spec_bytes())),
            ssv == segments(trimmed(path.spec_bytes())),
            !(trimmed(pattern.spec_bytes()).len() == 0 && trimmed(path.spec_bytes()).len() == 0),
            forall|j: int| 0 <= j < i ==> #[trigger] segment_matches(psv[j], ssv[j]),
        decreases ps@.len() - i,
    {
        if !segment_matches_exec(&ps[i], &ss[i]) {
            assert(!segment_matches(psv[i as int], ssv[i as int]));
            return false;
        }
        i = i + 1;
    }
    true
}

/// The code of the method named `name`: `METHOD_GET` for GET, `METHOD_NONE`
/// for any other.
pub fn method_to_u8(name: &str) -> (r: u8)
    ensures
        r == method_code(name.spec_bytes()),
{
    let b = name.as_bytes();
    if b.len() == 3 && b[0] == 0x47 && b[1] == 0x45 && b[2] == 0x54 {
        assert(b@ =~= seq![0x47u8, 0x45u8, 0x54u8]);
        METHOD_GET
    } else {
        METHOD_NONE
    }
}

} // verus!
