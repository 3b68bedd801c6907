//! Derivation paths: the text `m/i1'/i2/.../in'` and its segment list.
use vstd::prelude::*;
use crate::error::KeyError;
use vstd::string::StringSliceAdditionalSpecFns;
use crate::primitives::{bip32_derive, derived_private_key};

verus! {

/// The flag that marks a hardened child number.
pub const HARDENED_OFFSET: u32 = 0x8000_0000;

/// One step of a derivation path: an index below 2^31 and whether it is hardened.
#[derive(Clone, Copy, Debug, PartialEq, Eq, Structural)]
pub struct Segment {
    pub index: u32,
    pub hardened: bool,
}

/// An ordered list of segments; the empty list addresses the master node.
#[derive(Clone, Debug)]
pub struct DerivationPath {
    pub segments: Vec<Segment>,
}

impl View for DerivationPath {
    type V = Seq<Segment>;

    open spec fn view(&self) -> Seq<Segment> {
        self.segments@
    }
}

pub open spec fn is_digit(c: u8) -> bool {
    48 <= c <= 57
}

pub open spec fn all_digits(d: Seq<u8>) -> bool {
    forall|i: int| 0 <= i < d.len() ==> is_digit(#[trigger] d[i])
}

/// The number that a string of decimal digits denotes.
pub open spec fn digits_value(d: Seq<u8>) -> nat
    decreases d.len(),
{
    if d.len() == 0 {
        0
    } else {
        digits_value(d.drop_last()) * 10 + (d.last() - 48) as nat
    }
}

/// The segment that one `/`-separated field denotes: decimal digits below
/// 2^31, optionally followed by an apostrophe for a hardened step.
pub open spec fn segment_of(t: Seq<u8>) -> Option<Segment> {
    let hardened = t.len() > 0 && t.last() == 39u8;
    let body = if hardened { t.drop_last() } else { t };
    if body.len() > 0 && all_digits(body) && digits_value(body) < 0x8000_0000 {
        Some(Segment { index: digits_value(body) as u32, hardened })
    } else {
        None
    }
}

/// The length of the field at the start of `s`: the bytes before the first `/`.
pub open spec fn field_len(s: Seq<u8>) -> nat
    decreases s.len(),
{
    if s.len() == 0 || s[0] == 47u8 {
        0
    } else {
        1 + field_len(s.skip(1))
    }
}

/// The segments of the text that follows the leading `m`: a sequence of
/// `/` and a field, each field a segment.
pub open spec fn segments_of(s: Seq<u8>) -> Option<Seq<Segment>>
    decreases s.len(),
{
    if s.len() == 0 {
        Some(Seq::empty())
    } else if s[0] != 47u8 {
        None
    } else {
        let rest = s.skip(1);
        let n = if field_len(rest) <= rest.len() { field_len(rest) as int } else { rest.len() as int };
        match segment_of(rest.take(n)) {
            None => None,
            Some(g) => match segments_of(rest.skip(n)) {
                None => None,
                Some(gs) => Some(seq![g] + gs),
            },
        }
    }
}

/// The path that a text denotes, if it is one: `m` and then its segments.
pub open spec fn path_of(text: Seq<u8>) -> Option<Seq<Segment>> {
    if text.len() > 0 && text[0] == 109u8 {
        segments_of(text.skip(1))
    } else {
        None
    }
}

/// The BIP32 child number of a segment.
pub open spec fn child_number(g: Segment) -> u32 {
    if g.hardened { (g.index + HARDENED_OFFSET) as u32 } else { g.index }
}

/// Every segment index is below 2^31.
pub open spec fn indices_in_range(p: Seq<Segment>) -> bool {
    forall|i: int| 0 <= i < p.len() ==> (#[trigger] p[i]).index < HARDENED_OFFSET
}

proof fn lemma_field_len(s: Seq<u8>, j: int)
    requires
        0 <= j <= s.len(),
        forall|k: int| 0 <= k < j ==> s[k] != 47u8,
        j == s.len() || s[j] == 47u8,
    ensures
        field_len(s) == j,
    decreases j,
{
    if j > 0 {
        lemma_field_len(s.skip(1), j - 1);
    }
}

proof fn lemma_segments_in_range(s: Seq<u8>)
    ensures
        segments_of(s) matches Some(p) ==> indices_in_range(p),
    decreases s.len(),
{
    if s.len() > 0 && s[0] == 47u8 {
        let rest = s.skip(1);
        let n = if field_len(rest) <= rest.len() { field_len(rest) as int } else { rest.len() as int };
        lemma_segments_in_range(rest.skip(n));
        if let Some(p) = segments_of(s) {
            let gs = segments_of(rest.skip(n))->Some_0;
            assert forall|i: int| 0 <= i < p.len() implies (#[trigger] p[i]).index < HARDENED_OFFSET by {
                if i > 0 {
                    assert(p[i] == gs[i - 1]);
                }
            }
        }
    }
}

/// Every path that parses has its indices below 2^31.
pub proof fn lemma_parsed_in_range(text: Seq<u8>)
    ensures
        path_of(text) matches Some(p) ==> indices_in_range(p),
{
    if text.len() > 0 && text[0] == 109u8 {
        lemma_segments_in_range(text.skip(1));
    }
}

/// Parses the field `b[lo..hi]` as one segment.
fn parse_segment(b: &[u8], lo: usize, hi: usize) -> (r: Option<Segment>)
    requires
        lo <= hi <= b@.len(),
    ensures
        r == segment_of(b@.subrange(lo as int, hi as int)),
{
    let ghost t = b@.subrange(lo as int, hi as int);
    let hardened = hi > lo && b[hi - 1] == 39u8;
    let end: usize = if hardened { hi - 1 } else { hi };
    let ghost body = b@.subrange(lo as int, end as int);
    assert(hardened == (t.len() > 0 && t.last() == 39u8));
    assert(body =~= (if hardened { t.drop_last() } else { t }));
    if end == lo {
        return None;
    }
    let mut value: u64 = 0;
    let mut k: usize = lo;
    while k < end
        invariant
            lo <= k <= end <= hi <= b@.len(),
            body == b@.subrange(lo as int, end as int),
            t == b@.subrange(lo as int, hi as int),
            hardened == (t.len() > 0 && t.last() == 39u8),
            body == (if hardened { t.drop_last() } else { t }),
            all_digits(b@.subrange(lo as int, k as int)),
            value as nat == if digits_value(b@.subrange(lo as int, k as int)) < 0x8000_0000 {
                digits_value(b@.subrange(lo as int, k as int))
            } else {
                0x8000_0000nat
            },
        decreases end - k,
    {
        let c = b[k];
        if c < 48 || c > 57 {
            assert(body[k - lo] == c);
            assert(!is_digit(body[k - lo]));
            assert(!all_digits(body));
            return None;
        }
        let ghost prev = b@.subrange(lo as int, k as int);
        let ghost next = b@.subrange(lo as int, k + 1);
        assert(next.drop_last() =~= prev);
        assert(all_digits(next)) by {
            assert forall|i: int| 0 <= i < next.len() implies is_digit(#[trigger] next[i]) by {
                if i < prev.len() {
                    assert(next[i] == prev[i]);
                }
            }
        }
        let v = value * 10 + (c - 48) as u64;
        value = if v < 0x8000_0000 { v } else { 0x8000_0000 };
        proof {
            assert(digits_value(next) == digits_value(prev) * 10 + (c - 48) as nat);
            if digits_value(prev) >= 0x8000_0000 {
                assert(digits_value(prev) * 10 >= 0x8000_0000) by (nonlinear_arith)
                    requires digits_value(prev) >= 0x8000_0000;
            }
        }
        k = k + 1;
    }
    assert(b@.subrange(lo as int, k as int) =~= body);
    if value < 0x8000_0000 {
        Some(Segment { index: value as u32, hardened })
    } else {
        None
    }
}

/// Parses a derivation path `m/i1'/i2/...`; `m` alone is the master node.
/// Every text that does not follow that form is refused with `InvalidPath`.
pub fn parse_path(text: &str) -> (r: Result<DerivationPath, KeyError>)
    ensures
        match path_of(text.spec_bytes()) {
            Some(p) => r matches Ok(q) && q@ == p,
            None => r == Err::<DerivationPath, KeyError>(KeyError::InvalidPath),
        },
{
    let b = text.as_bytes();
    if b.len() == 0 || b[0] != 109u8 {
        return Err(KeyError::InvalidPath);
    }
    let mut segments: Vec<Segment> = Vec::new();
    let mut i: usize = 1;
    while i < b.len()
        invariant
            1 <= i <= b@.len(),
            b@ == text.spec_bytes(),
            b@.len() > 0 && b@[0] == 109u8,
            path_of(b@) == (match segments_of(b@.skip(i as int)) {
                Some(gs) => Some(segments@ + gs),
                None => None::<Seq<Segment>>,
            }),
        decreases b@.len() - i,
    {
        let ghost s = b@.skip(i as int);
        if b[i] != 47u8 {
            assert(s[0] == b@[i as int]);
            return Err(KeyError::InvalidPath);
        }
        let mut j: usize = i + 1;
        while j < b.len() && b[j] != 47u8
            invariant
                i < j <= b@.len(),
                forall|k: int| i < k < j ==> b@[k] != 47u8,
            decreases b@.len() - j,
        {
            j = j + 1;
        }
        let ghost rest = s.skip(1);
        let ghost n = (j - i - 1) as int;
        proof {
            assert(rest =~= b@.skip(i + 1));
            lemma_field_len(rest, n);
            assert(rest.take(n) =~= b@.subrange(i + 1, j as int));
            assert(rest.skip(n) =~= b@.skip(j as int));
        }
        let g = parse_segment(b, i + 1, j);
        match g {
            None => {
                return Err(KeyError::InvalidPath);
            },
            Some(g) => {
                proof {
                    match segments_of(b@.skip(j as int)) {
                        Some(gs) => {
                            assert(segments@.push(g) + gs =~= segments@ + (seq![g] + gs));
                        },
                        None => {},
                    }
                }
                segments.push(g);
            },
        }
        i = j;
    }
    assert(b@.skip(i as int) =~= Seq::<u8>::empty());
    assert(segments@ + Seq::<Segment>::empty() =~= segments@);
    Ok(DerivationPath { segments })
}

/// The BIP32 child numbers of a path, hardened ones offset by 2^31;
/// `None` where an index is not below 2^31.
pub fn child_numbers(path: &DerivationPath) -> (r: Option<Vec<u32>>)
    ensures
        if indices_in_range(path@) {
            r matches Some(v) && v@ == path@.map_values(|g: Segment| child_number(g))
        } else {
            r is None
        },
{
    let mut r: Vec<u32> = Vec::new();
    let mut i: usize = 0;
    while i < path.segments.len()
        invariant
            i <= path@.len(),
            forall|j: int| 0 <= j < i ==> (#[trigger] path@[j]).index < HARDENED_OFFSET,
            r@ == path@.take(i as int).map_values(|g: Segment| child_number(g)),
        decreases path@.len() - i,
    {
        let g = path.segments[i];
        if g.index >= HARDENED_OFFSET {
            return None;
        }
        let c: u32 = if g.hardened { g.index + HARDENED_OFFSET } else { g.index };
        r.push(c);
        assert(path@.take(i + 1) =~= path@.take(i as int).push(g));
        i = i + 1;
        assert(r@ =~= path@.take(i as int).map_values(|g: Segment| child_number(g)));
    }
    assert(path@.take(i as int) =~= path@);
    Some(r)
}

/// The private key bytes of the node at `path` under `seed`.
/// A path with an index not below 2^31 is no path.
pub open spec fn node_key(seed: Seq<u8>, path: Seq<Segment>) -> Result<Seq<u8>, KeyError> {
    if !indices_in_range(path) {
        Err(KeyError::InvalidPath)
    } else {
        match derived_private_key(seed, path.map_values(|g: Segment| child_number(g))) {
            Some(k) => Ok(k),
            None => Err(KeyError::DerivationFailed),
        }
    }
}

/// The private key bytes of the node that a path text addresses under `seed`.
pub open spec fn node_key_at(seed: Seq<u8>, text: Seq<u8>) -> Result<Seq<u8>, KeyError> {
    match path_of(text) {
        Some(p) => node_key(seed, p),
        None => Err(KeyError::InvalidPath),
    }
}

/// Walks from the master node of `seed` along `path`, one child step per
/// segment, hardened steps using the parent's private key.
pub fn derive_node(seed: &[u8; 64], path: &DerivationPath) -> (r: Result<[u8; 32], KeyError>)
    ensures
        match node_key(seed@, path@) {
            Ok(k) => r matches Ok(x) && x@ == k,
            Err(e) => r == Err::<[u8; 32], KeyError>(e),
        },
{
    let numbers = match child_numbers(path) {
        Some(v) => v,
        None => {
            return Err(KeyError::InvalidPath);
        },
    };
    match bip32_derive(seed, &numbers) {
        Ok(k) => Ok(k),
        Err(_) => Err(KeyError::DerivationFailed),
    }
}

/// Parses `text` and derives the node it addresses under `seed`.
pub fn derive_at(seed: &[u8; 64], text: &str) -> (r: Result<[u8; 32], KeyError>)
    ensures
        match node_key_at(seed@, text.spec_bytes()) {
            Ok(k) => r matches Ok(x) && x@ == k,
            Err(e) => r == Err::<[u8; 32], KeyError>(e),
        },
{
    let path = parse_path(text)?;
    proof {
        lemma_parsed_in_range(text.spec_bytes());
    }
    derive_node(seed, &path)
}

/// A derived key depends on the seed and the parsed segment list alone:
/// two texts that denote the same path give the same key, or the same error.
pub proof fn lemma_derivation_depends_on_path(seed: Seq<u8>, t1: Seq<u8>, t2: Seq<u8>)
    requires
        path_of(t1) == path_of(t2),
    ensures
        node_key_at(seed, t1) == node_key_at(seed, t2),
{
}

/// Two different paths with indices below 2^31 walk different child
/// numbers: no two paths collapse onto one derivation.
pub proof fn lemma_distinct_paths_distinct_steps(p1: Seq<Segment>, p2: Seq<Segment>)
    requires
        indices_in_range(p1),
        indices_in_range(p2),
        p1 != p2,
    ensures
        p1.map_values(|g: Segment| child_number(g)) != p2.map_values(|g: Segment| child_number(g)),
{
    let c1 = p1.map_values(|g: Segment| child_number(g));
    let c2 = p2.map_values(|g: Segment| child_number(g));
    if p1.len() == p2.len() {
        if c1 == c2 {
            assert forall|i: int| 0 <= i < p1.len() implies p1[i] == p2[i] by {
                assert(c1[i] == c2[i]);
                assert(p1[i].index < HARDENED_OFFSET);
                assert(p2[i].index < HARDENED_OFFSET);
            }
            assert(p1 =~= p2);
        }
    } else {
        assert(c1.len() != c2.len());
    }
}

} // verus!
