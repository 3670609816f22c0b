use vstd::prelude::*;
use vstd::layout::size_of;
use vstd::string::*;

use crate::format::{extension_of, FileExtension, Format};

verus! {

/// The 64-bit digest that `FxHasher` (fixed seed) gives for a stem and two
/// optional dimensions fed in that order, on the target being built for
/// (whose `usize` takes `word_bytes` bytes; the mixing also differs between
/// architectures).
pub uninterp spec fn fx_digest(stem: Seq<char>, width: Option<u32>, height: Option<u32>, word_bytes: nat) -> u64;

/// Relies on rustc_hash::FxHasher: a hasher with a fixed seed, so its digest
/// depends on the values fed to it and the target alone. The
/// height is fed last, as `hash = (hash + h) * K` with an odd `K` and then a
/// rotation, so two heights give two digests.
#[verifier::external_body]
fn fx_hash(stem: &str, width: Option<u32>, height: Option<u32>) -> (r: u64)
    ensures
        r == fx_digest(stem@, width, height, size_of::<usize>()),
        height is Some ==> forall|h: u32| #![trigger fx_digest(stem@, width, Some(h), size_of::<usize>())]
            Some(h) != height ==> fx_digest(stem@, width, Some(h), size_of::<usize>()) != r,
{
    let mut hasher = <rustc_hash::FxHasher as std::default::Default>::default();
    std::hash::Hash::hash(stem, &mut hasher);
    std::hash::Hash::hash(&width, &mut hasher);
    std::hash::Hash::hash(&height, &mut hasher);
    std::hash::Hasher::finish(&hasher)
}

pub open spec fn hex_digits() -> Seq<char> {
    seq!['0', '1', '2', '3', '4', '5', '6', '7', '8', '9', 'A', 'B', 'C', 'D', 'E', 'F']
}

/// Upper-case hexadecimal rendering without leading zeros.
pub open spec fn hex_upper(n: nat) -> Seq<char>
    decreases n,
{
    if n < 16 {
        seq![hex_digits()[n as int]]
    } else {
        hex_upper(n / 16) + seq![hex_digits()[(n % 16) as int]]
    }
}

fn hex_digit(d: u64) -> (r: &'static str)
    requires
        d < 16,
    ensures
        r@ == seq![hex_digits()[d as int]],
{
    proof {
        reveal_strlit("0"); reveal_strlit("1"); reveal_strlit("2"); reveal_strlit("3");
        reveal_strlit("4"); reveal_strlit("5"); reveal_strlit("6"); reveal_strlit("7");
        reveal_strlit("8"); reveal_strlit("9"); reveal_strlit("A"); reveal_strlit("B");
        reveal_strlit("C"); reveal_strlit("D"); reveal_strlit("E"); reveal_strlit("F");
    }
    let r = if d < 8 {
        if d == 0 { "0" } else if d == 1 { "1" } else if d == 2 { "2" } else if d == 3 { "3" }
        else if d == 4 { "4" } else if d == 5 { "5" } else if d == 6 { "6" } else { "7" }
    } else {
        if d == 8 { "8" } else if d == 9 { "9" } else if d == 10 { "A" } else if d == 11 { "B" }
        else if d == 12 { "C" } else if d == 13 { "D" } else if d == 14 { "E" } else { "F" }
    };
    assert(r@ =~= seq![hex_digits()[d as int]]);
    r
}

/// The rendering has at least two digits from 16 on.
proof fn hex_upper_len(n: nat)
    ensures
        hex_upper(n).len() >= 1,
        n >= 16 ==> hex_upper(n).len() >= 2,
    decreases n,
{
    if n >= 16 {
        hex_upper_len(n / 16);
    }
}

/// Distinct numbers render differently.
pub proof fn hex_upper_injective(n: nat, m: nat)
    requires
        n != m,
    ensures
        hex_upper(n) != hex_upper(m),
    decreases n + m,
{
    hex_upper_len(n);
    hex_upper_len(m);
    if n < 16 && m < 16 {
        assert(hex_upper(n)[0] == hex_digits()[n as int]);
        assert(hex_upper(m)[0] == hex_digits()[m as int]);
    } else if n >= 16 && m >= 16 {
        let a = hex_upper(n / 16);
        let b = hex_upper(m / 16);
        if hex_upper(n) == hex_upper(m) {
            assert(hex_upper(n).last() == hex_digits()[(n % 16) as int]);
            assert(hex_upper(m).last() == hex_digits()[(m % 16) as int]);
            assert(a =~= hex_upper(n).drop_last());
            assert(b =~= hex_upper(m).drop_last());
            if n / 16 != m / 16 {
                hex_upper_injective(n / 16, m / 16);
            }
            assert(n == 16 * (n / 16) + n % 16);
            assert(m == 16 * (m / 16) + m % 16);
        }
    }
}

/// Renders `n` as `format!("{:X}", n)` does.
pub fn to_upper_hex(n: u64) -> (r: String)
    ensures
        r@ == hex_upper(n as nat),
    decreases n,
{
    if n < 16 {
        String::from_str(hex_digit(n))
    } else {
        let mut s = to_upper_hex(n / 16);
        s.append(hex_digit(n % 16));
        s
    }
}

/// `t` is the part of `s` before its first '.', or all of `s` when it has none.
pub open spec fn is_stem(s: Seq<char>, t: Seq<char>) -> bool {
    &&& t.len() <= s.len()
    &&& t == s.subrange(0, t.len() as int)
    &&& forall|i: int| 0 <= i < t.len() ==> t[i] != '.'
    &&& (t.len() == s.len() || s[t.len() as int] == '.')
}

/// The part of `object` before its first '.'.
pub fn stem(object: &str) -> (r: String)
    ensures
        is_stem(object@, r@),
{
    let n = object.unicode_len();
    let mut i: usize = 0;
    while i < n && object.get_char(i) != '.'
        invariant
            n == object@.len(),
            i <= n,
            forall|k: int| 0 <= k < i ==> object@[k] != '.',
        decreases n - i,
    {
        i = i + 1;
    }
    let r = String::from_str(object.substring_char(0, i));
    assert(r@.len() == i);
    r
}

/// Whatever identifies a cached transform: the object's stem and the
/// requested dimensions. The format names the stored encoding only.
#[derive(Debug)]
pub struct CachePayload {
    pub object: String,
    pub width: Option<u32>,
    pub height: Option<u32>,
    pub format: Format,
}

/// The fingerprint of a payload: the digest of stem, width and height in
/// upper-case hexadecimal (the digest depends on the target).
pub open spec fn fingerprint(object: Seq<char>, width: Option<u32>, height: Option<u32>) -> Seq<char> {
    hex_upper(fx_digest(object, width, height, size_of::<usize>()) as nat)
}

impl CachePayload {
    pub fn new(object: &str, width: Option<u32>, height: Option<u32>, format: Format) -> (r: CachePayload)
        ensures
            is_stem(object@, r.object@),
            r.width == width,
            r.height == height,
            r.format == format,
    {
        CachePayload { object: stem(object), width, height, format }
    }
}

/// Renders a value's fingerprint as text.
pub trait ToHashStr {
    spec fn hash_str_spec(&self) -> Seq<char>;

    fn to_hash_str(&self) -> (r: String)
        ensures
            r@ == self.hash_str_spec(),
            self.height_sensitive(r@),
    ;

    /// No other height gives the fingerprint `fp`.
    spec fn height_sensitive(&self, fp: Seq<char>) -> bool;
}

impl ToHashStr for CachePayload {
    open spec fn hash_str_spec(&self) -> Seq<char> {
        fingerprint(self.object@, self.width, self.height)
    }

    open spec fn height_sensitive(&self, fp: Seq<char>) -> bool {
        self.height is Some ==> forall|h: u32| #![trigger fingerprint(self.object@, self.width, Some(h))]
            Some(h) != self.height ==> fingerprint(self.object@, self.width, Some(h)) != fp
    }

    fn to_hash_str(&self) -> (r: String) {
        let out = fx_hash(self.object.as_str(), self.width, self.height);
        let r = to_upper_hex(out);
        proof {
            if self.height is Some {
                assert forall|h: u32| Some(h) != self.height implies
                    fingerprint(self.object@, self.width, Some(h)) != r@ by {
                    let d = fx_digest(self.object@, self.width, Some(h), size_of::<usize>());
                    assert(d != out);
                    hex_upper_injective(d as nat, out as nat);
                }
            }
        }
        r
    }
}

/// Two payloads with the same stem, width and height have the same
/// fingerprint, in any process built for the same target and whatever
/// their formats: the format takes
/// no part in it.
pub proof fn fingerprint_ignores_format(a: CachePayload, b: CachePayload)
    requires
        a.object@ == b.object@,
        a.width == b.width,
        a.height == b.height,
    ensures
        a.hash_str_spec() == b.hash_str_spec(),
{
}

/// Object names that share stem, width and height lie under one
/// fingerprint: with the same prefix and format they are the same name.
pub proof fn cache_name_deterministic(prefix: Option<String>, a: CachePayload, b: CachePayload)
    requires
        a.object@ == b.object@,
        a.width == b.width,
        a.height == b.height,
        a.format == b.format,
    ensures
        cache_name(prefix, a) == cache_name(prefix, b),
{
}

/// Object names of cached results live under an optional prefix.
pub struct Cache {
    pub prefix: Option<String>,
}

/// `{prefix}/{fingerprint}{extension}`, or `{fingerprint}{extension}` without
/// a prefix.
pub open spec fn cache_name(prefix: Option<String>, key: CachePayload) -> Seq<char> {
    let body = fingerprint(key.object@, key.width, key.height) + extension_of(key.format);
    match prefix {
        Some(p) => p@ + "/"@ + body,
        None => body,
    }
}

impl Cache {
    /// The object name under which the result for `key` is stored.
    pub fn full_title(&self, key: &CachePayload) -> (r: String)
        ensures
            r@ == cache_name(self.prefix, *key),
    {
        let hash_str = key.to_hash_str();
        let ext = FileExtension::from(key.format);
        match &self.prefix {
            Some(x) => {
                let mut s = x.clone();
                s.append("/");
                s.append(hash_str.as_str());
                s.append(ext.to_string());
                s
            },
            None => {
                let mut s = hash_str;
                s.append(ext.to_string());
                s
            },
        }
    }
}

} // verus!
