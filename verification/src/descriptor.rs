//! A verified admission check on the container descriptor
//! (`META-INF/container.xml`) before it is handed to the container layer.
//!
//! The container layer aborts, instead of returning its error, when the
//! descriptor's `full-path` attribute names a package path without a parent:
//! the empty path, a bare root, or a path of nothing but slashes and dot
//! components (`/`, `/.`, `/./.`), which path normalization reduces to a
//! root. The library therefore admits a descriptor only when it can see, on
//! the raw bytes, that no parse of them can yield such a path: after an
//! optional UTF-8 byte-order mark the bytes are plain ASCII, and wherever
//! the attribute name `full-path` occurs it is followed (XML whitespace
//! around the `=` allowed) by a quoted value, in double or single quotes,
//! that is non-empty, free of the quote itself and of entities, colons and
//! backslashes, and holds at least one byte that is neither `/` nor `.`.
//! Such a value always keeps one normal path component, so the path it
//! names has a parent on every platform; whichever occurrence backs the
//! attribute a parse finds, the path it reads is such a value, and where the
//! name never occurs, no parse finds the attribute at all and the layer
//! reports its own error. Everything else — descriptors in other encodings,
//! an entity inside the value — is rejected as unusable, conservatively,
//! with a fixed message; the check never rejects an ordinary descriptor,
//! whose `full-path` attributes name relative files.

use vstd::prelude::*;

verus! {

/// The length of the leading UTF-8 byte-order mark, if one stands at the
/// front: the parser strips exactly these three bytes before reading.
pub open spec fn bom_len(c: Seq<u8>) -> int {
    if c.len() >= 3 && c[0] == 0xefu8 && c[1] == 0xbbu8 && c[2] == 0xbfu8 {
        3
    } else {
        0
    }
}

/// A byte the admission scan accepts after the byte-order mark: tab,
/// newline, return or printing ASCII. No byte above 0x7f means no further
/// mark and no multi-byte character, so every parse of the descriptor reads
/// these bytes as the ASCII characters they are.
pub open spec fn scan_byte_ok(b: u8) -> bool {
    0x09 <= b <= 0x7f
}

/// Every byte after the optional byte-order mark passes the admission scan.
pub open spec fn scan_ok(c: Seq<u8>) -> bool {
    forall|i: int| bom_len(c) <= i < c.len() ==> scan_byte_ok(#[trigger] c[i])
}

/// XML whitespace.
pub open spec fn ws_byte(b: u8) -> bool {
    b == 0x20u8 || b == 0x09u8 || b == 0x0au8 || b == 0x0du8
}

/// A double or single quote.
pub open spec fn quote_byte(b: u8) -> bool {
    b == 0x22u8 || b == 0x27u8
}

/// The ASCII bytes of `full-path` stand at position `i`.
pub open spec fn fp_at(c: Seq<u8>, i: int) -> bool {
    &&& 0 <= i
    &&& i + 9 <= c.len()
    &&& c[i] == 0x66u8
    &&& c[i + 1] == 0x75u8
    &&& c[i + 2] == 0x6cu8
    &&& c[i + 3] == 0x6cu8
    &&& c[i + 4] == 0x2du8
    &&& c[i + 5] == 0x70u8
    &&& c[i + 6] == 0x61u8
    &&& c[i + 7] == 0x74u8
    &&& c[i + 8] == 0x68u8
}

/// A byte admitted inside the value quoted by `q`: printing ASCII, and none
/// of the quote itself (which would end the value), `&` (an entity could
/// rewrite the value), `:` or `\` (a drive or share prefix could leave the
/// path without a parent on some platform).
pub open spec fn value_byte_ok(b: u8, q: u8) -> bool {
    &&& 0x20 <= b <= 0x7e
    &&& b != q
    &&& b != 0x26u8
    &&& b != 0x3au8
    &&& b != 0x5cu8
}

/// A byte that keeps a normal path component alive: neither `/` nor `.`.
/// A component holding such a byte is not empty, not `.` and not `..`, so
/// the path has a parent.
pub open spec fn normal_byte(b: u8) -> bool {
    b != 0x2fu8 && b != 0x2eu8
}

/// The first position at or after `j` whose byte is not XML whitespace
/// (or the end of the bytes).
pub open spec fn skip_ws(c: Seq<u8>, j: int) -> int
    decreases c.len() - j when 0 <= j <= c.len()
{
    if j < c.len() && ws_byte(c[j]) {
        skip_ws(c, j + 1)
    } else {
        j
    }
}

/// The position of the first byte `q` at or after `k`, provided every byte
/// before it is admitted in a `q`-quoted value; otherwise a negative
/// sentinel.
pub open spec fn value_end(c: Seq<u8>, q: u8, k: int) -> int
    decreases c.len() - k when 0 <= k <= c.len()
{
    if k >= c.len() {
        -1
    } else if c[k] == q {
        k
    } else if value_byte_ok(c[k], q) {
        value_end(c, q, k + 1)
    } else {
        -1
    }
}

/// Whether some byte of `c[from..to]` keeps a normal path component alive.
pub open spec fn has_normal(c: Seq<u8>, from: int, to: int) -> bool
    decreases to - from,
{
    if from >= to {
        false
    } else {
        has_normal(c, from, to - 1) || normal_byte(c[to - 1])
    }
}

/// The occurrence of `full-path` at `i` carries a usable quoted value:
/// after optional whitespace an `=`, after optional whitespace a quote, and
/// a value running to the matching quote that is non-empty, made of
/// admitted bytes, and keeps a normal path component.
pub open spec fn fp_value_ok(c: Seq<u8>, i: int) -> bool {
    let e = skip_ws(c, i + 9);
    let p = skip_ws(c, e + 1);
    let end = value_end(c, c[p], p + 1);
    &&& 0 <= e < c.len()
    &&& c[e] == 0x3du8
    &&& 0 <= p < c.len()
    &&& quote_byte(c[p])
    &&& end > p + 1
    &&& has_normal(c, p + 1, end)
}

/// The descriptor is admitted: ASCII after an optional byte-order mark, and
/// every occurrence of `full-path` carries a usable quoted value.
pub open spec fn descriptor_safe(c: Seq<u8>) -> bool {
    &&& scan_ok(c)
    &&& forall|i: int| #[trigger] fp_at(c, i) ==> fp_value_ok(c, i)
}

/// Whether every byte after the optional byte-order mark passes the
/// admission scan.
fn scan_ascii(c: &Vec<u8>) -> (r: bool)
    ensures
        r == scan_ok(c@),
{
    let mut i: usize = 0;
    if c.len() >= 3 {
        if c[0] == 0xef && c[1] == 0xbb && c[2] == 0xbf {
            i = 3;
        }
    }
    proof {
        assert(i == bom_len(c@));
    }
    while i < c.len()
        invariant
            bom_len(c@) <= i <= c.len(),
            forall|j: int| bom_len(c@) <= j < i ==> scan_byte_ok(#[trigger] c@[j]),
        decreases c.len() - i,
    {
        let b: u8 = c[i];
        if b < 0x09 || b > 0x7f {
            return false;
        }
        i = i + 1;
    }
    true
}

/// Whether the bytes of `full-path` stand at position `i`.
fn fp_match(c: &Vec<u8>, i: usize) -> (r: bool)
    ensures
        r == fp_at(c@, i as int),
{
    if c.len() < 9 || i > c.len() - 9 {
        return false;
    }
    c[i] == 0x66 && c[i + 1] == 0x75 && c[i + 2] == 0x6c && c[i + 3] == 0x6c && c[i + 4] == 0x2d
        && c[i + 5] == 0x70 && c[i + 6] == 0x61 && c[i + 7] == 0x74 && c[i + 8] == 0x68
}

/// The first position at or after `from` whose byte is not XML whitespace.
fn skip_ws_exec(c: &Vec<u8>, from: usize) -> (r: usize)
    requires
        from <= c.len(),
    ensures
        r == skip_ws(c@, from as int),
        from <= r <= c.len(),
{
    let mut j: usize = from;
    while j < c.len()
        invariant
            from <= j <= c.len(),
            skip_ws(c@, from as int) == skip_ws(c@, j as int),
        decreases c.len() - j,
    {
        let b: u8 = c[j];
        if !(b == 0x20 || b == 0x09 || b == 0x0a || b == 0x0d) {
            return j;
        }
        j = j + 1;
    }
    j
}

/// Whether the occurrence of `full-path` at `i` carries a usable quoted
/// value.
fn value_check(c: &Vec<u8>, i: usize) -> (r: bool)
    requires
        fp_at(c@, i as int),
    ensures
        r == fp_value_ok(c@, i as int),
{
    let n = c.len();
    let e = skip_ws_exec(c, i + 9);
    if e >= n {
        return false;
    }
    if c[e] != 0x3d {
        return false;
    }
    let p = skip_ws_exec(c, e + 1);
    if p >= n {
        return false;
    }
    let q: u8 = c[p];
    if q != 0x22 && q != 0x27 {
        return false;
    }
    let mut k: usize = p + 1;
    let mut normal_seen: bool = false;
    while k < n
        invariant
            n == c@.len(),
            fp_at(c@, i as int),
            e as int == skip_ws(c@, i as int + 9),
            e < n,
            c@[e as int] == 0x3du8,
            p as int == skip_ws(c@, e as int + 1),
            p < n,
            p + 1 <= k <= n,
            c@[p as int] == q,
            quote_byte(q),
            value_end(c@, q, p as int + 1) == value_end(c@, q, k as int),
            normal_seen == has_normal(c@, p as int + 1, k as int),
        decreases n - k,
    {
        let b: u8 = c[k];
        if b == q {
            return k > p + 1 && normal_seen;
        }
        if b < 0x20 || b > 0x7e || b == 0x26 || b == 0x3a || b == 0x5c {
            return false;
        }
        if b != 0x2f && b != 0x2e {
            normal_seen = true;
        }
        k = k + 1;
    }
    false
}

/// Decides whether a container descriptor is admitted: ASCII after an
/// optional byte-order mark, with every occurrence of `full-path` carrying
/// a usable quoted value.
pub fn descriptor_safe_check(c: &Vec<u8>) -> (r: bool)
    ensures
        r == descriptor_safe(c@),
{
    if !scan_ascii(c) {
        return false;
    }
    let mut i: usize = 0;
    while i < c.len()
        invariant
            i <= c.len(),
            scan_ok(c@),
            forall|j: int| 0 <= j < i && #[trigger] fp_at(c@, j) ==> fp_value_ok(c@, j),
        decreases c.len() - i,
    {
        if fp_match(c, i) {
            if !value_check(c, i) {
                return false;
            }
        }
        i = i + 1;
    }
    true
}

} // verus!
