//! Detection of "mod finished loading" notifications inside log lines.
//!
//! A log line that contains the marker `Loading [` is scanned for its third
//! bracket-delimited segment, which carries `<name> <version>]`; the segment
//! is split on the last space. Lines where that structure is missing yield
//! no record: this is best-effort metadata extraction, and the log entry
//! itself is kept either way.

use vstd::prelude::*;
use vstd::string::StringExecFns;

use crate::packet_protocol::{packet_bytes_to_utf8_string, utf8_lossy_of};

verus! {

/// The byte that opens a bracketed segment.
pub const LEFT_BRACKET: u8 = 91;

/// The byte the name/version split looks for.
pub const SPACE: u8 = 32;

/// The marker bytes `Loading [` that flag a mod-load log line.
pub open spec fn loading_marker() -> Seq<u8> {
    seq![76u8, 111u8, 97u8, 100u8, 105u8, 110u8, 103u8, 32u8, 91u8]
}

/// `needle` occurs contiguously inside `hay`.
pub open spec fn spec_contains_bytes(hay: Seq<u8>, needle: Seq<u8>) -> bool {
    exists|i: int|
        0 <= i && i + needle.len() <= hay.len() && #[trigger] hay.subrange(i, i + needle.len())
            == needle
}

/// Index of the first occurrence of `b` in `s` at or after `from`, or
/// `s.len()` if there is none.
pub open spec fn spec_find(s: Seq<u8>, b: u8, from: int) -> int
    recommends
        0 <= from <= s.len(),
    decreases s.len() - from,
{
    if from >= s.len() {
        s.len() as int
    } else if s[from] == b {
        from
    } else {
        spec_find(s, b, from + 1)
    }
}

/// Index of the last occurrence of `b` in `s` strictly before `end`, or
/// `-1` if there is none.
pub open spec fn spec_rfind(s: Seq<u8>, b: u8, end: int) -> int
    recommends
        end <= s.len(),
    decreases end,
{
    if end <= 0 {
        -1
    } else if s[end - 1] == b {
        end - 1
    } else {
        spec_rfind(s, b, end - 1)
    }
}

/// The name and version bytes of the mod record carried by a log line, if
/// the line carries one: the line must hold the `Loading [` marker and at
/// least three opening brackets; the third bracket-delimited segment — the
/// bytes after the third bracket, up to the fourth bracket or the end — is
/// split at its last space, the name before it, the version after it
/// running to just before the segment's final byte (the closing bracket).
/// A missing space, or a space in the segment's last position, yields
/// nothing.
pub open spec fn spec_parse_mod(data: Seq<u8>) -> Option<(Seq<u8>, Seq<u8>)> {
    if !spec_contains_bytes(data, loading_marker()) {
        None
    } else {
        let first = spec_find(data, LEFT_BRACKET, 0);
        let second = spec_find(data, LEFT_BRACKET, first + 1);
        let third = spec_find(data, LEFT_BRACKET, second + 1);
        if third >= data.len() {
            None
        } else {
            let fourth = spec_find(data, LEFT_BRACKET, third + 1);
            let segment = data.subrange(third + 1, fourth);
            let split = spec_rfind(segment, SPACE, segment.len() as int);
            if split < 0 || split + 1 > segment.len() - 1 {
                None
            } else {
                Some((segment.subrange(0, split), segment.subrange(split + 1, segment.len() - 1)))
            }
        }
    }
}

/// A (name, version) pair inferred from a log line signaling that a module
/// finished loading.
pub struct BepInExMod {
    name: String,
    version: String,
}

impl BepInExMod {
    pub fn new(name: &str, version: &str) -> (m: BepInExMod)
        ensures
            m.spec_name()@ == name@,
            m.spec_version()@ == version@,
    {
        BepInExMod { name: name.to_owned(), version: version.to_owned() }
    }

    pub closed spec fn spec_name(self) -> String {
        self.name
    }

    pub closed spec fn spec_version(self) -> String {
        self.version
    }

    /// Name of the mod.
    pub fn name(&self) -> (name: &str)
        ensures
            name@ == self.spec_name()@,
    {
        self.name.as_str()
    }

    /// Version text of the mod.
    pub fn version(&self) -> (version: &str)
        ensures
            version@ == self.spec_version()@,
    {
        self.version.as_str()
    }

    /// The display form of the record: name, one space, version.
    pub fn to_string(&self) -> (r: String)
        ensures
            r@ == self.spec_name()@ + seq![' '] + self.spec_version()@,
    {
        proof {
            reveal_strlit(" ");
        }
        let mut r = String::new();
        r.append(self.name.as_str());
        r.append(" ");
        r.append(self.version.as_str());
        proof {
            assert(r@ =~= self.spec_name()@ + seq![' '] + self.spec_version()@);
        }
        r
    }
}

/// Index of the first occurrence of `b` at or after `from`, or the length
/// if there is none.
fn find_byte(data: &Vec<u8>, b: u8, from: usize) -> (r: usize)
    requires
        from <= data@.len(),
    ensures
        r == spec_find(data@, b, from as int),
        from <= r <= data@.len(),
{
    let mut i = from;
    while i < data.len()
        invariant
            from <= i <= data@.len(),
            spec_find(data@, b, from as int) == spec_find(data@, b, i as int),
        decreases data@.len() - i,
    {
        if data[i] == b {
            return i;
        }
        i += 1;
    }
    i
}

/// Index of the last occurrence of `b` strictly before `end`, if any.
fn rfind_byte(data: &Vec<u8>, b: u8, end: usize) -> (r: Option<usize>)
    requires
        end <= data@.len(),
    ensures
        match r {
            Some(idx) => idx == spec_rfind(data@, b, end as int) && idx < end,
            None => spec_rfind(data@, b, end as int) == -1,
        },
{
    let mut i = end;
    while i > 0
        invariant
            i <= end <= data@.len(),
            spec_rfind(data@, b, end as int) == spec_rfind(data@, b, i as int),
        decreases i,
    {
        if data[i - 1] == b {
            return Some(i - 1);
        }
        i -= 1;
    }
    None
}

/// Whether `needle` occurs contiguously inside `hay`.
fn contains_bytes(hay: &Vec<u8>, needle: &Vec<u8>) -> (r: bool)
    ensures
        r == spec_contains_bytes(hay@, needle@),
{
    let n = needle.len();
    if n == 0 {
        proof {
            assert(hay@.subrange(0, 0 + needle@.len() as int) =~= needle@);
        }
        return true;
    }
    if hay.len() < n {
        return false;
    }
    let hlen = hay.len();
    let mut i: usize = 0;
    let last = hlen - n;
    while i <= last
        invariant
            n == needle@.len(),
            hlen == hay@.len(),
            1 <= n <= hlen,
            last == hlen - n,
            i <= last + 1,
            forall|k: int|
                0 <= k < i ==> #[trigger] hay@.subrange(k, k + needle@.len()) != needle@,
        decreases last + 1 - i,
    {
        let mut j: usize = 0;
        let mut found = true;
        while j < n
            invariant
                n == needle@.len(),
                hlen == hay@.len(),
                i + n <= hlen,
                j <= n,
                found ==> forall|t: int| 0 <= t < j ==> hay@[i + t] == needle@[t],
                !found ==> hay@.subrange(i as int, i + needle@.len()) != needle@,
            decreases n - j,
        {
            if hay[i + j] != needle[j] {
                proof {
                    assert(hay@.subrange(i as int, i + needle@.len())[j as int] == hay@[i + j]);
                }
                found = false;
                j = n;
            } else {
                j += 1;
            }
        }
        if found {
            proof {
                assert(hay@.subrange(i as int, i + needle@.len()) =~= needle@);
            }
            return true;
        }
        i += 1;
    }
    proof {
        assert forall|k: int| 0 <= k && k + needle@.len() <= hay@.len() implies #[trigger] hay@
            .subrange(k, k + needle@.len()) != needle@ by {
            assert(k < i);
        }
    }
    false
}

/// A fresh copy of `data[start..end]`.
fn copy_range(data: &Vec<u8>, start: usize, end: usize) -> (r: Vec<u8>)
    requires
        start <= end <= data@.len(),
    ensures
        r@ == data@.subrange(start as int, end as int),
{
    let mut r: Vec<u8> = Vec::new();
    let mut i = start;
    while i < end
        invariant
            start <= i <= end <= data@.len(),
            r@ == data@.subrange(start as int, i as int),
        decreases end - i,
    {
        r.push(data[i]);
        proof {
            assert(r@ =~= data@.subrange(start as int, i + 1));
        }
        i += 1;
    }
    r
}

/// The name and version bytes of the mod record carried by a log line, if
/// the line carries one.
pub fn parse_mod_bytes(data: &Vec<u8>) -> (r: Option<(Vec<u8>, Vec<u8>)>)
    ensures
        match r {
            Some((name, version)) => spec_parse_mod(data@) == Some((name@, version@)),
            None => spec_parse_mod(data@) is None,
        },
{
    let marker: Vec<u8> = vec![76u8, 111u8, 97u8, 100u8, 105u8, 110u8, 103u8, 32u8, 91u8];
    proof {
        assert(marker@ =~= loading_marker());
    }
    if !contains_bytes(data, &marker) {
        return None;
    }
    let first = find_byte(data, LEFT_BRACKET, 0);
    let second = if first == data.len() {
        data.len()
    } else {
        find_byte(data, LEFT_BRACKET, first + 1)
    };
    let third = if second == data.len() {
        data.len()
    } else {
        find_byte(data, LEFT_BRACKET, second + 1)
    };
    if third >= data.len() {
        return None;
    }
    let fourth = find_byte(data, LEFT_BRACKET, third + 1);
    let segment = copy_range(data, third + 1, fourth);
    let split = match rfind_byte(&segment, SPACE, segment.len()) {
        Some(split) => split,
        None => {
            return None;
        },
    };
    if split + 1 > segment.len() - 1 {
        return None;
    }
    let name = copy_range(&segment, 0, split);
    let version = copy_range(&segment, split + 1, segment.len() - 1);
    Some((name, version))
}

/// The mod record carried by a log line, if the line carries one; the
/// name and version are the decoded text of the parsed byte ranges.
pub fn parse_mod_record(data: &Vec<u8>) -> (r: Option<BepInExMod>)
    ensures
        match r {
            Some(m) => {
                &&& spec_parse_mod(data@) is Some
                &&& m.spec_name()@ == utf8_lossy_of(spec_parse_mod(data@)->Some_0.0)
                &&& m.spec_version()@ == utf8_lossy_of(spec_parse_mod(data@)->Some_0.1)
            },
            None => spec_parse_mod(data@) is None,
        },
{
    match parse_mod_bytes(data) {
        Some((name_bytes, version_bytes)) => {
            let name = packet_bytes_to_utf8_string(name_bytes.as_slice());
            let version = packet_bytes_to_utf8_string(version_bytes.as_slice());
            Some(BepInExMod::new(name.as_str(), version.as_str()))
        },
        None => None,
    }
}

} // verus!
