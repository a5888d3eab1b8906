//! Picks the newest release of a release index and an asset of it.

use vstd::prelude::*;
use crate::error::InstallError;
use crate::text::{answered, contains_str, lower_of, lowercase, seq_contains, to_chars};

verus! {

/// A downloadable file attached to a release.
pub struct ReleaseAsset {
    pub name: String,
    pub browser_download_url: String,
}

/// One entry of a release index.
pub struct Release {
    pub published_at: String,
    pub assets: Vec<ReleaseAsset>,
}

pub open spec fn is_digit(c: char) -> bool {
    48 <= (c as u32) <= 57
}

pub open spec fn digit_value(c: char) -> nat {
    ((c as u32) - 48) as nat
}

/// The separator that a timestamp `YYYY-MM-DDTHH:MM:SSZ` has at position `i`,
/// if any; every other position holds a digit.
pub open spec fn separator_at(i: int) -> Option<char> {
    if i == 4 || i == 7 {
        Some('-')
    } else if i == 10 {
        Some('T')
    } else if i == 13 || i == 16 {
        Some(':')
    } else if i == 19 {
        Some('Z')
    } else {
        None
    }
}

pub open spec fn timestamp_char_ok(s: Seq<char>, i: int) -> bool {
    match separator_at(i) {
        Some(c) => s[i] == c,
        None => is_digit(s[i]),
    }
}

/// `s` is a timestamp in the fixed format `YYYY-MM-DDTHH:MM:SSZ`.
pub open spec fn timestamp_shape(s: Seq<char>) -> bool {
    s.len() == 20 && forall|i: int| 0 <= i < 20 ==> #[trigger] timestamp_char_ok(s, i)
}

/// The number that the digits among the first `n` characters spell.
pub open spec fn digits_value(s: Seq<char>, n: int) -> nat
    decreases n,
{
    if n <= 0 {
        0
    } else if separator_at(n - 1) is Some {
        digits_value(s, n - 1)
    } else {
        digits_value(s, n - 1) * 10 + digit_value(s[n - 1])
    }
}

/// The key by which timestamps are ordered: its digits read as one number,
/// which orders the fixed format as the text does. `None` if unparsable.
pub open spec fn timestamp_key(s: Seq<char>) -> Option<nat> {
    if timestamp_shape(s) {
        Some(digits_value(s, 20))
    } else {
        None
    }
}

pub open spec fn release_key(r: Release) -> Option<nat> {
    timestamp_key(r.published_at@)
}

/// Release `i` is the newest: its timestamp parses, none is later, and every
/// later entry of the index is strictly older (among equals the last wins).
pub open spec fn is_newest(rels: Seq<Release>, i: int) -> bool {
    &&& 0 <= i < rels.len()
    &&& release_key(rels[i]) is Some
    &&& forall|j: int| 0 <= j < rels.len() && (#[trigger] release_key(rels[j])) is Some
        ==> release_key(rels[j])->0 <= release_key(rels[i])->0
    &&& forall|j: int| i < j < rels.len() && (#[trigger] release_key(rels[j])) is Some
        ==> release_key(rels[j])->0 < release_key(rels[i])->0
}

/// No entry of the index has a parsable timestamp (also when it is empty).
pub open spec fn no_dated_release(rels: Seq<Release>) -> bool {
    forall|j: int| 0 <= j < rels.len() ==> (#[trigger] release_key(rels[j])) is None
}

pub open spec fn pow10(n: nat) -> nat
    decreases n,
{
    if n == 0 { 1 } else { 10 * pow10((n - 1) as nat) }
}

proof fn lemma_digits_value_bound(s: Seq<char>, n: int)
    requires
        0 <= n <= 20,
        s.len() == 20,
        forall|i: int| 0 <= i < n ==> #[trigger] timestamp_char_ok(s, i),
    ensures
        digits_value(s, n) < pow10(n as nat),
    decreases n,
{
    if n > 0 {
        lemma_digits_value_bound(s, n - 1);
        assert(timestamp_char_ok(s, n - 1));
        assert(pow10(n as nat) == 10 * pow10((n - 1) as nat));
    }
}

proof fn lemma_pow10_20()
    ensures
        pow10(20) == 100000000000000000000,
{
    reveal_with_fuel(pow10, 21);
}

/// Parses a timestamp `YYYY-MM-DDTHH:MM:SSZ` into its ordering key.
pub fn timestamp_key_of(s: &str) -> (r: Option<u128>)
    ensures
        match r {
            Some(k) => timestamp_key(s@) == Some(k as nat),
            None => timestamp_key(s@) is None,
        },
{
    let cs = to_chars(s);
    if cs.len() != 20 {
        return None;
    }
    let mut acc: u128 = 0;
    let mut i: usize = 0;
    while i < 20
        invariant
            cs@ == s@,
            cs@.len() == 20,
            i <= 20,
            forall|k: int| 0 <= k < i ==> #[trigger] timestamp_char_ok(s@, k),
            acc as nat == digits_value(s@, i as int),
        decreases 20 - i,
    {
        let c = cs[i];
        proof {
            lemma_digits_value_bound(s@, i as int);
            lemma_pow10_20();
            assert(pow10(i as nat) <= pow10(20)) by {
                lemma_pow10_mono(i as nat, 20);
            }
        }
        if i == 4 || i == 7 {
            if c != '-' {
                assert(!timestamp_char_ok(s@, i as int));
                return None;
            }
        } else if i == 10 {
            if c != 'T' {
                assert(!timestamp_char_ok(s@, i as int));
                return None;
            }
        } else if i == 13 || i == 16 {
            if c != ':' {
                assert(!timestamp_char_ok(s@, i as int));
                return None;
            }
        } else if i == 19 {
            if c != 'Z' {
                assert(!timestamp_char_ok(s@, i as int));
                return None;
            }
        } else {
            let code = c as u32;
            if code < 48 || code > 57 {
                assert(!timestamp_char_ok(s@, i as int));
                return None;
            }
            acc = acc * 10 + (code - 48) as u128;
        }
        i = i + 1;
    }
    Some(acc)
}

proof fn lemma_pow10_mono(a: nat, b: nat)
    requires
        a <= b,
    ensures
        pow10(a) <= pow10(b),
    decreases b,
{
    if a < b {
        lemma_pow10_mono(a, (b - 1) as nat);
    }
}

/// The index of the newest release, or `None` where no timestamp parses.
pub fn newest_release_index(rels: &Vec<Release>) -> (r: Option<usize>)
    ensures
        match r {
            Some(i) => is_newest(rels@, i as int),
            None => no_dated_release(rels@),
        },
{
    let mut best: Option<usize> = None;
    let mut best_key: u128 = 0;
    let mut j: usize = 0;
    while j < rels.len()
        invariant
            j <= rels@.len(),
            match best {
                Some(b) => {
                    &&& b < j
                    &&& release_key(rels@[b as int]) == Some(best_key as nat)
                    &&& forall|k: int| 0 <= k < j && (#[trigger] release_key(rels@[k])) is Some
                        ==> release_key(rels@[k])->0 <= best_key
                    &&& forall|k: int| b < k < j && (#[trigger] release_key(rels@[k])) is Some
                        ==> release_key(rels@[k])->0 < best_key
                },
                None => forall|k: int| 0 <= k < j ==> (#[trigger] release_key(rels@[k])) is None,
            },
        decreases rels@.len() - j,
    {
        let key = timestamp_key_of(rels[j].published_at.as_str());
        assert(release_key(rels@[j as int]) == match key {
            Some(k) => Some(k as nat),
            None => None::<nat>,
        });
        match key {
            Some(k) => {
                let take = match best {
                    Some(_) => k >= best_key,
                    None => true,
                };
                if take {
                    proof {
                        assert forall|q: int| 0 <= q <= j && (#[trigger] release_key(rels@[q])) is Some
                            implies release_key(rels@[q])->0 <= k by {
                            if q < j {
                                if best is None {
                                    assert(release_key(rels@[q]) is None);
                                }
                            }
                        }
                    }
                    best = Some(j);
                    best_key = k;
                }
            },
            None => {},
        }
        j = j + 1;
    }
    best
}

/// The download link of the first asset of the newest release whose name
/// `is_valid_file` accepts; names are passed as they are, case included.
pub fn resolve_asset_url<F: Fn(&str) -> bool>(rels: &Vec<Release>, is_valid_file: &F) -> (r:
    Result<String, InstallError>)
    requires
        forall|s: &str| #[trigger] is_valid_file.requires((s,)),
    ensures
        match r {
            Ok(url) => exists|i: int, a: int| {
                &&& is_newest(rels@, i)
                &&& 0 <= a < rels@[i].assets@.len()
                &&& url@ == rels@[i].assets@[a].browser_download_url@
                &&& answered(*is_valid_file, rels@[i].assets@[a].name@, true)
                &&& forall|k: int| 0 <= k < a ==> answered(*is_valid_file, #[trigger] rels@[i].assets@[k].name@, false)
            },
            Err(e) => {
                &&& e is NotFound
                &&& (no_dated_release(rels@) || exists|i: int| {
                    &&& is_newest(rels@, i)
                    &&& forall|k: int| 0 <= k < rels@[i].assets@.len() ==> answered(*is_valid_file, #[trigger] rels@[i].assets@[k].name@, false)
                })
            },
        },
{
    let newest = newest_release_index(rels);
    match newest {
        None => Err(InstallError::NotFound),
        Some(i) => {
            let assets = &rels[i].assets;
            let mut a: usize = 0;
            while a < assets.len()
                invariant
                    i < rels@.len(),
                    is_newest(rels@, i as int),
                    assets == &rels@[i as int].assets,
                    a <= assets@.len(),
                    forall|s: &str| #[trigger] is_valid_file.requires((s,)),
                    forall|k: int| 0 <= k < a ==> answered(*is_valid_file, #[trigger] assets@[k].name@, false),
                decreases assets@.len() - a,
            {
                let name = assets[a].name.as_str();
                let ok = is_valid_file(name);
                if ok {
                    let url = assets[a].browser_download_url.clone();
                    assert(answered(*is_valid_file, assets@[a as int].name@, true));
                    assert(url@ == rels@[i as int].assets@[a as int].browser_download_url@);
                    assert(is_newest(rels@, i as int));
                    assert(forall|k: int| 0 <= k < a ==> answered(*is_valid_file, #[trigger] rels@[i as int].assets@[k].name@, false));
                    return Ok(url);
                }
                assert(answered(*is_valid_file, assets@[a as int].name@, false));
                a = a + 1;
            }
            Err(InstallError::NotFound)
        },
    }
}

/// The newest release is well defined: at most one index is newest.
pub proof fn lemma_newest_unique(rels: Seq<Release>, i: int, j: int)
    requires
        is_newest(rels, i),
        is_newest(rels, j),
    ensures
        i == j,
{
    if i < j {
        assert(release_key(rels[j]) is Some);
    } else if j < i {
        assert(release_key(rels[i]) is Some);
    }
}

/// The name of a portable launcher build for 64-bit x86 Windows.
pub open spec fn portable_asset_spec(name: Seq<char>) -> bool {
    seq_contains(lower_of(name), "portable"@) && seq_contains(name, "MSVC"@)
        && !seq_contains(name, "arm64"@)
}

/// The name of a launcher installer for 64-bit x86 Windows.
pub open spec fn installer_asset_spec(name: Seq<char>) -> bool {
    seq_contains(name, ".exe"@) && seq_contains(name, "MSVC"@) && !seq_contains(name, "arm64"@)
}

/// Accepts the asset of a portable build; "portable" in any case.
pub fn is_portable_asset(name: &str) -> (r: bool)
    ensures
        r == portable_asset_spec(name@),
{
    let lower = lowercase(name);
    contains_str(lower.as_str(), "portable") && contains_str(name, "MSVC") && !contains_str(
        name,
        "arm64",
    )
}

/// Accepts the asset of an installer.
pub fn is_installer_asset(name: &str) -> (r: bool)
    ensures
        r == installer_asset_spec(name@),
{
    contains_str(name, ".exe") && contains_str(name, "MSVC") && !contains_str(name, "arm64")
}

} // verus!
