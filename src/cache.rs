use vstd::prelude::*;
use crate::version::{parsed_version, version_eq, Version, VersionModel};
use crate::text::push_char;

verus! {

/// One entry of the artifact cache directory: its file name and its full path.
pub struct CacheEntry {
    pub name: String,
    pub path: String,
}

/// Whether `p` occurs in `s` at position `i`.
pub open spec fn occurs_at(s: Seq<char>, p: Seq<char>, i: nat) -> bool {
    i + p.len() <= s.len() && s.subrange(i as int, (i + p.len()) as int) == p
}

/// The first position at or after `i` where `p` occurs in `s`.
pub open spec fn first_occurrence(s: Seq<char>, p: Seq<char>, i: nat) -> Option<nat>
    decreases s.len() + 1 - i,
{
    if i + p.len() > s.len() {
        None
    } else if occurs_at(s, p, i) {
        Some(i)
    } else {
        first_occurrence(s, p, i + 1)
    }
}

/// The version part of the cache entry `name` of tool `tool`: the name must begin
/// with the tool's name; the part is what lies between the first occurrence of
/// `<tool>-` and the next one, or the end.
pub open spec fn version_part(name: Seq<char>, tool: Seq<char>) -> Option<Seq<char>> {
    let sep = tool.push('-');
    if !tool.is_prefix_of(name) {
        None
    } else {
        match first_occurrence(name, sep, 0) {
            None => None,
            Some(i) => {
                let start = (i + sep.len()) as int;
                match first_occurrence(name, sep, start as nat) {
                    None => Some(name.subrange(start, name.len() as int)),
                    Some(j) => Some(name.subrange(start, j as int)),
                }
            },
        }
    }
}

/// The version that the cache entry `name` holds of tool `tool`, if its name
/// carries one that parses.
pub open spec fn entry_version(name: Seq<char>, tool: Seq<char>) -> Option<VersionModel> {
    match version_part(name, tool) {
        Some(t) => parsed_version(t),
        None => None,
    }
}

/// Whether the entry named `name` holds exactly version `target` of `tool`.
pub open spec fn entry_matches(name: Seq<char>, tool: Seq<char>, target: VersionModel) -> bool {
    match entry_version(name, tool) {
        Some(v) => version_eq(v, target),
        None => false,
    }
}

/// The position of the first of `names[i..]` that holds exactly version `target`
/// of `tool`.
pub open spec fn first_index(names: Seq<Seq<char>>, tool: Seq<char>, target: VersionModel, i: nat) -> Option<nat>
    decreases names.len() - i,
{
    if i >= names.len() {
        None
    } else if entry_matches(names[i as int], tool, target) {
        Some(i)
    } else {
        first_index(names, tool, target, i + 1)
    }
}

/// The entry that the search settles on holds exactly the version asked for.
pub proof fn lemma_first_index_matches(names: Seq<Seq<char>>, tool: Seq<char>, target: VersionModel, i: nat)
    ensures
        first_index(names, tool, target, i) matches Some(k) ==> i <= k < names.len()
            && entry_matches(names[k as int], tool, target),
    decreases names.len() - i,
{
    if i < names.len() && !entry_matches(names[i as int], tool, target) {
        lemma_first_index_matches(names, tool, target, i + 1);
    }
}

/// An entry whose name carries a version part that does not parse is never the one
/// selected, whatever version is asked for.
pub proof fn lemma_unparseable_never_selected(
    names: Seq<Seq<char>>,
    tool: Seq<char>,
    target: VersionModel,
    k: int,
)
    requires
        0 <= k < names.len(),
        version_part(names[k], tool) matches Some(t) && parsed_version(t) is None,
    ensures
        !entry_matches(names[k], tool, target),
        first_index(names, tool, target, 0) != Some(k as nat),
{
    lemma_first_index_matches(names, tool, target, 0);
}

/// The file names of a listing.
pub open spec fn names_of(entries: Seq<CacheEntry>) -> Seq<Seq<char>> {
    entries.map_values(|e: CacheEntry| e.name@)
}

/// Whether `p` occurs in `s` at position `i`.
fn occurs_at_exec(s: &str, p: &str, i: usize) -> (r: bool)
    requires
        i <= s@.len(),
    ensures
        r == occurs_at(s@, p@, i as nat),
{
    let n = s.unicode_len();
    let m = p.unicode_len();
    if m > n - i {
        return false;
    }
    let mut k: usize = 0;
    while k < m
        invariant
            n == s@.len(),
            m == p@.len(),
            i + m <= n,
            k <= m,
            forall|q: int| 0 <= q < k ==> s@[i + q] == p@[q],
        decreases m - k,
    {
        if s.get_char(i + k) != p.get_char(k) {
            assert(s@.subrange(i as int, i + m)[k as int] != p@[k as int]);
            return false;
        }
        k = k + 1;
    }
    assert(s@.subrange(i as int, i + m) =~= p@);
    true
}

/// The first position at or after `from` where `p` occurs in `s`.
fn find_from(s: &str, p: &str, from: usize) -> (r: Option<usize>)
    requires
        from <= s@.len(),
    ensures
        r is None <==> first_occurrence(s@, p@, from as nat) is None,
        r matches Some(i) ==> first_occurrence(s@, p@, from as nat) == Some(i as nat),
        r matches Some(i) ==> from <= i && i + p@.len() <= s@.len(),
{
    let n = s.unicode_len();
    let m = p.unicode_len();
    if m > n || from > n - m {
        return None;
    }
    let mut i: usize = from;
    while i < n - m
        invariant
            n == s@.len(),
            m == p@.len(),
            m <= n,
            from <= i <= n - m,
            first_occurrence(s@, p@, from as nat) == first_occurrence(s@, p@, i as nat),
        decreases n - m - i,
    {
        if occurs_at_exec(s, p, i) {
            return Some(i);
        }
        i = i + 1;
    }
    if occurs_at_exec(s, p, i) {
        Some(i)
    } else {
        assert(first_occurrence(s@, p@, (i + 1) as nat) is None);
        None
    }
}

/// The version part of the entry `name` of tool `tool`, as text.
pub fn version_part_of(name: &str, tool: &str) -> (r: Option<String>)
    ensures
        r matches Some(t) ==> version_part(name@, tool@) == Some(t@),
        r is None ==> version_part(name@, tool@) is None,
{
    if !occurs_at_exec(name, tool, 0) {
        proof {
            if tool@.is_prefix_of(name@) {
                assert(name@.subrange(0, tool@.len() as int) =~= tool@);
            }
        }
        return None;
    }
    assert(tool@.is_prefix_of(name@)) by {
        assert forall|k: int| 0 <= k < tool@.len() implies tool@[k] == name@[k] by {
            assert(name@.subrange(0, tool@.len() as int)[k] == name@[k]);
        }
    }
    let mut sep = String::from_str(tool);
    push_char(&mut sep, '-');
    let n = name.unicode_len();
    let i = match find_from(name, sep.as_str(), 0) {
        Some(i) => i,
        None => return None,
    };
    let start = i + sep.unicode_len();
    let end = match find_from(name, sep.as_str(), start) {
        Some(j) => j,
        None => n,
    };
    let part = name.substring_char(start, end);
    let r = String::from_str(part);
    assert(sep@ == tool@.push('-'));
    assert(version_part(name@, tool@) == Some(r@));
    Some(r)
}

/// Whether the entry named `name` holds exactly version `target` of `tool`, and
/// that version if so.
fn matching_version(name: &str, tool: &str, target: &Version) -> (r: Option<Version>)
    ensures
        r is Some <==> entry_matches(name@, tool@, target@),
        r matches Some(v) ==> entry_version(name@, tool@) == Some(v@),
{
    let part = match version_part_of(name, tool) {
        Some(p) => p,
        None => return None,
    };
    match Version::parse(part.as_str()) {
        Some(v) => {
            if v.same_as(target) {
                Some(v)
            } else {
                None
            }
        },
        None => None,
    }
}

/// Looks through a listing of the cache directory for the first entry that holds
/// exactly version `target` of `tool_name`; returns that version and the entry's
/// path. Entries whose names carry no parseable version are passed over.
pub fn get_installation(tool_name: &str, target: &Version, entries: &Vec<CacheEntry>) -> (r: Option<
    (Version, String),
>)
    ensures
        match first_index(names_of(entries@), tool_name@, target@, 0) {
            None => r is None,
            Some(i) => r matches Some((v, p)) && p@ == entries@[i as int].path@ && entry_version(
                entries@[i as int].name@,
                tool_name@,
            ) == Some(v@),
        },
{
    let ghost names = names_of(entries@);
    let mut i: usize = 0;
    while i < entries.len()
        invariant
            names == names_of(entries@),
            names.len() == entries@.len(),
            i <= entries.len(),
            first_index(names, tool_name@, target@, 0) == first_index(names, tool_name@, target@, i as nat),
        decreases entries.len() - i,
    {
        let e = &entries[i];
        assert(names[i as int] == e.name@);
        match matching_version(e.name.as_str(), tool_name, target) {
            Some(v) => {
                let p = e.path.clone();
                return Some((v, p));
            },
            None => {},
        }
        i = i + 1;
    }
    None
}

} // verus!
