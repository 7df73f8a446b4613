//! The unit-file name maps: where each unit's fragment files and drop-in
//! symlinks were found, and whether the lookup paths changed since the maps
//! were last built.  Scanning the directories is the caller's concern; the
//! maps, the template fallback and the change detection live here.

use crate::strutil::{
    chars_to_string, ends_with, find_char, spec_ends_with, spec_starts_with, starts_with,
    str_chars, sub_chars,
};
use vstd::prelude::*;
use vstd::string::StringExecFns;

verus! {

/// The hash the change detector keeps over the lookup paths' modification
/// times.
pub uninterp spec fn sip_hash_of(ms: Seq<u128>) -> u64;

/// Relies on siphasher's SipHasher24 with both keys zero, fed every value
/// with write_u128 in order and finished once: the result depends on the
/// sequence of values alone.
#[verifier::external_body]
fn siphash24_times(ms: &Vec<u128>) -> (r: u64)
    ensures
        r == sip_hash_of(ms@),
{
    let mut hasher = siphasher::sip::SipHasher24::new_with_keys(0, 0);
    for m in ms.iter() {
        core::hash::Hasher::write_u128(&mut hasher, *m);
    }
    core::hash::Hasher::finish(&hasher)
}

/// One unit's recorded paths.
#[derive(Debug)]
pub struct NamedPaths {
    /// The unit name.
    pub name: String,
    /// The paths recorded for it.
    pub paths: Vec<String>,
}

/// The paths recorded under `n`, if any; the first record wins.
pub open spec fn paths_of(s: Seq<NamedPaths>, n: Seq<char>, k: int) -> Option<Seq<Seq<char>>>
    decreases s.len() - k,
{
    if k < 0 || k >= s.len() {
        None
    } else if s[k].name@ == n {
        Some(s[k].paths.deep_view())
    } else {
        paths_of(s, n, k + 1)
    }
}

/// Look a name up in a path map.
fn map_get(s: &Vec<NamedPaths>, name: &String) -> (r: Vec<String>)
    ensures
        match paths_of(s@, name@, 0) {
            Some(p) => r.deep_view() == p,
            None => r@.len() == 0,
        },
{
    let mut i: usize = 0;
    let n = s.len();
    while i < n
        invariant
            n == s@.len(),
            i <= n,
            paths_of(s@, name@, 0) == paths_of(s@, name@, i as int),
        decreases n - i,
    {
        if s[i].name == *name {
            return crate::records::clone_strings(&s[i].paths);
        }
        i = i + 1;
    }
    Vec::new()
}

/// Record paths under a name, replacing what was recorded before.
fn map_put(s: &mut Vec<NamedPaths>, name: &String, paths: Vec<String>)
    ensures
        paths_of(final(s)@, name@, 0) == Some(paths.deep_view()),
{
    let mut i: usize = 0;
    let n = s.len();
    while i < n
        invariant
            n == s@.len(),
            *s == *old(s),
            i <= n,
            forall|j: int| 0 <= j < i ==> s@[j].name@ != name@,
        decreases n - i,
    {
        if s[i].name == *name {
            let entry = NamedPaths { name: name.clone(), paths };
            let ghost pv = entry.paths.deep_view();
            s.set(i, entry);
            proof {
                lemma_paths_of_found(s@, name@, 0, i as int);
            }
            return ;
        }
        i = i + 1;
    }
    let entry = NamedPaths { name: name.clone(), paths };
    s.push(entry);
    proof {
        lemma_paths_of_found(s@, name@, 0, s@.len() - 1);
    }
}

proof fn lemma_paths_of_found(s: Seq<NamedPaths>, n: Seq<char>, j: int, i: int)
    requires
        0 <= j <= i < s.len(),
        s[i].name@ == n,
        forall|p: int| j <= p < i ==> s[p].name@ != n,
    ensures
        paths_of(s, n, j) == Some(s[i].paths.deep_view()),
    decreases i - j,
{
    if j < i {
        lemma_paths_of_found(s, n, j + 1, i);
    }
}

/// The template a unit name with an instance falls back to: everything up
/// to the first `@`, then the template service suffix.
pub open spec fn spec_template_name(n: Seq<char>) -> Option<Seq<char>> {
    match crate::cmdline::spec_char_idx(n, '@', 0) {
        Some(i) => Some(n.subrange(0, i) + "@.service"@),
        None => None,
    }
}

/// The template name of an instance name, if it has one.
pub fn template_name_of(name: &str) -> (r: Option<String>)
    ensures
        match r {
            Some(t) => spec_template_name(name@) == Some(t@),
            None => spec_template_name(name@) is None,
        },
{
    let v = str_chars(name);
    match find_char(&v, '@') {
        Some(i) => {
            proof {
                crate::cmdline::lemma_char_idx_found(name@, '@', 0, i as int);
            }
            let prefix = sub_chars(&v, 0, i);
            let s = chars_to_string(&prefix);
            Some(s.concat("@.service"))
        }
        None => {
            proof {
                crate::cmdline::lemma_char_idx_absent(name@, '@', 0);
            }
            None
        }
    }
}

/// One directory entry as the caller's scan saw it.
#[derive(Debug)]
pub struct DirEntryInfo {
    /// The entry's file name.
    pub name: String,
    /// Whether it is a plain file.
    pub is_file: bool,
}

/// Whether a drop-in directory entry counts as a fragment: a plain file
/// whose name neither starts with a dot nor ends in `.toml`.
pub open spec fn spec_fragment_entry(e: DirEntryInfo) -> bool {
    e.is_file && !spec_starts_with(e.name@, "."@) && !spec_ends_with(e.name@, ".toml"@)
}

/// The fragment names among the first `k` entries, in order.
pub open spec fn fragments_prefix(s: Seq<DirEntryInfo>, k: int) -> Seq<Seq<char>>
    decreases k,
{
    if k <= 0 {
        Seq::empty()
    } else if spec_fragment_entry(s[k - 1]) {
        fragments_prefix(s, k - 1).push(s[k - 1].name@)
    } else {
        fragments_prefix(s, k - 1)
    }
}

/// The fragment files among a drop-in directory's entries: hidden files
/// and override files in the configuration format are passed over.
pub fn filter_fragment_files(entries: &Vec<DirEntryInfo>) -> (r: Vec<String>)
    ensures
        r.deep_view() == fragments_prefix(entries@, entries@.len() as int),
{
    let mut r: Vec<String> = Vec::new();
    let mut k: usize = 0;
    let n = entries.len();
    while k < n
        invariant
            n == entries@.len(),
            k <= n,
            r.deep_view() =~= fragments_prefix(entries@, k as int),
        decreases n - k,
    {
        let e = &entries[k];
        if e.is_file && !starts_with(e.name.as_str(), ".") && !ends_with(e.name.as_str(), ".toml")
        {
            let ghost r0 = r.deep_view();
            r.push(e.name.clone());
            proof {
                assert(r.deep_view() =~= r0.push(entries@[k as int].name@));
            }
        }
        k = k + 1;
    }
    r
}

/// The name maps and the change detector.
#[derive(Debug)]
pub struct UnitFileData {
    /// Where each unit's fragment files were found.
    pub unit_id_fragment: Vec<NamedPaths>,
    /// Each unit's wants drop-in symlink targets.
    pub unit_wants_symlink_units: Vec<NamedPaths>,
    /// Each unit's requires drop-in symlink targets.
    pub unit_requires_symlink_units: Vec<NamedPaths>,
    /// The hash of the lookup paths' modification times at the last build.
    pub last_updated_timestamp_hash: u64,
}

impl UnitFileData {
    /// Empty maps and a zero hash.
    pub fn new() -> (r: UnitFileData)
        ensures
            r.unit_id_fragment@.len() == 0,
            r.unit_wants_symlink_units@.len() == 0,
            r.unit_requires_symlink_units@.len() == 0,
            r.last_updated_timestamp_hash == 0,
    {
        UnitFileData {
            unit_id_fragment: Vec::new(),
            unit_wants_symlink_units: Vec::new(),
            unit_requires_symlink_units: Vec::new(),
            last_updated_timestamp_hash: 0,
        }
    }

    /// The fragment paths recorded for a unit; none reads as empty.
    pub fn get_unit_id_fragment_pathbuf(&self, name: &String) -> (r: Vec<String>)
        ensures
            match paths_of(self.unit_id_fragment@, name@, 0) {
                Some(p) => r.deep_view() == p,
                None => r@.len() == 0,
            },
    {
        map_get(&self.unit_id_fragment, name)
    }

    /// The wants symlink targets recorded for a unit; none reads as empty.
    pub fn get_unit_wants_symlink_units(&self, name: &String) -> (r: Vec<String>)
        ensures
            match paths_of(self.unit_wants_symlink_units@, name@, 0) {
                Some(p) => r.deep_view() == p,
                None => r@.len() == 0,
            },
    {
        map_get(&self.unit_wants_symlink_units, name)
    }

    /// The requires symlink targets recorded for a unit; none reads as
    /// empty.
    pub fn get_unit_requires_symlink_units(&self, name: &String) -> (r: Vec<String>)
        ensures
            match paths_of(self.unit_requires_symlink_units@, name@, 0) {
                Some(p) => r.deep_view() == p,
                None => r@.len() == 0,
            },
    {
        map_get(&self.unit_requires_symlink_units, name)
    }

    /// Record a unit's fragments: what the search paths yielded for its
    /// own name, falling back to its template's fragments when the name
    /// has an instance part and nothing was found for it.
    pub fn build_id_fragment(
        &mut self,
        name: &String,
        fragments: Vec<String>,
        template_fragments: Vec<String>,
    )
        ensures
            final(self).unit_wants_symlink_units == old(self).unit_wants_symlink_units,
            final(self).unit_requires_symlink_units == old(self).unit_requires_symlink_units,
            final(self).last_updated_timestamp_hash == old(self).last_updated_timestamp_hash,
            fragments@.len() > 0 || (spec_template_name(name@) is None) ==> paths_of(
                final(self).unit_id_fragment@,
                name@,
                0,
            ) == Some(fragments.deep_view()),
            fragments@.len() == 0 && (spec_template_name(name@) is Some) ==> paths_of(
                final(self).unit_id_fragment@,
                name@,
                0,
            ) == Some(template_fragments.deep_view()),
    {
        let has_instance = match template_name_of(name.as_str()) {
            Some(_) => true,
            None => false,
        };
        if fragments.len() > 0 || !has_instance {
            map_put(&mut self.unit_id_fragment, name, fragments);
        } else {
            map_put(&mut self.unit_id_fragment, name, template_fragments);
        }
    }

    /// Record a unit's drop-in symlink targets under the given suffix.
    /// Only the wants and requires suffixes exist.
    pub fn build_id_dropin(&mut self, name: &String, suffix: &str, symlink_names: Vec<String>)
        requires
            suffix@ == "wants"@ || suffix@ == "requires"@,
        ensures
            final(self).unit_id_fragment == old(self).unit_id_fragment,
            final(self).last_updated_timestamp_hash == old(self).last_updated_timestamp_hash,
            (if suffix@ == "wants"@ {
                paths_of(final(self).unit_wants_symlink_units@, name@, 0) == Some(
                    symlink_names.deep_view(),
                ) && final(self).unit_requires_symlink_units == old(
                    self,
                ).unit_requires_symlink_units
            } else {
                paths_of(final(self).unit_requires_symlink_units@, name@, 0) == Some(
                    symlink_names.deep_view(),
                ) && final(self).unit_wants_symlink_units == old(self).unit_wants_symlink_units
            }),
    {
        let is_wants = suffix.to_owned() == "wants".to_owned();
        if is_wants {
            map_put(&mut self.unit_wants_symlink_units, name, symlink_names);
        } else {
            map_put(&mut self.unit_requires_symlink_units, name, symlink_names);
        }
    }

    /// Whether the lookup paths changed since the last build: the hash of
    /// their modification times differs from the remembered one, which is
    /// replaced either way.
    pub fn lookup_paths_updated(&mut self, mtimes: &Vec<u128>) -> (r: bool)
        ensures
            r == (sip_hash_of(mtimes@) != old(self).last_updated_timestamp_hash),
            final(self).last_updated_timestamp_hash == sip_hash_of(mtimes@),
            final(self).unit_id_fragment == old(self).unit_id_fragment,
            final(self).unit_wants_symlink_units == old(self).unit_wants_symlink_units,
            final(self).unit_requires_symlink_units == old(self).unit_requires_symlink_units,
    {
        let updated = siphash24_times(mtimes);
        let path_updated = updated != self.last_updated_timestamp_hash;
        self.last_updated_timestamp_hash = updated;
        path_updated
    }

    /// Rebuild a unit's maps from fresh scan results when it was never
    /// loaded or the lookup paths changed; otherwise the maps are kept.
    pub fn build_id_map(
        &mut self,
        name: &String,
        has_loaded: bool,
        mtimes: &Vec<u128>,
        fragments: Vec<String>,
        template_fragments: Vec<String>,
        wants_names: Vec<String>,
        requires_names: Vec<String>,
    )
        ensures
            final(self).last_updated_timestamp_hash == (if !has_loaded {
                old(self).last_updated_timestamp_hash
            } else {
                sip_hash_of(mtimes@)
            }),
            maps_built(
                *old(self),
                *final(self),
                name@,
                has_loaded,
                mtimes@,
                fragments.deep_view(),
                template_fragments.deep_view(),
                wants_names.deep_view(),
                requires_names.deep_view(),
            ),
    {
        let ghost fv = fragments.deep_view();
        let ghost tv = template_fragments.deep_view();
        let ghost wv = wants_names.deep_view();
        let ghost rv = requires_names.deep_view();
        let rebuild = if !has_loaded {
            true
        } else {
            self.lookup_paths_updated(mtimes)
        };
        if rebuild {
            self.build_id_fragment(name, fragments, template_fragments);
            self.build_id_dropin(name, "wants", wants_names);
            let ghost mid = *self;
            self.build_id_dropin(name, "requires", requires_names);
            proof {
                reveal_strlit("wants");
                reveal_strlit("requires");
                assert("wants"@.len() == 5);
                assert("requires"@.len() == 8);
                assert("wants"@ != "requires"@);
                assert(self.unit_wants_symlink_units == mid.unit_wants_symlink_units);
                assert(paths_of(self.unit_requires_symlink_units@, name@, 0) == Some(rv));
            }
        }
    }
}

/// What one `build_id_map` pass promises: with the unit already loaded and
/// the lookup paths unchanged, all three maps stay as they are; otherwise
/// the unit's entries are rebuilt from the scan results, with the template
/// fallback applied to the fragments.
pub open spec fn maps_built(
    pre: UnitFileData,
    post: UnitFileData,
    name: Seq<char>,
    has_loaded: bool,
    mtimes: Seq<u128>,
    fragments: Seq<Seq<char>>,
    template_fragments: Seq<Seq<char>>,
    wants_names: Seq<Seq<char>>,
    requires_names: Seq<Seq<char>>,
) -> bool {
    let rebuild = !has_loaded || sip_hash_of(mtimes) != pre.last_updated_timestamp_hash;
    &&& !rebuild ==> post.unit_id_fragment == pre.unit_id_fragment
        && post.unit_wants_symlink_units == pre.unit_wants_symlink_units
        && post.unit_requires_symlink_units == pre.unit_requires_symlink_units
    &&& rebuild ==> ({
        &&& paths_of(post.unit_id_fragment@, name, 0) == Some(
            if fragments.len() > 0 || (spec_template_name(name) is None) {
                fragments
            } else {
                template_fragments
            },
        )
        &&& paths_of(post.unit_wants_symlink_units@, name, 0) == Some(wants_names)
        &&& paths_of(post.unit_requires_symlink_units@, name, 0) == Some(requires_names)
    })
}

/// The unit-file lookup component.
#[derive(Debug)]
pub struct UnitFile {
    /// Its data.
    pub data: UnitFileData,
}

impl UnitFile {
    /// A fresh component with empty maps.
    pub fn new() -> (r: UnitFile)
        ensures
            r.data.unit_id_fragment@.len() == 0,
            r.data.unit_wants_symlink_units@.len() == 0,
            r.data.unit_requires_symlink_units@.len() == 0,
            r.data.last_updated_timestamp_hash == 0,
    {
        UnitFile { data: UnitFileData::new() }
    }

    /// Rebuild a unit's maps from fresh scan results, as `build_id_map`
    /// does.
    pub fn build_name_map(
        &mut self,
        name: String,
        has_loaded: bool,
        mtimes: &Vec<u128>,
        fragments: Vec<String>,
        template_fragments: Vec<String>,
        wants_names: Vec<String>,
        requires_names: Vec<String>,
    )
        ensures
            final(self).data.last_updated_timestamp_hash == (if !has_loaded {
                old(self).data.last_updated_timestamp_hash
            } else {
                sip_hash_of(mtimes@)
            }),
            maps_built(
                old(self).data,
                final(self).data,
                name@,
                has_loaded,
                mtimes@,
                fragments.deep_view(),
                template_fragments.deep_view(),
                wants_names.deep_view(),
                requires_names.deep_view(),
            ),
    {
        self.data.build_id_map(
            &name,
            has_loaded,
            mtimes,
            fragments,
            template_fragments,
            wants_names,
            requires_names,
        );
    }

    /// The fragment paths recorded for a unit.
    pub fn get_unit_id_fragment_pathbuf(&self, name: &String) -> (r: Vec<String>)
        ensures
            match paths_of(self.data.unit_id_fragment@, name@, 0) {
                Some(p) => r.deep_view() == p,
                None => r@.len() == 0,
            },
    {
        self.data.get_unit_id_fragment_pathbuf(name)
    }

    /// The wants symlink targets recorded for a unit.
    pub fn get_unit_wants_symlink_units(&self, name: &String) -> (r: Vec<String>)
        ensures
            match paths_of(self.data.unit_wants_symlink_units@, name@, 0) {
                Some(p) => r.deep_view() == p,
                None => r@.len() == 0,
            },
    {
        self.data.get_unit_wants_symlink_units(name)
    }

    /// The requires symlink targets recorded for a unit.
    pub fn get_unit_requires_symlink_units(&self, name: &String) -> (r: Vec<String>)
        ensures
            match paths_of(self.data.unit_requires_symlink_units@, name@, 0) {
                Some(p) => r.deep_view() == p,
                None => r@.len() == 0,
            },
    {
        self.data.get_unit_requires_symlink_units(name)
    }
}


} // verus!
