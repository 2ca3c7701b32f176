//! The registry of discrete libraries: which one is active, how the stored
//! registry is read back, and how libraries are created, renamed, deleted
//! and ordered.

use vstd::prelude::*;

use crate::order::{stable_order, stably_sorted};
use crate::seqs::lemma_distinct_within_bound;
use crate::text::{
    decimal, decimal_string, join_path, lemma_decimal_injective, lowercase, path_join,
    format_count, format_count_spec, remove_controls, str_eq, take_chars, to_lowercase, trim, trim_spec, typed_text,
    typed_text_spec, without_controls,
};

verus! {

/// A discrete user library backed by its own database file.
#[derive(Debug)]
pub struct LibraryProfile {
    pub id: String,
    pub name: String,
    pub db_path: String,
}

/// The plain content of a library profile.
pub struct ProfileView {
    pub id: Seq<char>,
    pub name: Seq<char>,
    pub db_path: Seq<char>,
}

impl View for LibraryProfile {
    type V = ProfileView;

    open spec fn view(&self) -> ProfileView {
        ProfileView { id: self.id@, name: self.name@, db_path: self.db_path@ }
    }
}

impl LibraryProfile {
    /// A copy with the same content.
    pub fn duplicate(&self) -> (copy: Self)
        ensures
            copy@ == self@,
    {
        LibraryProfile { id: self.id.clone(), name: self.name.clone(), db_path: self.db_path.clone() }
    }
}

/// Modal mode for creating or renaming a library.
#[derive(Debug)]
pub enum LibraryNameDialog {
    Create,
    Rename(String),
}

/// The registry as it is stored on disk.
#[derive(Debug)]
pub struct StoredLibraryRegistry {
    pub active_library_id: String,
    pub libraries: Vec<LibraryProfile>,
}

/// The libraries, the active one, and the library switcher's inputs.
#[derive(Debug)]
pub struct LibraryRegistryRuntime {
    pub profiles: Vec<LibraryProfile>,
    pub active_library_id: String,
    pub new_library_name: String,
    /// The rename field of each library, keyed by library id.
    pub rename_inputs: Vec<(String, String)>,
    pub open_menu_library_id: Option<String>,
    pub name_dialog: Option<LibraryNameDialog>,
}

/// Why a registry change was refused.
#[derive(Debug, Clone, Copy, PartialEq, Eq, Structural)]
pub enum RegistryError {
    EmptyName,
    NotFound,
    LastLibrary,
}

/// The message shown for each refusal.
pub open spec fn registry_error_message(error: RegistryError) -> Seq<char> {
    match error {
        RegistryError::EmptyName => "Library name cannot be empty."@,
        RegistryError::NotFound => "Library was not found."@,
        RegistryError::LastLibrary => "At least one library must remain."@,
    }
}

impl RegistryError {
    /// The message shown to the user.
    pub fn message(self) -> (text: &'static str)
        ensures
            text@ == registry_error_message(self),
    {
        match self {
            RegistryError::EmptyName => "Library name cannot be empty.",
            RegistryError::NotFound => "Library was not found.",
            RegistryError::LastLibrary => "At least one library must remain.",
        }
    }
}

/// The id of the library every installation starts with.
pub open spec fn default_library_id() -> Seq<char> {
    "default"@
}

/// The name of the library every installation starts with.
pub open spec fn default_library_name() -> Seq<char> {
    "Default Library"@
}

/// The profiles' ids, in order.
pub open spec fn profile_ids(profiles: Seq<LibraryProfile>) -> Seq<Seq<char>> {
    profiles.map_values(|p: LibraryProfile| p.id@)
}

/// The profiles' contents, in order.
pub open spec fn profile_views(profiles: Seq<LibraryProfile>) -> Seq<ProfileView> {
    profiles.map_values(|p: LibraryProfile| p@)
}

/// The rename fields' contents, in order.
pub open spec fn pair_views(pairs: Seq<(String, String)>) -> Seq<(Seq<char>, Seq<char>)> {
    pairs.map_values(|p: (String, String)| (p.0@, p.1@))
}

/// One rename field per profile, holding its id and its name.
pub open spec fn rename_fields(profiles: Seq<LibraryProfile>) -> Seq<(Seq<char>, Seq<char>)> {
    profiles.map_values(|p: LibraryProfile| (p.id@, p.name@))
}

/// The position of the first profile with the given id, or -1.
pub open spec fn profile_position(profiles: Seq<LibraryProfile>, id: Seq<char>) -> int
    decreases profiles.len(),
{
    if profiles.len() == 0 {
        -1
    } else if profiles[0].id@ == id {
        0
    } else {
        let rest = profile_position(profiles.drop_first(), id);
        if rest < 0 {
            -1
        } else {
            rest + 1
        }
    }
}

pub proof fn lemma_profile_position(profiles: Seq<LibraryProfile>, id: Seq<char>)
    ensures
        -1 <= profile_position(profiles, id) < profiles.len(),
        profile_position(profiles, id) >= 0 ==> profiles[profile_position(profiles, id)].id@ == id
            && forall|j: int| 0 <= j < profile_position(profiles, id) ==> (#[trigger] profiles[j]).id@ != id,
        profile_position(profiles, id) < 0 <==> !profile_ids(profiles).contains(id),
    decreases profiles.len(),
{
    if profiles.len() > 0 {
        let rest = profiles.drop_first();
        lemma_profile_position(rest, id);
        let r = profile_position(rest, id);
        if profiles[0].id@ == id {
            assert(profile_ids(profiles)[0] == id);
        } else {
            if r >= 0 {
                assert(profiles[r + 1] == rest[r]);
                assert forall|j: int| 0 <= j < r + 1 implies (#[trigger] profiles[j]).id@ != id by {
                    if j > 0 {
                        assert(profiles[j] == rest[j - 1]);
                    }
                }
                assert(profile_ids(profiles)[r + 1] == id);
            } else {
                assert forall|j: int| 0 <= j < profiles.len() implies profile_ids(profiles)[j] != id by {
                    if j > 0 {
                        assert(profiles[j] == rest[j - 1]);
                        assert(profile_ids(rest)[j - 1] == rest[j - 1].id@);
                    }
                }
            }
        }
    }
}

/// The position of the first profile with the given id.
pub fn find_profile(profiles: &Vec<LibraryProfile>, id: &str) -> (position: Option<usize>)
    ensures
        match position {
            Some(i) => i as int == profile_position(profiles@, id@),
            None => profile_position(profiles@, id@) < 0,
        },
{
    proof {
        lemma_profile_position(profiles@, id@);
    }
    let mut i: usize = 0;
    while i < profiles.len()
        invariant
            i <= profiles@.len(),
            forall|j: int| 0 <= j < i ==> (#[trigger] profiles@[j]).id@ != id@,
            -1 <= profile_position(profiles@, id@) < profiles@.len(),
            profile_position(profiles@, id@) >= 0 ==> profiles@[profile_position(profiles@, id@)].id@ == id@
                && forall|j: int| 0 <= j < profile_position(profiles@, id@) ==> (#[trigger] profiles@[j]).id@ != id@,
            profile_position(profiles@, id@) < 0 <==> !profile_ids(profiles@).contains(id@),
        decreases profiles@.len() - i,
    {
        if str_eq(profiles[i].id.as_str(), id) {
            proof {
                assert(profile_ids(profiles@)[i as int] == profiles@[i as int].id@);
                let p = profile_position(profiles@, id@);
                if p > i {
                    assert(profiles@[i as int].id@ != id@);
                }
            }
            return Some(i);
        }
        i = i + 1;
    }
    proof {
        if profile_position(profiles@, id@) >= 0 {
            let p = profile_position(profiles@, id@);
            assert(profiles@[p].id@ == id@);
        }
    }
    None
}

impl LibraryRegistryRuntime {
    /// The active library's profile, if it is registered.
    pub fn active_profile(&self) -> (profile: Option<&LibraryProfile>)
        ensures
            profile.is_some() == (profile_position(self.profiles@, self.active_library_id@) >= 0),
            profile.is_some() ==> *profile.unwrap() == self.profiles@[profile_position(self.profiles@, self.active_library_id@)],
    {
        proof {
            lemma_profile_position(self.profiles@, self.active_library_id@);
        }
        match find_profile(&self.profiles, self.active_library_id.as_str()) {
            None => None,
            Some(i) => Some(&self.profiles[i]),
        }
    }
}

/// The library made active when the registry is read: the preferred one
/// when registered, else the stored active one when registered, else the
/// first one, else the default id.
pub open spec fn resolved_active_id(profiles: Seq<LibraryProfile>, stored_active: Seq<char>, preferred: Option<Seq<char>>) -> Seq<char> {
    if preferred.is_some() && profile_ids(profiles).contains(preferred.unwrap()) {
        preferred.unwrap()
    } else if profile_ids(profiles).contains(stored_active) {
        stored_active
    } else if profiles.len() > 0 {
        profiles[0].id@
    } else {
        default_library_id()
    }
}

fn has_profile(profiles: &Vec<LibraryProfile>, id: &str) -> (found: bool)
    ensures
        found == profile_ids(profiles@).contains(id@),
{
    proof {
        lemma_profile_position(profiles@, id@);
    }
    find_profile(profiles, id).is_some()
}

/// One rename field per profile.
fn rename_inputs_for(profiles: &Vec<LibraryProfile>) -> (pairs: Vec<(String, String)>)
    ensures
        pair_views(pairs@) == rename_fields(profiles@),
{
    let mut pairs: Vec<(String, String)> = Vec::new();
    let mut i: usize = 0;
    while i < profiles.len()
        invariant
            i <= profiles@.len(),
            pair_views(pairs@) == rename_fields(profiles@.take(i as int)),
        decreases profiles@.len() - i,
    {
        let ghost before = pairs@;
        pairs.push((profiles[i].id.clone(), profiles[i].name.clone()));
        proof {
            assert(pair_views(pairs@) =~= pair_views(before).push((profiles@[i as int].id@, profiles@[i as int].name@)));
            assert(rename_fields(profiles@.take(i as int + 1)) =~= rename_fields(profiles@.take(i as int)).push(
                (profiles@[i as int].id@, profiles@[i as int].name@),
            ));
        }
        i = i + 1;
    }
    assert(profiles@.take(profiles@.len() as int) =~= profiles@);
    pairs
}

impl LibraryRegistryRuntime {
    /// The registry as read back from storage, with the active library
    /// resolved and one rename field per library.
    pub fn from_stored(stored: StoredLibraryRegistry, preferred_active_id: Option<&str>) -> (registry: Self)
        ensures
            registry.profiles@ == stored.libraries@,
            registry.active_library_id@ == resolved_active_id(
                stored.libraries@,
                stored.active_library_id@,
                match preferred_active_id { Some(p) => Some(p@), None => None },
            ),
            pair_views(registry.rename_inputs@) == rename_fields(stored.libraries@),
            registry.new_library_name@.len() == 0,
            registry.open_menu_library_id.is_none(),
            registry.name_dialog.is_none(),
    {
        let preferred_ok = match preferred_active_id {
            Some(id) => has_profile(&stored.libraries, id),
            None => false,
        };
        let active_library_id = if preferred_ok {
            match preferred_active_id {
                Some(id) => id.to_owned(),
                None => String::new(),
            }
        } else if has_profile(&stored.libraries, stored.active_library_id.as_str()) {
            stored.active_library_id.clone()
        } else if stored.libraries.len() > 0 {
            stored.libraries[0].id.clone()
        } else {
            "default".to_owned()
        };
        proof {
            reveal_strlit("default");
        }
        let rename_inputs = rename_inputs_for(&stored.libraries);
        LibraryRegistryRuntime {
            profiles: stored.libraries,
            active_library_id,
            new_library_name: String::new(),
            rename_inputs,
            open_menu_library_id: None,
            name_dialog: None,
        }
    }
}

} // verus!

verus! {

/// A library name as entered, cleaned: control characters dropped, white
/// space trimmed, at most 80 characters kept; refused when nothing is left.
pub open spec fn clean_library_name_spec(name: Seq<char>) -> Result<Seq<char>, RegistryError> {
    let trimmed = trim_spec(without_controls(name));
    if trimmed.len() == 0 {
        Err(RegistryError::EmptyName)
    } else if trimmed.len() <= 80 {
        Ok(trimmed)
    } else {
        Ok(trimmed.take(80))
    }
}

/// Cleans a library name as entered.
pub fn clean_library_name(name: &str) -> (clean: Result<String, RegistryError>)
    ensures
        match clean {
            Ok(s) => clean_library_name_spec(name@) == Ok::<Seq<char>, RegistryError>(s@),
            Err(e) => clean_library_name_spec(name@) == Err::<Seq<char>, RegistryError>(e),
        },
{
    let without = remove_controls(name);
    let trimmed = trim(without.as_str());
    if trimmed.unicode_len() == 0 {
        return Err(RegistryError::EmptyName);
    }
    Ok(take_chars(trimmed.as_str(), 80))
}

/// The `suffix`-th candidate id for a library created at `millis`:
/// "library-<millis>", then "library-<millis>-1", "library-<millis>-2", ...
pub open spec fn candidate_library_id(millis: nat, suffix: nat) -> Seq<char> {
    if suffix == 0 {
        "library-"@ + decimal(millis)
    } else {
        "library-"@ + decimal(millis) + "-"@ + decimal(suffix)
    }
}

proof fn lemma_candidates_distinct(millis: nat, a: nat, b: nat)
    requires
        a != b,
    ensures
        candidate_library_id(millis, a) != candidate_library_id(millis, b),
{
    reveal_strlit("library-");
    reveal_strlit("-");
    let base = "library-"@ + decimal(millis);
    if a > 0 && b > 0 {
        if candidate_library_id(millis, a) == candidate_library_id(millis, b) {
            let ca = candidate_library_id(millis, a);
            assert(ca.skip(base.len() as int + 1) =~= decimal(a));
            assert(candidate_library_id(millis, b).skip(base.len() as int + 1) =~= decimal(b));
            lemma_decimal_injective(a, b);
        }
    } else {
        let longer = if a > 0 { a } else { b };
        assert(candidate_library_id(millis, longer).len() > base.len());
        assert(candidate_library_id(millis, 0) =~= base);
    }
}

/// The first candidate id for a library created at `millis` that no
/// registered library uses.
pub open spec fn unique_library_id_ok(id: Seq<char>, profiles: Seq<LibraryProfile>, millis: nat) -> bool {
    exists|k: nat| #[trigger] candidate_library_id(millis, k) == id
        && !profile_ids(profiles).contains(id)
        && forall|j: nat| j < k ==> profile_ids(profiles).contains(#[trigger] candidate_library_id(millis, j))
}

/// A fresh id for a library created at `millis` (milliseconds since the
/// Unix epoch).
pub fn unique_library_id(profiles: &Vec<LibraryProfile>, millis: u64) -> (id: String)
    ensures
        unique_library_id_ok(id@, profiles@, millis as nat),
{
    proof {
        reveal_strlit("library-");
        reveal_strlit("-");
    }
    let mut base = "library-".to_owned();
    let digits = decimal_string(millis);
    base.append(digits.as_str());
    let mut id = base.clone();
    let mut suffix: u64 = 0;
    assert(id@ == candidate_library_id(millis as nat, 0));
    while has_profile(profiles, id.as_str())
        invariant
            base@ == "library-"@ + decimal(millis as nat),
            id@ == candidate_library_id(millis as nat, suffix as nat),
            suffix <= profiles@.len(),
            forall|j: nat| j < suffix ==> profile_ids(profiles@).contains(#[trigger] candidate_library_id(millis as nat, j)),
        decreases profiles@.len() - suffix,
    {
        proof {
            let cands = Seq::new((suffix + 1) as nat, |j: int| candidate_library_id(millis as nat, j as nat));
            assert forall|a: int, b: int| 0 <= a < b < cands.len() implies cands[a] != cands[b] by {
                lemma_candidates_distinct(millis as nat, a as nat, b as nat);
            }
            assert forall|i: int| 0 <= i < cands.len() implies profile_ids(profiles@).contains(#[trigger] cands[i]) by {
                if i < suffix {
                    assert(profile_ids(profiles@).contains(candidate_library_id(millis as nat, i as nat)));
                }
            }
            lemma_distinct_within_bound(cands, profile_ids(profiles@));
        }
        let count = profiles.len();
        assert(suffix < count);
        suffix = suffix + 1;
        id = base.clone();
        id.append("-");
        let number = decimal_string(suffix);
        id.append(number.as_str());
    }
    id
}

/// The profile of the library every installation starts with, stored in
/// `data_dir`.
pub fn default_profile(data_dir: &str) -> (profile: LibraryProfile)
    ensures
        profile.id@ == default_library_id(),
        profile.name@ == default_library_name(),
        profile.db_path@ == path_join(data_dir@, "library.db"@),
{
    LibraryProfile {
        id: "default".to_owned(),
        name: "Default Library".to_owned(),
        db_path: join_path(data_dir, "library.db"),
    }
}

/// The registry of a fresh installation: just the default library, active.
pub fn default_registry(data_dir: &str) -> (stored: StoredLibraryRegistry)
    ensures
        stored.active_library_id@ == default_library_id(),
        stored.libraries@.len() == 1,
        stored.libraries@[0].id@ == default_library_id(),
        stored.libraries@[0].name@ == default_library_name(),
        stored.libraries@[0].db_path@ == path_join(data_dir@, "library.db"@),
{
    let mut libraries: Vec<LibraryProfile> = Vec::new();
    libraries.push(default_profile(data_dir));
    StoredLibraryRegistry { active_library_id: "default".to_owned(), libraries }
}

/// Where the registry is stored inside the data directory.
pub fn registry_path(data_dir: &str) -> (path: String)
    ensures
        path@ == path_join(data_dir@, "libraries.json"@),
{
    join_path(data_dir, "libraries.json")
}

/// Where a created library keeps its database.
pub open spec fn created_db_path(data_dir: Seq<char>, id: Seq<char>) -> Seq<char> {
    path_join(path_join(path_join(data_dir, "libraries"@), id), "library.db"@)
}

} // verus!

verus! {

/// The position of the first rename field for `key`, or -1.
pub open spec fn pair_position(pairs: Seq<(Seq<char>, Seq<char>)>, key: Seq<char>) -> int
    decreases pairs.len(),
{
    if pairs.len() == 0 {
        -1
    } else if pairs[0].0 == key {
        0
    } else {
        let rest = pair_position(pairs.drop_first(), key);
        if rest < 0 {
            -1
        } else {
            rest + 1
        }
    }
}

/// The rename fields with the field for `key` set to `value`: the first
/// field for that key is replaced, or a field is added when there is none.
pub open spec fn upsert_spec(pairs: Seq<(Seq<char>, Seq<char>)>, key: Seq<char>, value: Seq<char>) -> Seq<(Seq<char>, Seq<char>)> {
    let p = pair_position(pairs, key);
    if p >= 0 {
        pairs.update(p, (key, value))
    } else {
        pairs.push((key, value))
    }
}

proof fn lemma_pair_position(pairs: Seq<(Seq<char>, Seq<char>)>, key: Seq<char>)
    ensures
        -1 <= pair_position(pairs, key) < pairs.len(),
        pair_position(pairs, key) >= 0 ==> pairs[pair_position(pairs, key)].0 == key
            && forall|j: int| 0 <= j < pair_position(pairs, key) ==> (#[trigger] pairs[j]).0 != key,
        pair_position(pairs, key) < 0 ==> forall|j: int| 0 <= j < pairs.len() ==> (#[trigger] pairs[j]).0 != key,
    decreases pairs.len(),
{
    if pairs.len() > 0 {
        let rest = pairs.drop_first();
        lemma_pair_position(rest, key);
        if pairs[0].0 != key {
            assert forall|j: int| 0 < j < pairs.len() implies pairs[j] == rest[j - 1] by {}
        }
    }
}

/// Sets the rename field for `key`.
fn upsert(pairs: &mut Vec<(String, String)>, key: &str, value: &str)
    ensures
        pair_views(final(pairs)@) == upsert_spec(pair_views(old(pairs)@), key@, value@),
{
    let ghost views = pair_views(pairs@);
    proof {
        lemma_pair_position(views, key@);
    }
    let mut i: usize = 0;
    while i < pairs.len()
        invariant
            views == pair_views(pairs@),
            pairs@ == old(pairs)@,
            i <= pairs@.len(),
            forall|j: int| 0 <= j < i ==> (#[trigger] pairs@[j]).0@ != key@,
        decreases pairs@.len() - i,
    {
        if str_eq(pairs[i].0.as_str(), key) {
            proof {
                lemma_pair_position(views, key@);
                let p = pair_position(views, key@);
                assert(views[i as int].0 == key@);
                if p < 0 || p > i {
                    assert(views[i as int] == (pairs@[i as int].0@, pairs@[i as int].1@));
                }
                if 0 <= p < i {
                    assert(views[p] == (pairs@[p].0@, pairs@[p].1@));
                    assert(pairs@[p].0@ != key@);
                }
                assert(p == i as int);
            }
            pairs.set(i, (key.to_owned(), value.to_owned()));
            proof {
                assert(pair_views(pairs@) =~= views.update(i as int, (key@, value@)));
            }
            return;
        }
        i = i + 1;
    }
    proof {
        lemma_pair_position(views, key@);
        let p = pair_position(views, key@);
        if p >= 0 {
            assert(views[p] == (pairs@[p].0@, pairs@[p].1@));
        }
    }
    pairs.push((key.to_owned(), value.to_owned()));
    assert(pair_views(pairs@) =~= views.push((key@, value@)));
}

/// The rename fields without any field for `key`.
pub open spec fn remove_key_spec(pairs: Seq<(Seq<char>, Seq<char>)>, key: Seq<char>) -> Seq<(Seq<char>, Seq<char>)> {
    pairs.filter(|p: (Seq<char>, Seq<char>)| p.0 != key)
}

/// Drops the rename fields for `key`.
fn remove_key(pairs: &Vec<(String, String)>, key: &str) -> (kept: Vec<(String, String)>)
    ensures
        pair_views(kept@) == remove_key_spec(pair_views(pairs@), key@),
{
    let ghost views = pair_views(pairs@);
    let ghost pred = |p: (Seq<char>, Seq<char>)| p.0 != key@;
    let mut kept: Vec<(String, String)> = Vec::new();
    let mut i: usize = 0;
    while i < pairs.len()
        invariant
            views == pair_views(pairs@),
            pred == |p: (Seq<char>, Seq<char>)| p.0 != key@,
            i <= pairs@.len(),
            pair_views(kept@) == views.take(i as int).filter(pred),
        decreases pairs@.len() - i,
    {
        let ghost item = views[i as int];
        proof {
            assert(views.take(i as int + 1) =~= views.take(i as int).push(item));
            views.take(i as int).lemma_filter_push(item, pred);
            assert(item == (pairs@[i as int].0@, pairs@[i as int].1@));
        }
        if !str_eq(pairs[i].0.as_str(), key) {
            let ghost before = kept@;
            kept.push((pairs[i].0.clone(), pairs[i].1.clone()));
            assert(pair_views(kept@) =~= pair_views(before).push(item));
        }
        i = i + 1;
    }
    assert(views.take(views.len() as int) =~= views);
    kept
}

/// The registry after creating a library: the new profile is appended and
/// becomes active, gets a rename field, and the switcher's dialog, menu and
/// name field are reset.
pub open spec fn created_registry_ok(
    result: LibraryRegistryRuntime,
    before: LibraryRegistryRuntime,
    name: Seq<char>,
    millis: nat,
    data_dir: Seq<char>,
) -> bool {
    let id = result.active_library_id@;
    &&& unique_library_id_ok(id, before.profiles@, millis)
    &&& profile_views(result.profiles@) == profile_views(before.profiles@).push(
        ProfileView { id, name, db_path: created_db_path(data_dir, id) },
    )
    &&& pair_views(result.rename_inputs@) == upsert_spec(pair_views(before.rename_inputs@), id, name)
    &&& result.new_library_name@.len() == 0
    &&& result.open_menu_library_id.is_none()
    &&& result.name_dialog.is_none()
}

/// Creates a library named `name` at time `millis` (milliseconds since the
/// Unix epoch), stored under `data_dir`; refused when the cleaned name is
/// empty. The caller creates the database file before keeping the result.
pub fn create_library_profile(registry: LibraryRegistryRuntime, name: &str, millis: u64, data_dir: &str) -> (result: Result<LibraryRegistryRuntime, RegistryError>)
    ensures
        match clean_library_name_spec(name@) {
            Err(e) => result == Err::<LibraryRegistryRuntime, RegistryError>(e),
            Ok(clean) => result.is_ok() && created_registry_ok(result.unwrap(), registry, clean, millis as nat, data_dir@),
        },
{
    let mut registry = registry;
    let ghost before = registry;
    let name = match clean_library_name(name) {
        Ok(clean) => clean,
        Err(e) => return Err(e),
    };
    let id = unique_library_id(&registry.profiles, millis);
    let libraries = join_path(data_dir, "libraries");
    let folder = join_path(libraries.as_str(), id.as_str());
    let db_path = join_path(folder.as_str(), "library.db");
    let ghost old_views = profile_views(registry.profiles@);
    registry.profiles.push(LibraryProfile { id: id.clone(), name: name.clone(), db_path });
    assert(profile_views(registry.profiles@) =~= old_views.push(registry.profiles@.last()@));
    registry.active_library_id = id.clone();
    registry.new_library_name = String::new();
    upsert(&mut registry.rename_inputs, id.as_str(), name.as_str());
    registry.open_menu_library_id = None;
    registry.name_dialog = None;
    Ok(registry)
}

/// Renames library `library_id`; refused when the cleaned name is empty or
/// no library has that id. The first profile with that id is renamed and
/// its rename field updated; the switcher's dialog and menu close.
pub fn rename_library_profile(registry: LibraryRegistryRuntime, library_id: &str, name: &str) -> (result: Result<LibraryRegistryRuntime, RegistryError>)
    ensures
        match clean_library_name_spec(name@) {
            Err(e) => result == Err::<LibraryRegistryRuntime, RegistryError>(e),
            Ok(clean) => {
                let p = profile_position(registry.profiles@, library_id@);
                if p < 0 {
                    result == Err::<LibraryRegistryRuntime, RegistryError>(RegistryError::NotFound)
                } else {
                    result.is_ok() && {
                        let r = result.unwrap();
                        &&& profile_views(r.profiles@) == profile_views(registry.profiles@).update(
                            p,
                            ProfileView { id: registry.profiles@[p].id@, name: clean, db_path: registry.profiles@[p].db_path@ },
                        )
                        &&& r.active_library_id@ == registry.active_library_id@
                        &&& pair_views(r.rename_inputs@) == upsert_spec(pair_views(registry.rename_inputs@), library_id@, clean)
                        &&& r.new_library_name@ == registry.new_library_name@
                        &&& r.open_menu_library_id.is_none()
                        &&& r.name_dialog.is_none()
                    }
                }
            },
        },
{
    let mut registry = registry;
    let name = match clean_library_name(name) {
        Ok(clean) => clean,
        Err(e) => return Err(e),
    };
    let index = match find_profile(&registry.profiles, library_id) {
        None => return Err(RegistryError::NotFound),
        Some(i) => i,
    };
    proof {
        lemma_profile_position(registry.profiles@, library_id@);
    }
    let ghost old_views = profile_views(registry.profiles@);
    let old = registry.profiles.remove(index);
    let renamed = LibraryProfile { id: old.id, name: name.clone(), db_path: old.db_path };
    registry.profiles.insert(index, renamed);
    assert(profile_views(registry.profiles@) =~= old_views.update(
        index as int,
        ProfileView { id: old_views[index as int].id, name: name@, db_path: old_views[index as int].db_path },
    ));
    upsert(&mut registry.rename_inputs, library_id, name.as_str());
    registry.open_menu_library_id = None;
    registry.name_dialog = None;
    Ok(registry)
}

/// Deletes library `library_id` and hands back its profile so the caller
/// can remove its storage; refused when it is the only library or no
/// library has that id. Its rename field goes; when it was active, the
/// first remaining library becomes active; the switcher's dialog and menu
/// close.
pub fn delete_library_profile(registry: LibraryRegistryRuntime, library_id: &str) -> (result: Result<(LibraryRegistryRuntime, LibraryProfile), RegistryError>)
    ensures
        registry.profiles@.len() <= 1 ==> result == Err::<(LibraryRegistryRuntime, LibraryProfile), RegistryError>(RegistryError::LastLibrary),
        registry.profiles@.len() > 1 && profile_position(registry.profiles@, library_id@) < 0
            ==> result == Err::<(LibraryRegistryRuntime, LibraryProfile), RegistryError>(RegistryError::NotFound),
        registry.profiles@.len() > 1 && profile_position(registry.profiles@, library_id@) >= 0 ==> result.is_ok() && {
            let p = profile_position(registry.profiles@, library_id@);
            let (r, removed) = result.unwrap();
            &&& removed@ == registry.profiles@[p]@
            &&& profile_views(r.profiles@) == profile_views(registry.profiles@).remove(p)
            &&& pair_views(r.rename_inputs@) == remove_key_spec(pair_views(registry.rename_inputs@), library_id@)
            &&& r.active_library_id@ == (if registry.active_library_id@ == library_id@ {
                r.profiles@[0].id@
            } else {
                registry.active_library_id@
            })
            &&& r.new_library_name@ == registry.new_library_name@
            &&& r.open_menu_library_id.is_none()
            &&& r.name_dialog.is_none()
        },
{
    let mut registry = registry;
    if registry.profiles.len() <= 1 {
        return Err(RegistryError::LastLibrary);
    }
    let index = match find_profile(&registry.profiles, library_id) {
        None => return Err(RegistryError::NotFound),
        Some(i) => i,
    };
    proof {
        lemma_profile_position(registry.profiles@, library_id@);
    }
    let ghost old_views = profile_views(registry.profiles@);
    let removed = registry.profiles.remove(index);
    assert(profile_views(registry.profiles@) =~= old_views.remove(index as int));
    registry.rename_inputs = remove_key(&registry.rename_inputs, library_id);
    if str_eq(registry.active_library_id.as_str(), library_id) {
        registry.active_library_id = registry.profiles[0].id.clone();
    }
    registry.open_menu_library_id = None;
    registry.name_dialog = None;
    Ok((registry, removed))
}

impl LibraryRegistryRuntime {
    /// Makes library `library_id` active and hands back its profile so the
    /// caller can open its database; refused when no library has that id.
    pub fn select_library(&mut self, library_id: &str) -> (result: Result<LibraryProfile, RegistryError>)
        ensures
            profile_position(old(self).profiles@, library_id@) < 0 ==> result == Err::<LibraryProfile, RegistryError>(RegistryError::NotFound)
                && final(self).active_library_id@ == old(self).active_library_id@,
            profile_position(old(self).profiles@, library_id@) >= 0 ==> result.is_ok()
                && result.unwrap()@ == old(self).profiles@[profile_position(old(self).profiles@, library_id@)]@
                && final(self).active_library_id@ == library_id@,
            final(self).profiles@ == old(self).profiles@,
            final(self).rename_inputs@ == old(self).rename_inputs@,
    {
        proof {
            lemma_profile_position(self.profiles@, library_id@);
        }
        match find_profile(&self.profiles, library_id) {
            None => Err(RegistryError::NotFound),
            Some(i) => {
                let profile = self.profiles[i].duplicate();
                self.active_library_id = profile.id.clone();
                Ok(profile)
            },
        }
    }
}

} // verus!

verus! {

/// The sort rank of a profile: the default library first.
pub open spec fn profile_ranks(profiles: Seq<LibraryProfile>) -> Seq<i64> {
    profiles.map_values(|p: LibraryProfile| if p.id@ == default_library_id() { 0i64 } else { 1i64 })
}

/// The lowercase names of the profiles.
pub open spec fn profile_sort_names(profiles: Seq<LibraryProfile>) -> Seq<Seq<char>> {
    profiles.map_values(|p: LibraryProfile| lowercase(p.name@))
}

/// `sorted` holds the profiles of `input` with the default library first
/// and the others by lowercase name, ties keeping their order.
pub open spec fn profiles_sorted(sorted: Seq<ProfileView>, input: Seq<LibraryProfile>) -> bool {
    exists|order: Seq<usize>|
        #![trigger stably_sorted(profile_ranks(input), profile_sort_names(input), order, input.len() as int)]
        stably_sorted(profile_ranks(input), profile_sort_names(input), order, input.len() as int)
        && sorted.len() == input.len()
        && forall|i: int| 0 <= i < sorted.len() ==> #[trigger] sorted[i] == input[order[i] as int]@
}

/// The profiles with the default library first and the others by
/// lowercase name.
pub fn sort_profiles(profiles: &Vec<LibraryProfile>) -> (sorted: Vec<LibraryProfile>)
    ensures
        profiles_sorted(profile_views(sorted@), profiles@),
{
    proof {
        reveal_strlit("default");
    }
    let mut ranks: Vec<i64> = Vec::new();
    let mut names: Vec<String> = Vec::new();
    let mut i: usize = 0;
    while i < profiles.len()
        invariant
            i <= profiles@.len(),
            ranks@ == profile_ranks(profiles@).take(i as int),
            names@.map_values(|s: String| s@) == profile_sort_names(profiles@).take(i as int),
        decreases profiles@.len() - i,
    {
        let rank: i64 = if str_eq(profiles[i].id.as_str(), "default") { 0 } else { 1 };
        ranks.push(rank);
        let lower = to_lowercase(profiles[i].name.as_str());
        let ghost before = names@;
        names.push(lower);
        assert(ranks@ =~= profile_ranks(profiles@).take(i as int + 1));
        assert(names@.map_values(|s: String| s@) =~= before.map_values(|s: String| s@).push(lower@));
        assert(profile_sort_names(profiles@).take(i as int + 1) =~= profile_sort_names(profiles@).take(i as int).push(lower@));
        i = i + 1;
    }
    assert(ranks@ =~= profile_ranks(profiles@));
    assert(names@.map_values(|s: String| s@) =~= profile_sort_names(profiles@));
    let order = stable_order(&ranks, &names);
    let mut sorted: Vec<LibraryProfile> = Vec::new();
    let mut j: usize = 0;
    while j < order.len()
        invariant
            stably_sorted(profile_ranks(profiles@), profile_sort_names(profiles@), order@, profiles@.len() as int),
            j <= order@.len(),
            sorted@.len() == j,
            forall|t: int| 0 <= t < j ==> #[trigger] sorted@[t]@ == profiles@[order@[t] as int]@,
        decreases order@.len() - j,
    {
        sorted.push(profiles[order[j]].duplicate());
        j = j + 1;
    }
    let ghost views = profile_views(sorted@);
    assert forall|t: int| 0 <= t < views.len() implies #[trigger] views[t] == profiles@[order@[t] as int]@ by {
        assert(sorted@[t]@ == profiles@[order@[t] as int]@);
    }
    sorted
}

/// The registry loaded from storage: the active library resolved; when no
/// library is stored, the default library (active); libraries sorted with
/// the default first and then by lowercase name; one rename field each.
pub fn prepare_loaded_registry(stored: StoredLibraryRegistry, preferred_active_id: Option<&str>, data_dir: &str) -> (registry: LibraryRegistryRuntime)
    ensures
        ({
            let base = if stored.libraries@.len() == 0 {
                seq![ProfileView { id: default_library_id(), name: default_library_name(), db_path: path_join(data_dir@, "library.db"@) }]
            } else {
                profile_views(stored.libraries@)
            };
            exists|input: Seq<LibraryProfile>| #[trigger] profile_views(input) == base
                && profiles_sorted(profile_views(registry.profiles@), input)
        }),
        registry.active_library_id@ == (if stored.libraries@.len() == 0 {
            default_library_id()
        } else {
            resolved_active_id(
                stored.libraries@,
                stored.active_library_id@,
                match preferred_active_id { Some(p) => Some(p@), None => None },
            )
        }),
        pair_views(registry.rename_inputs@) == rename_fields(registry.profiles@),
        registry.new_library_name@.len() == 0,
        registry.open_menu_library_id.is_none(),
        registry.name_dialog.is_none(),
{
    let mut registry = LibraryRegistryRuntime::from_stored(stored, preferred_active_id);
    if registry.profiles.len() == 0 {
        registry.profiles.push(default_profile(data_dir));
        registry.active_library_id = "default".to_owned();
        proof {
            reveal_strlit("default");
            assert(profile_views(registry.profiles@) =~= seq![registry.profiles@[0]@]);
        }
    }
    let input = registry.profiles;
    registry.profiles = sort_profiles(&input);
    registry.rename_inputs = rename_inputs_for(&registry.profiles);
    proof {
        assert(profile_views(input@) == profile_views(input@));
    }
    registry
}

/// The height of a cached thumbnail of the given width from the length of
/// its RGBA bytes: whole rows of four bytes per pixel, at least one row and
/// at most `u16::MAX`; `None` when the width is zero or not even one row is
/// there.
pub fn thumbnail_height_from_rgba_len(len: usize, width: u16) -> (height: Option<u16>)
    ensures
        (width == 0 || len < 4 * width) ==> height.is_none(),
        !(width == 0 || len < 4 * width) ==> height == Some(
            (if (len as int) / (4 * width as int) > 0xFFFF { 0xFFFFint } else { (len as int) / (4 * width as int) }) as u16,
        ),
{
    let stride = (width as usize) * 4;
    if stride == 0 || len < stride {
        return None;
    }
    let rows = len / stride;
    assert(rows >= 1) by (nonlinear_arith)
        requires
            len >= stride,
            stride > 0,
            rows == len / stride,
    ;
    let clamped = if rows > 0xFFFF { 0xFFFF } else if rows < 1 { 1 } else { rows };
    Some(clamped as u16)
}

} // verus!

verus! {

/// A newly created library is active: the active profile is the one just
/// created, with the cleaned name and its own database path.
pub proof fn law_created_library_is_active(
    result: LibraryRegistryRuntime,
    before: LibraryRegistryRuntime,
    name: Seq<char>,
    millis: nat,
    data_dir: Seq<char>,
)
    requires
        created_registry_ok(result, before, name, millis, data_dir),
    ensures
        profile_position(result.profiles@, result.active_library_id@) == before.profiles@.len(),
        result.profiles@[before.profiles@.len() as int]@ == (ProfileView {
            id: result.active_library_id@,
            name,
            db_path: created_db_path(data_dir, result.active_library_id@),
        }),
{
    let id = result.active_library_id@;
    let n = before.profiles@.len();
    assert(profile_views(result.profiles@).len() == n + 1);
    assert(profile_views(result.profiles@)[n as int] == result.profiles@[n as int]@);
    assert(!profile_ids(before.profiles@).contains(id));
    lemma_profile_position(result.profiles@, id);
    lemma_profile_position(before.profiles@, id);
    assert forall|j: int| 0 <= j < n implies (#[trigger] result.profiles@[j]).id@ != id by {
        assert(profile_views(result.profiles@)[j] == profile_views(before.profiles@)[j]);
        assert(profile_ids(before.profiles@)[j] == before.profiles@[j].id@);
    }
    let p = profile_position(result.profiles@, id);
    assert(result.profiles@[n as int].id@ == id);
    if 0 <= p < n {
        assert(result.profiles@[p].id@ == id);
    }
    assert(profile_ids(result.profiles@)[n as int] == id);
}

/// Deleting a library leaves at least one library, and the active
/// library stays a registered one.
pub proof fn law_delete_keeps_an_active_library(before: LibraryRegistryRuntime, after: LibraryRegistryRuntime, library_id: Seq<char>)
    requires
        before.profiles@.len() > 1,
        profile_position(before.profiles@, library_id) >= 0,
        profile_ids(before.profiles@).contains(before.active_library_id@),
        profile_views(after.profiles@) == profile_views(before.profiles@).remove(profile_position(before.profiles@, library_id)),
        after.active_library_id@ == (if before.active_library_id@ == library_id {
            after.profiles@[0].id@
        } else {
            before.active_library_id@
        }),
    ensures
        after.profiles@.len() >= 1,
        profile_ids(after.profiles@).contains(after.active_library_id@),
{
    lemma_profile_position(before.profiles@, library_id);
    let p = profile_position(before.profiles@, library_id);
    let n = before.profiles@.len();
    assert(profile_views(after.profiles@).len() == n - 1);
    assert(after.profiles@.len() == n - 1);
    if before.active_library_id@ == library_id {
        assert(profile_ids(after.profiles@)[0] == after.profiles@[0].id@);
    } else {
        let k = profile_ids(before.profiles@).index_of(before.active_library_id@);
        assert(profile_ids(before.profiles@)[k] == before.profiles@[k].id@);
        assert(k != p);
        let k2 = if k < p { k } else { k - 1 };
        assert(profile_views(after.profiles@)[k2] == profile_views(before.profiles@)[k]);
        assert(after.profiles@[k2]@ == before.profiles@[k]@);
        assert(profile_ids(after.profiles@)[k2] == after.profiles@[k2].id@);
    }
}

} // verus!

verus! {

/// After loading, the active library is one of the registered libraries.
pub proof fn law_loaded_registry_has_active_library(
    stored: StoredLibraryRegistry,
    preferred: Option<Seq<char>>,
    data_dir: Seq<char>,
    registry: LibraryRegistryRuntime,
    input: Seq<LibraryProfile>,
)
    requires
        profile_views(input) == (if stored.libraries@.len() == 0 {
            seq![ProfileView { id: default_library_id(), name: default_library_name(), db_path: path_join(data_dir, "library.db"@) }]
        } else {
            profile_views(stored.libraries@)
        }),
        profiles_sorted(profile_views(registry.profiles@), input),
        registry.active_library_id@ == (if stored.libraries@.len() == 0 {
            default_library_id()
        } else {
            resolved_active_id(stored.libraries@, stored.active_library_id@, preferred)
        }),
        registry.profiles@.len() <= usize::MAX,
    ensures
        profile_ids(registry.profiles@).contains(registry.active_library_id@),
{
    let active = registry.active_library_id@;
    assert(profile_views(input).len() == input.len());
    // The active id belongs to some profile of `input`.
    let j: int = if stored.libraries@.len() == 0 {
        assert(profile_views(input)[0].id == default_library_id());
        0
    } else {
        let libs = stored.libraries@;
        assert(profile_views(libs).len() == libs.len());
        if preferred.is_some() && profile_ids(libs).contains(preferred.unwrap()) {
            let k = profile_ids(libs).index_of(preferred.unwrap());
            assert(0 <= k < libs.len() && profile_ids(libs)[k] == preferred.unwrap());
            k
        } else if profile_ids(libs).contains(stored.active_library_id@) {
            let k = profile_ids(libs).index_of(stored.active_library_id@);
            assert(0 <= k < libs.len() && profile_ids(libs)[k] == stored.active_library_id@);
            k
        } else {
            0
        }
    };
    assert(0 <= j < input.len());
    assert(profile_views(input)[j] == input[j]@);
    if stored.libraries@.len() > 0 {
        assert(profile_views(stored.libraries@)[j] == stored.libraries@[j]@);
        assert(profile_ids(stored.libraries@)[j] == stored.libraries@[j].id@);
    }
    assert(input[j].id@ == active);
    let order = choose|order: Seq<usize>|
        #![trigger stably_sorted(profile_ranks(input), profile_sort_names(input), order, input.len() as int)]
        stably_sorted(profile_ranks(input), profile_sort_names(input), order, input.len() as int)
        && profile_views(registry.profiles@).len() == input.len()
        && forall|i: int| 0 <= i < profile_views(registry.profiles@).len() ==> #[trigger] profile_views(registry.profiles@)[i] == input[order[i] as int]@;
    crate::order::lemma_stably_sorted_is_permutation(profile_ranks(input), profile_sort_names(input), order, input.len() as int);
    assert(input.len() <= usize::MAX) by {
        assert(profile_views(registry.profiles@).len() == registry.profiles@.len());
    }
    assert(order.len() == input.len());
    assert(order.contains(j as usize));
    let t = order.index_of(j as usize);
    assert(profile_views(registry.profiles@)[t] == input[j]@);
    assert(registry.profiles@[t]@ == profile_views(registry.profiles@)[t]);
    assert(profile_ids(registry.profiles@)[t] == registry.profiles@[t].id@);
}

} // verus!

verus! {

/// The order of the library switcher is determined: two sequences that both
/// list the same profiles, the default library first and the others by
/// lowercase name, ties in list order, are equal.
pub proof fn law_profile_order_is_determined(a: Seq<ProfileView>, b: Seq<ProfileView>, input: Seq<LibraryProfile>)
    requires
        profiles_sorted(a, input),
        profiles_sorted(b, input),
    ensures
        a == b,
{
    let ranks = profile_ranks(input);
    let names = profile_sort_names(input);
    let n = input.len() as int;
    let oa = choose|order: Seq<usize>|
        #![trigger stably_sorted(ranks, names, order, n)]
        stably_sorted(ranks, names, order, n)
        && a.len() == input.len()
        && forall|i: int| 0 <= i < a.len() ==> #[trigger] a[i] == input[order[i] as int]@;
    let ob = choose|order: Seq<usize>|
        #![trigger stably_sorted(ranks, names, order, n)]
        stably_sorted(ranks, names, order, n)
        && b.len() == input.len()
        && forall|i: int| 0 <= i < b.len() ==> #[trigger] b[i] == input[order[i] as int]@;
    crate::order::lemma_stable_order_unique(ranks, names, oa, ob, n);
    assert forall|i: int| 0 <= i < a.len() implies a[i] == b[i] by {
        assert(a[i] == input[oa[i] as int]@);
        assert(b[i] == input[ob[i] as int]@);
    }
    assert(a =~= b);
}

} // verus!

verus! {

/// What confirming the library name dialog asks for.
#[derive(Debug, PartialEq, Eq)]
pub enum NameDialogRequest {
    /// Nothing: no dialog, or a blank name.
    Nothing,
    /// Create a library with the name typed.
    Create,
    /// Rename this library to the name typed, now in its rename field.
    Rename(String),
}

impl LibraryRegistryRuntime {
    /// Opens the menu of library `library_id`'s card, or closes it when it
    /// is the one open.
    pub fn toggle_card_menu(&mut self, library_id: String)
        ensures
            final(self).open_menu_library_id == (match old(self).open_menu_library_id {
                Some(open) => if open@ == library_id@ { None } else { Some(library_id) },
                None => Some(library_id),
            }),
            final(self).profiles@ == old(self).profiles@,
            final(self).active_library_id@ == old(self).active_library_id@,
            final(self).name_dialog == old(self).name_dialog,
    {
        let same = match &self.open_menu_library_id {
            Some(open) => str_eq(open.as_str(), library_id.as_str()),
            None => false,
        };
        self.open_menu_library_id = if same { None } else { Some(library_id) };
    }

    /// Opens the dialog that names a new library, with an empty name.
    pub fn open_create_dialog(&mut self)
        ensures
            final(self).open_menu_library_id.is_none(),
            final(self).new_library_name@.len() == 0,
            final(self).name_dialog == Some(LibraryNameDialog::Create),
            final(self).profiles@ == old(self).profiles@,
            final(self).active_library_id@ == old(self).active_library_id@,
    {
        self.open_menu_library_id = None;
        self.new_library_name = String::new();
        self.name_dialog = Some(LibraryNameDialog::Create);
    }

    /// Opens the dialog that renames library `library_id`, filled with its
    /// name; nothing happens, and the result says so, when there is no such
    /// library.
    pub fn open_rename_dialog(&mut self, library_id: &str) -> (opened: bool)
        ensures
            opened == (profile_position(old(self).profiles@, library_id@) >= 0),
            opened ==> ({
                &&& final(self).open_menu_library_id.is_none()
                &&& final(self).new_library_name@ == old(self).profiles@[profile_position(old(self).profiles@, library_id@)].name@
                &&& final(self).name_dialog matches Some(LibraryNameDialog::Rename(id)) && id@ == library_id@
            }),
            !opened ==> final(self).open_menu_library_id == old(self).open_menu_library_id
                && final(self).new_library_name@ == old(self).new_library_name@ && final(self).name_dialog
                == old(self).name_dialog,
            final(self).profiles@ == old(self).profiles@,
            final(self).active_library_id@ == old(self).active_library_id@,
    {
        proof {
            lemma_profile_position(self.profiles@, library_id@);
        }
        let index = match find_profile(&self.profiles, library_id) {
            None => return false,
            Some(i) => i,
        };
        self.open_menu_library_id = None;
        self.new_library_name = self.profiles[index].name.clone();
        self.name_dialog = Some(LibraryNameDialog::Rename(library_id.to_owned()));
        true
    }

    /// Closes the library name dialog and empties its field.
    pub fn cancel_name_dialog(&mut self)
        ensures
            final(self).name_dialog.is_none(),
            final(self).new_library_name@.len() == 0,
            final(self).profiles@ == old(self).profiles@,
            final(self).active_library_id@ == old(self).active_library_id@,
    {
        self.name_dialog = None;
        self.new_library_name = String::new();
    }

    /// The library name field after typing `value`: no control characters,
    /// at most 80 of them.
    pub fn new_library_name_changed(&mut self, value: &str)
        ensures
            final(self).new_library_name@ == typed_text_spec(value@, 80),
            final(self).name_dialog == old(self).name_dialog,
            final(self).profiles@ == old(self).profiles@,
            final(self).active_library_id@ == old(self).active_library_id@,
    {
        self.new_library_name = typed_text(value, 80);
    }

    /// Library `library_id`'s rename field after typing `value`: no control
    /// characters, at most 80 of them.
    pub fn rename_input_changed(&mut self, library_id: &str, value: &str)
        ensures
            pair_views(final(self).rename_inputs@) == upsert_spec(
                pair_views(old(self).rename_inputs@),
                library_id@,
                typed_text_spec(value@, 80),
            ),
            final(self).profiles@ == old(self).profiles@,
            final(self).active_library_id@ == old(self).active_library_id@,
    {
        let text = typed_text(value, 80);
        upsert(&mut self.rename_inputs, library_id, text.as_str());
    }

    /// Confirms the library name dialog. A blank name (once trimmed) does
    /// nothing; a new library is to be created; a rename puts the trimmed
    /// name in that library's rename field and is to be carried out.
    pub fn confirm_name_dialog(&mut self) -> (request: NameDialogRequest)
        ensures
            match old(self).name_dialog {
                None => request == NameDialogRequest::Nothing,
                Some(dialog) => if trim_spec(old(self).new_library_name@).len() == 0 {
                    request == NameDialogRequest::Nothing
                } else {
                    match dialog {
                        LibraryNameDialog::Create => request == NameDialogRequest::Create,
                        LibraryNameDialog::Rename(id) => request == NameDialogRequest::Rename(id),
                    }
                },
            },
            match old(self).name_dialog {
                Some(LibraryNameDialog::Rename(id)) => if trim_spec(old(self).new_library_name@).len() > 0 {
                    pair_views(final(self).rename_inputs@) == upsert_spec(
                        pair_views(old(self).rename_inputs@),
                        id@,
                        trim_spec(old(self).new_library_name@),
                    )
                } else {
                    final(self).rename_inputs@ == old(self).rename_inputs@
                },
                _ => final(self).rename_inputs@ == old(self).rename_inputs@,
            },
            final(self).name_dialog == old(self).name_dialog,
            final(self).profiles@ == old(self).profiles@,
            final(self).active_library_id@ == old(self).active_library_id@,
    {
        let name = trim(self.new_library_name.as_str());
        match &self.name_dialog {
            None => NameDialogRequest::Nothing,
            Some(LibraryNameDialog::Create) => {
                if name.unicode_len() == 0 {
                    NameDialogRequest::Nothing
                } else {
                    NameDialogRequest::Create
                }
            },
            Some(LibraryNameDialog::Rename(id)) => {
                if name.unicode_len() == 0 {
                    NameDialogRequest::Nothing
                } else {
                    let library_id = id.clone();
                    upsert(&mut self.rename_inputs, library_id.as_str(), name.as_str());
                    NameDialogRequest::Rename(library_id)
                }
            },
        }
    }
}

} // verus!

verus! {

/// What clicking a library's card does.
#[derive(Debug, PartialEq, Eq)]
pub enum CardClick {
    /// The active library's card closes the switcher.
    CloseSwitcher,
    /// Another card makes its library active.
    SelectLibrary(String),
}

/// A library's card in the switcher.
#[derive(Debug)]
pub struct LibraryCard {
    pub active: bool,
    pub click: CardClick,
    /// "<n> PDF(s)" in the library.
    pub count_label: String,
    /// Its overflow menu is open.
    pub menu_open: bool,
    /// "Delete" is offered: the library is not the only one.
    pub delete_enabled: bool,
}

impl LibraryRegistryRuntime {
    /// The card of the `index`-th library, which holds `total_entries` PDFs.
    pub fn library_card(&self, index: usize, total_entries: usize) -> (card: LibraryCard)
        requires
            index < self.profiles@.len(),
        ensures
            card.active == (self.profiles@[index as int].id@ == self.active_library_id@),
            card.active ==> card.click == CardClick::CloseSwitcher,
            !card.active ==> (card.click matches CardClick::SelectLibrary(id) && id@ == self.profiles@[index as int].id@),
            card.count_label@ == format_count_spec(total_entries as nat, "PDF"@),
            card.menu_open == (self.open_menu_library_id matches Some(open) && open@ == self.profiles@[index as int].id@),
            card.delete_enabled == (self.profiles@.len() > 1),
    {
        let id = &self.profiles[index].id;
        let active = str_eq(id.as_str(), self.active_library_id.as_str());
        let menu_open = match &self.open_menu_library_id {
            Some(open) => str_eq(open.as_str(), id.as_str()),
            None => false,
        };
        LibraryCard {
            active,
            click: if active { CardClick::CloseSwitcher } else { CardClick::SelectLibrary(id.clone()) },
            count_label: format_count(total_entries, "PDF"),
            menu_open,
            delete_enabled: self.profiles.len() > 1,
        }
    }
}

} // verus!
