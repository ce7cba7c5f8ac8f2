use vstd::prelude::*;
use crate::settings::Directories;

verus! {

/// One profile of the configuration file: the account, its homeserver, the
/// default room and optional directory settings. The user id and the
/// homeserver URL are kept in their text form.
#[derive(Clone, Debug)]
pub struct ProfileConfig {
    pub user_id: String,
    pub homeserver: Option<String>,
    pub default_room: String,
    pub dirs: Option<Directories>,
}

/// The profile entries of a sequence as a map from name to profile; a
/// later entry with the same name replaces an earlier one.
pub open spec fn entries_map(s: Seq<(String, ProfileConfig)>) -> Map<Seq<char>, ProfileConfig>
    decreases s.len(),
{
    if s.len() == 0 {
        Map::empty()
    } else {
        entries_map(s.drop_last()).insert(s.last().0@, s.last().1)
    }
}

/// No two entries of the sequence have the same name.
pub open spec fn distinct_names(s: Seq<(String, ProfileConfig)>) -> bool {
    forall|i: int, j: int| 0 <= i < j < s.len() ==> s[i].0@ != s[j].0@
}

/// The names of the profiles in the map are exactly the names of the entries.
proof fn lemma_entries_map_dom(s: Seq<(String, ProfileConfig)>, k: Seq<char>)
    ensures
        entries_map(s).contains_key(k) <==> exists|i: int| 0 <= i < s.len() && #[trigger] s[i].0@ == k,
    decreases s.len(),
{
    if s.len() > 0 {
        let dl = s.drop_last();
        lemma_entries_map_dom(dl, k);
        if entries_map(s).contains_key(k) {
            if k == s.last().0@ {
                assert(s[s.len() - 1].0@ == k);
            } else {
                let i = choose|i: int| 0 <= i < dl.len() && #[trigger] dl[i].0@ == k;
                assert(s[i].0@ == k);
            }
        }
        if exists|i: int| 0 <= i < s.len() && #[trigger] s[i].0@ == k {
            let i = choose|i: int| 0 <= i < s.len() && #[trigger] s[i].0@ == k;
            if i < s.len() - 1 {
                assert(dl[i].0@ == k);
            }
        }
    }
}

/// With distinct names, each entry's profile is what the map gives for its name.
proof fn lemma_entries_map_value(s: Seq<(String, ProfileConfig)>, i: int)
    requires
        distinct_names(s),
        0 <= i < s.len(),
    ensures
        entries_map(s).contains_key(s[i].0@),
        entries_map(s)[s[i].0@] == s[i].1,
    decreases s.len(),
{
    let dl = s.drop_last();
    if i < s.len() - 1 {
        assert(distinct_names(dl));
        lemma_entries_map_value(dl, i);
        assert(dl[i] == s[i]);
    }
}

/// With distinct names, the map has as many profiles as there are entries.
proof fn lemma_entries_map_len(s: Seq<(String, ProfileConfig)>)
    requires
        distinct_names(s),
    ensures
        entries_map(s).dom().finite(),
        entries_map(s).dom().len() == s.len(),
    decreases s.len(),
{
    if s.len() > 0 {
        let dl = s.drop_last();
        assert(distinct_names(dl));
        lemma_entries_map_len(dl);
        lemma_entries_map_dom(dl, s.last().0@);
        if entries_map(dl).contains_key(s.last().0@) {
            let i = choose|i: int| 0 <= i < dl.len() && #[trigger] dl[i].0@ == s.last().0@;
            assert(s[i].0@ == s[s.len() - 1].0@);
        }
    } else {
        assert(entries_map(s).dom() =~= Set::empty());
    }
}

/// Removing an entry with distinct names removes its name from the map.
proof fn lemma_entries_map_remove(s: Seq<(String, ProfileConfig)>, i: int)
    requires
        distinct_names(s),
        0 <= i < s.len(),
    ensures
        distinct_names(s.remove(i)),
        entries_map(s.remove(i)) == entries_map(s).remove(s[i].0@),
    decreases s.len(),
{
    let dl = s.drop_last();
    let k = s[i].0@;
    assert(distinct_names(dl));
    assert forall|a: int, b: int| 0 <= a < b < s.remove(i).len() implies s.remove(i)[a].0@ != s.remove(
        i,
    )[b].0@ by {
        let a2 = if a < i { a } else { a + 1 };
        let b2 = if b < i { b } else { b + 1 };
        assert(s.remove(i)[a] == s[a2]);
        assert(s.remove(i)[b] == s[b2]);
    }
    if i == s.len() - 1 {
        assert(s.remove(i) =~= dl);
        lemma_entries_map_dom(dl, k);
        if entries_map(dl).contains_key(k) {
            let j = choose|j: int| 0 <= j < dl.len() && #[trigger] dl[j].0@ == k;
            assert(s[j].0@ == s[i].0@);
        }
        assert(entries_map(dl) =~= entries_map(dl).insert(k, s.last().1).remove(k));
    } else {
        lemma_entries_map_remove(dl, i);
        assert(s.remove(i) =~= dl.remove(i).push(s.last()));
        assert(s.remove(i).drop_last() =~= dl.remove(i));
        let kl = s.last().0@;
        assert(s[s.len() - 1].0@ == kl);
        assert(kl != k);
        assert(entries_map(s.remove(i)) =~= entries_map(dl).remove(k).insert(kl, s.last().1));
        assert(entries_map(s).remove(k) =~= entries_map(dl).insert(kl, s.last().1).remove(k));
    }
}

/// The position of the entry with this name in a sequence of entries.
fn position_in(entries: &Vec<(String, ProfileConfig)>, name: &str) -> (r: Option<usize>)
    ensures
        r matches Some(i) ==> i < entries@.len() && entries@[i as int].0@ == name@,
        r is None ==> forall|i: int| 0 <= i < entries@.len() ==> entries@[i].0@ != name@,
{
    let n = entries.len();
    let mut i: usize = 0;
    while i < n
        invariant
            n == entries@.len(),
            i <= n,
            forall|j: int| 0 <= j < i ==> entries@[j].0@ != name@,
        decreases n - i,
    {
        if crate::text::str_equal(entries[i].0.as_str(), name) {
            return Some(i);
        }
        i = i + 1;
    }
    None
}

/// The profiles of a configuration, by name.
pub struct ProfileMap {
    entries: Vec<(String, ProfileConfig)>,
}

impl View for ProfileMap {
    type V = Map<Seq<char>, ProfileConfig>;

    /// The profiles, by name.
    closed spec fn view(&self) -> Map<Seq<char>, ProfileConfig> {
        entries_map(self.entries@)
    }
}

impl ProfileMap {
    #[verifier::type_invariant]
    spec fn names_distinct(self) -> bool {
        distinct_names(self.entries@)
    }

    /// A map without profiles.
    pub fn new() -> (r: ProfileMap)
        ensures
            r@ == Map::<Seq<char>, ProfileConfig>::empty(),
    {
        ProfileMap { entries: Vec::new() }
    }


    /// Remove the profile with this name and return it with its name.
    pub fn remove_entry(&mut self, name: &str) -> (r: Option<(String, ProfileConfig)>)
        ensures
            final(self)@ == old(self)@.remove(name@),
            r is Some <==> old(self)@.contains_key(name@),
            r matches Some(e) ==> e.0@ == name@ && e.1 == old(self)@[name@],
    {
        proof {
            use_type_invariant(&*self);
        }
        let mut entries: Vec<(String, ProfileConfig)> = Vec::new();
        std::mem::swap(&mut entries, &mut self.entries);
        let ghost s0 = entries@;
        proof {
            lemma_entries_map_dom(s0, name@);
        }
        let r = match position_in(&entries, name) {
            Some(i) => {
                proof {
                    lemma_entries_map_remove(s0, i as int);
                    lemma_entries_map_value(s0, i as int);
                }
                let e = entries.remove(i);
                Some(e)
            },
            None => {
                assert(entries_map(s0).remove(name@) =~= entries_map(s0));
                None
            },
        };
        self.entries = entries;
        r
    }

    /// The entries, each name once, in no particular order.
    pub fn into_entries(self) -> (r: Vec<(String, ProfileConfig)>)
        ensures
            distinct_names(r@),
            entries_map(r@) == self@,
    {
        proof {
            use_type_invariant(&self);
        }
        self.entries
    }

    /// The map of a sequence of entries, where a later entry replaces an
    /// earlier one with the same name.
    pub fn from_entries(entries: Vec<(String, ProfileConfig)>) -> (r: ProfileMap)
        ensures
            r@ == entries_map(entries@),
    {
        let ghost s = entries@;
        let mut m = ProfileMap::new();
        let mut rest = entries;
        let n = rest.len();
        let mut i: usize = 0;
        while i < n
            invariant
                n == s.len(),
                i <= n,
                rest@ == s.subrange(i as int, n as int),
                m@ == entries_map(s.subrange(0, i as int)),
            decreases n - i,
        {
            let e = rest.remove(0);
            assert(e == s[i as int]);
            m.insert(e.0, e.1);
            assert(s.subrange(0, i + 1).drop_last() =~= s.subrange(0, i as int));
            assert(rest@ =~= s.subrange(i + 1, n as int));
            i = i + 1;
        }
        assert(s.subrange(0, n as int) =~= s);
        m
    }

    /// The position of the entry with this name, if any.
    fn position(&self, name: &str) -> (r: Option<usize>)
        ensures
            r matches Some(i) ==> i < self.entries@.len() && self.entries@[i as int].0@ == name@,
            r is None ==> forall|i: int| 0 <= i < self.entries@.len() ==> self.entries@[i].0@ != name@,
    {
        position_in(&self.entries, name)
    }

    /// How many profiles there are.
    pub fn len(&self) -> (r: usize)
        ensures
            self@.dom().finite(),
            r == self@.dom().len(),
    {
        proof {
            use_type_invariant(self);
            lemma_entries_map_len(self.entries@);
        }
        self.entries.len()
    }

    /// Whether there is a profile with this name.
    pub fn contains_key(&self, name: &str) -> (r: bool)
        ensures
            r == self@.contains_key(name@),
    {
        proof {
            lemma_entries_map_dom(self.entries@, name@);
        }
        match self.position(name) {
            Some(i) => {
                assert(self.entries@[i as int].0@ == name@);
                true
            },
            None => false,
        }
    }

    /// The profile with this name, if any.
    pub fn get(&self, name: &str) -> (r: Option<&ProfileConfig>)
        ensures
            r matches Some(p) ==> self@.contains_key(name@) && *p == self@[name@],
            r is None ==> !self@.contains_key(name@),
    {
        proof {
            use_type_invariant(self);
            lemma_entries_map_dom(self.entries@, name@);
        }
        match self.position(name) {
            Some(i) => {
                proof {
                    lemma_entries_map_value(self.entries@, i as int);
                }
                Some(&self.entries[i].1)
            },
            None => None,
        }
    }

    /// Add a profile under this name, replacing the one that had it.
    pub fn insert(&mut self, name: String, profile: ProfileConfig)
        ensures
            final(self)@ == old(self)@.insert(name@, profile),
    {
        proof {
            use_type_invariant(&*self);
        }
        let mut entries: Vec<(String, ProfileConfig)> = Vec::new();
        std::mem::swap(&mut entries, &mut self.entries);
        let ghost s0 = entries@;
        assert(entries_map(s0) == old(self)@);
        let ghost k = name@;
        match position_in(&entries, name.as_str()) {
            Some(i) => {
                proof {
                    lemma_entries_map_remove(s0, i as int);
                }
                entries.remove(i);
                let ghost s1 = entries@;
                entries.push((name, profile));
                proof {
                    assert(entries@.drop_last() =~= s1);
                    assert forall|a: int, b: int| 0 <= a < b < entries@.len() implies entries@[a].0@
                        != entries@[b].0@ by {
                        if b == entries@.len() - 1 {
                            assert(entries@[a] == s1[a]);
                            lemma_entries_map_dom(s1, k);
                            if s1[a].0@ == k {
                                assert(entries_map(s1).contains_key(k));
                            }
                        } else {
                            assert(entries@[a] == s1[a]);
                            assert(entries@[b] == s1[b]);
                        }
                    }
                    assert(entries_map(entries@) =~= entries_map(s0).insert(k, profile));
                }
            },
            None => {
                let ghost s1 = entries@;
                entries.push((name, profile));
                proof {
                    assert(entries@.drop_last() =~= s1);
                    assert forall|a: int, b: int| 0 <= a < b < entries@.len() implies entries@[a].0@
                        != entries@[b].0@ by {
                        assert(entries@[a] == s1[a]);
                        if b < entries@.len() - 1 {
                            assert(entries@[b] == s1[b]);
                        }
                    }
                }
            },
        }
        self.entries = entries;
    }

}


/// The view of an optional text.
pub open spec fn opt_view(o: Option<String>) -> Option<Seq<char>> {
    match o {
        Some(s) => Some(s@),
        None => None,
    }
}

/// The configuration file: the profiles, the profile used by default, and
/// directory settings shared by all profiles.
pub struct MCRSConfig {
    pub profiles: ProfileMap,
    pub default_profile: Option<String>,
    pub dirs: Option<Directories>,
}

/// Why no profile could be chosen.
#[derive(Debug)]
pub enum ProfileError {
    /// The profile asked for (with `--profile` or as default) does not exist.
    NotFound(String),
    /// No profile was asked for and there is not exactly one.
    NotChosen,
}

/// The profile that a load of the configuration uses: the one named on the
/// command line, else the default one; when neither names one, the only
/// profile if there is exactly one. `Err(Some(name))`: the named profile
/// does not exist; `Err(None)`: no profile was named and there is not
/// exactly one.
pub open spec fn selection(
    profiles: Map<Seq<char>, ProfileConfig>,
    default_profile: Option<Seq<char>>,
    cli_profile: Option<Seq<char>>,
) -> Result<(Seq<char>, ProfileConfig), Option<Seq<char>>> {
    match crate::settings::or_else(cli_profile, default_profile) {
        Some(n) => if profiles.contains_key(n) {
            Ok((n, profiles[n]))
        } else {
            Err(Some(n))
        },
        None => if profiles.dom().len() == 1 {
            let k = choose|k: Seq<char>| profiles.contains_key(k);
            Ok((k, profiles[k]))
        } else {
            Err(None)
        },
    }
}

/// The default profile after a profile is created or updated: an existing
/// default is kept, otherwise the new profile becomes the default.
pub open spec fn upserted_default(default_profile: Option<Seq<char>>, name: Seq<char>) -> Option<Seq<char>> {
    match default_profile {
        Some(d) => Some(d),
        None => Some(name),
    }
}

/// The name of the profile generated for a new configuration.
pub const DEFAULT_PROFILE_NAME: &'static str = "default";

/// The default room of the profile generated for a new configuration.
pub const DEFAULT_ROOM: &'static str = "default";

impl MCRSConfig {
    /// A configuration without profiles, default profile or directories.
    pub fn empty() -> (r: MCRSConfig)
        ensures
            r.profiles@ == Map::<Seq<char>, ProfileConfig>::empty(),
            r.default_profile is None,
            r.dirs is None,
    {
        MCRSConfig { profiles: ProfileMap::new(), default_profile: None, dirs: None }
    }

    /// The configuration written when none exists: one profile named
    /// `default` for the given user and homeserver with default room
    /// `default`, no default profile and no directories.
    pub fn default_config(user_id: String, homeserver: Option<String>) -> (r: MCRSConfig)
        ensures
            r.profiles@.dom() == set![DEFAULT_PROFILE_NAME@],
            r.profiles@[DEFAULT_PROFILE_NAME@].user_id == user_id,
            r.profiles@[DEFAULT_PROFILE_NAME@].homeserver == homeserver,
            r.profiles@[DEFAULT_PROFILE_NAME@].default_room@ == DEFAULT_ROOM@,
            r.profiles@[DEFAULT_PROFILE_NAME@].dirs is None,
            r.default_profile is None,
            r.dirs is None,
    {
        let mut profiles = ProfileMap::new();
        let profile = ProfileConfig {
            user_id,
            homeserver,
            default_room: DEFAULT_ROOM.to_string(),
            dirs: None,
        };
        profiles.insert(DEFAULT_PROFILE_NAME.to_string(), profile);
        assert(profiles@.dom() =~= set![DEFAULT_PROFILE_NAME@]);
        MCRSConfig { profiles, default_profile: None, dirs: None }
    }

    /// Choose the profile to use (see [`selection`]) and take it out of the
    /// configuration, together with the shared directory settings.
    pub fn select_profile(self, cli_profile: Option<String>) -> (r: Result<
        (String, ProfileConfig, Option<Directories>),
        ProfileError,
    >)
        ensures
            r is Ok == selection(self.profiles@, opt_view(self.default_profile), opt_view(cli_profile)) is Ok,
            r matches Ok(t) ==> selection(self.profiles@, opt_view(self.default_profile), opt_view(cli_profile))
                == Ok::<(Seq<char>, ProfileConfig), Option<Seq<char>>>((t.0@, t.1)) && t.2 == self.dirs,
            r matches Err(ProfileError::NotFound(n)) ==> selection(self.profiles@, opt_view(self.default_profile), opt_view(cli_profile))
                == Err::<(Seq<char>, ProfileConfig), Option<Seq<char>>>(Some(n@)),
            r matches Err(ProfileError::NotChosen) ==> selection(self.profiles@, opt_view(self.default_profile), opt_view(cli_profile))
                == Err::<(Seq<char>, ProfileConfig), Option<Seq<char>>>(None),
    {
        let MCRSConfig { mut profiles, default_profile, dirs } = self;
        let chosen = match cli_profile {
            Some(p) => Some(p),
            None => default_profile,
        };
        match chosen {
            Some(name) => match profiles.remove_entry(name.as_str()) {
                Some(e) => Ok((e.0, e.1, dirs)),
                None => Err(ProfileError::NotFound(name)),
            },
            None => {
                if profiles.len() == 1 {
                    let ghost m = profiles@;
                    let mut entries = profiles.into_entries();
                    proof {
                        lemma_entries_map_len(entries@);
                        lemma_entries_map_value(entries@, 0);
                        let k = choose|k: Seq<char>| m.contains_key(k);
                        let k0 = entries@[0].0@;
                        assert(m.dom().remove(k0).len() == 0);
                        assert(!m.dom().remove(k0).contains(k) || k == k0);
                        if k != k0 {
                            assert(m.dom().remove(k0).contains(k));
                        }
                    }
                    let e = entries.remove(0);
                    Ok((e.0, e.1, dirs))
                } else {
                    Err(ProfileError::NotChosen)
                }
            },
        }
    }

    /// Take the profile with this name out of the configuration, together
    /// with the shared directory settings, if it exists.
    pub fn take_profile(self, name: &str) -> (r: Option<(String, ProfileConfig, Option<Directories>)>)
        ensures
            r is Some <==> self.profiles@.contains_key(name@),
            r matches Some(t) ==> t.0@ == name@ && t.1 == self.profiles@[name@] && t.2 == self.dirs,
    {
        let MCRSConfig { mut profiles, default_profile: _, dirs } = self;
        match profiles.remove_entry(name) {
            Some(e) => Some((e.0, e.1, dirs)),
            None => None,
        }
    }

    /// Create or replace the profile with this name; when no default
    /// profile is set, it becomes the default.
    pub fn upsert_profile(&mut self, name: String, profile: ProfileConfig)
        ensures
            final(self).profiles@ == old(self).profiles@.insert(name@, profile),
            opt_view(final(self).default_profile) == upserted_default(opt_view(old(self).default_profile), name@),
            final(self).dirs == old(self).dirs,
    {
        if self.default_profile.is_none() {
            self.default_profile = Some(name.clone());
        }
        self.profiles.insert(name, profile);
    }
}

/// What a login writes is what a load with that profile name gives back.
pub proof fn lemma_upserted_profile_selected_by_name(
    profiles: Map<Seq<char>, ProfileConfig>,
    default_profile: Option<Seq<char>>,
    name: Seq<char>,
    profile: ProfileConfig,
)
    ensures
        selection(profiles.insert(name, profile), upserted_default(default_profile, name), Some(name))
            == Ok::<(Seq<char>, ProfileConfig), Option<Seq<char>>>((name, profile)),
{
}

/// In a configuration without default profile, the first profile written
/// becomes the default, so a load without `--profile` gives it back.
pub proof fn lemma_first_upserted_profile_is_default(
    profiles: Map<Seq<char>, ProfileConfig>,
    name: Seq<char>,
    profile: ProfileConfig,
)
    ensures
        selection(profiles.insert(name, profile), upserted_default(None, name), None)
            == Ok::<(Seq<char>, ProfileConfig), Option<Seq<char>>>((name, profile)),
{
}

/// Writing one profile leaves every other profile and an existing default as
/// they were.
pub proof fn lemma_upsert_keeps_others(
    profiles: Map<Seq<char>, ProfileConfig>,
    default_profile: Option<Seq<char>>,
    name: Seq<char>,
    profile: ProfileConfig,
    other: Seq<char>,
)
    requires
        other != name,
    ensures
        profiles.insert(name, profile).contains_key(other) == profiles.contains_key(other),
        profiles.contains_key(other) ==> profiles.insert(name, profile)[other] == profiles[other],
        default_profile is Some ==> upserted_default(default_profile, name) == default_profile,
{
}

/// A profile named on the command line takes precedence over the default
/// profile.
pub proof fn lemma_cli_profile_overrides_default(
    profiles: Map<Seq<char>, ProfileConfig>,
    default_profile: Option<Seq<char>>,
    cli_profile: Seq<char>,
)
    requires
        profiles.contains_key(cli_profile),
    ensures
        selection(profiles, default_profile, Some(cli_profile))
            == Ok::<(Seq<char>, ProfileConfig), Option<Seq<char>>>((cli_profile, profiles[cli_profile])),
{
}

/// The profile to use is found by its name: a profile named on the command
/// line is used when it exists, and selection fails with that name when it
/// does not, whatever the default profile is; without a name on the command
/// line the same holds of the default profile.
pub proof fn lemma_named_profile_is_used_or_refused(
    profiles: Map<Seq<char>, ProfileConfig>,
    default_profile: Option<Seq<char>>,
    name: Seq<char>,
)
    ensures
        profiles.contains_key(name) ==> selection(profiles, default_profile, Some(name))
            == Ok::<(Seq<char>, ProfileConfig), Option<Seq<char>>>((name, profiles[name])),
        !profiles.contains_key(name) ==> selection(profiles, default_profile, Some(name))
            == Err::<(Seq<char>, ProfileConfig), Option<Seq<char>>>(Some(name)),
        profiles.contains_key(name) ==> selection(profiles, Some(name), None)
            == Ok::<(Seq<char>, ProfileConfig), Option<Seq<char>>>((name, profiles[name])),
        !profiles.contains_key(name) ==> selection(profiles, Some(name), None)
            == Err::<(Seq<char>, ProfileConfig), Option<Seq<char>>>(Some(name)),
{
}

/// Without any profile name, the only profile is used, and selection fails
/// without a name when there is not exactly one profile.
pub proof fn lemma_unnamed_selection(profiles: Map<Seq<char>, ProfileConfig>)
    requires
        profiles.dom().finite(),
    ensures
        profiles.dom().len() == 1 ==> (selection(profiles, None, None) matches Ok(t)
            && profiles.dom() == set![t.0] && t.1 == profiles[t.0]),
        profiles.dom().len() != 1 ==> selection(profiles, None, None)
            == Err::<(Seq<char>, ProfileConfig), Option<Seq<char>>>(None),
{
    if profiles.dom().len() == 1 {
        let k = choose|k: Seq<char>| profiles.contains_key(k);
        assert(profiles.dom().contains(k)) by {
            vstd::set_lib::lemma_set_empty_equivalency_len(profiles.dom());
            assert(profiles.dom().contains(profiles.dom().choose()));
        }
        assert(profiles.dom() =~= set![k]) by {
            assert forall|j: Seq<char>| profiles.dom().contains(j) implies j == k by {
                if j != k {
                    assert(profiles.dom().remove(k).contains(j));
                    assert(profiles.dom().remove(k).len() == 0);
                }
            }
        }
    }
}

} // verus!
