//! Turning Xbox Live profile, friend and achievement replies into the
//! profiles that the user interface lists, keyed by id.
use vstd::prelude::*;
use vstd::string::StringExecFns;
use crate::text::{to_string, str_eq};

verus! {

/// One profile setting: its id and value.
#[derive(Clone, Debug)]
pub struct UserProfileSettings {
    pub id: String,
    pub value: String,
}

/// A profile as the batch profile service returns it.
#[derive(Clone, Debug)]
pub struct UserProfileEntry {
    pub id: String,
    pub settings: Vec<UserProfileSettings>,
}

/// A profile as the user interface lists it. `settings` holds each setting
/// id once.
#[derive(Clone, Debug)]
pub struct ProfileUser {
    pub id: String,
    pub settings: Vec<UserProfileSettings>,
    pub selected: bool,
    pub presense: String,
    pub picture: Option<String>,
    pub gamer_tag: String,
    pub description: String,
}

/// A friend as the people hub returns it.
#[derive(Clone, Debug)]
pub struct PeopleHubResponseEntry {
    pub xuid: String,
    pub gamertag: String,
    pub presence_state: String,
    pub display_pic_raw: String,
}

/// An image or other media of an achievement.
#[derive(Clone, Debug)]
pub struct AchievementMediaAsset {
    pub url: String,
    pub type_: String,
}

/// A reward of an achievement.
#[derive(Clone, Debug)]
pub struct AchievementReward {
    pub value: String,
    pub type_: String,
    pub value_type: String,
    pub media_asset: Option<AchievementMediaAsset>,
    pub name: Option<String>,
    pub description: Option<String>,
}

/// A requirement towards an achievement.
#[derive(Clone, Debug)]
pub struct ProgressionRequirement {
    pub id: String,
    pub current: Option<String>,
    pub target: String,
}

/// The requirements towards an achievement.
#[derive(Clone, Debug)]
pub struct Progression {
    pub requirements: Vec<ProgressionRequirement>,
}

/// An achievement as the achievements service returns it.
#[derive(Clone, Debug)]
pub struct AchievementEntry {
    pub id: String,
    pub name: String,
    pub progress_state: String,
    pub progression: Progression,
    pub media_assets: Vec<AchievementMediaAsset>,
    pub description: String,
    pub rewards: Vec<AchievementReward>,
}

/// The settings as a map: a later setting with an id replaces an earlier
/// one.
pub open spec fn spec_settings_map(s: Seq<UserProfileSettings>) -> Map<Seq<char>, Seq<char>>
    decreases s.len(),
{
    if s.len() == 0 {
        Map::<Seq<char>, Seq<char>>::empty()
    } else {
        spec_settings_map(s.drop_last()).insert(s.last().id@, s.last().value@)
    }
}

/// No id occurs twice.
pub open spec fn spec_unique_setting_ids(s: Seq<UserProfileSettings>) -> bool {
    forall|i: int, j: int| 0 <= i < j < s.len() ==> s[i].id@ != s[j].id@
}

proof fn lemma_settings_map_update(s: Seq<UserProfileSettings>, i: int, x: UserProfileSettings)
    requires
        spec_unique_setting_ids(s),
        0 <= i < s.len(),
        s[i].id@ == x.id@,
    ensures
        spec_settings_map(s.update(i, x)) == spec_settings_map(s).insert(x.id@, x.value@),
        spec_unique_setting_ids(s.update(i, x)),
    decreases s.len(),
{
    let u = s.update(i, x);
    assert forall|a: int, b: int| 0 <= a < b < u.len() implies u[a].id@ != u[b].id@ by {
        assert(u[a].id@ == s[a].id@ && u[b].id@ == s[b].id@);
    }
    if i == s.len() - 1 {
        assert(u.drop_last() =~= s.drop_last());
        assert(spec_settings_map(u) =~= spec_settings_map(s).insert(x.id@, x.value@));
    } else {
        let p = s.drop_last();
        assert(spec_unique_setting_ids(p));
        lemma_settings_map_update(p, i, x);
        assert(u.drop_last() =~= p.update(i, x));
        assert(u.last() == s.last());
        assert(s.last().id@ != x.id@);
        assert(spec_settings_map(u) =~= spec_settings_map(s).insert(x.id@, x.value@));
    }
}

proof fn lemma_settings_map_dom(s: Seq<UserProfileSettings>, k: Seq<char>)
    ensures
        spec_settings_map(s).contains_key(k) <==> exists|i: int| 0 <= i < s.len() && s[i].id@ == k,
    decreases s.len(),
{
    if s.len() > 0 {
        lemma_settings_map_dom(s.drop_last(), k);
        if spec_settings_map(s).contains_key(k) && k != s.last().id@ {
            let i = choose|i: int| 0 <= i < s.len() - 1 && s.drop_last()[i].id@ == k;
            assert(s[i].id@ == k);
        }
        if exists|i: int| 0 <= i < s.len() && s[i].id@ == k {
            let i = choose|i: int| 0 <= i < s.len() && s[i].id@ == k;
            if i < s.len() - 1 {
                assert(s.drop_last()[i].id@ == k);
            }
        }
    }
}

proof fn lemma_settings_map_at(s: Seq<UserProfileSettings>, i: int)
    requires
        spec_unique_setting_ids(s),
        0 <= i < s.len(),
    ensures
        spec_settings_map(s).contains_key(s[i].id@),
        spec_settings_map(s)[s[i].id@] == s[i].value@,
    decreases s.len(),
{
    if i < s.len() - 1 {
        let p = s.drop_last();
        assert(spec_unique_setting_ids(p));
        lemma_settings_map_at(p, i);
        assert(p[i] == s[i]);
        assert(s.last().id@ != s[i].id@);
    }
}

/// Puts a setting into a list of settings with unique ids, replacing the
/// one with the same id.
fn insert_setting(list: &mut Vec<UserProfileSettings>, x: UserProfileSettings)
    requires
        spec_unique_setting_ids(old(list)@),
    ensures
        spec_unique_setting_ids(final(list)@),
        spec_settings_map(final(list)@) == spec_settings_map(old(list)@).insert(x.id@, x.value@),
{
    let mut i: usize = 0;
    while i < list.len()
        invariant
            list@ == old(list)@,
            spec_unique_setting_ids(list@),
            i <= list@.len(),
            forall|k: int| 0 <= k < i ==> list@[k].id@ != x.id@,
        decreases list@.len() - i,
    {
        if str_eq(list[i].id.as_str(), x.id.as_str()) {
            proof {
                lemma_settings_map_update(list@, i as int, x);
            }
            list.remove(i);
            list.insert(i, x);
            assert(list@ =~= old(list)@.update(i as int, x));
            return;
        }
        i = i + 1;
    }
    let ghost before = list@;
    list.push(x);
    proof {
        assert(list@.drop_last() =~= before);
        assert forall|a: int, b: int| 0 <= a < b < list@.len() implies list@[a].id@ != list@[b].id@ by {
            if b == list@.len() - 1 {
                assert(list@[a] == before[a]);
            } else {
                assert(list@[a] == before[a] && list@[b] == before[b]);
            }
        }
    }
}

/// The value of the setting `key`, if there is one.
fn get_setting(list: &Vec<UserProfileSettings>, key: &str) -> (r: Option<String>)
    requires
        spec_unique_setting_ids(list@),
    ensures
        match r {
            Some(v) => spec_settings_map(list@).contains_key(key@) && v@ == spec_settings_map(list@)[key@],
            None => !spec_settings_map(list@).contains_key(key@),
        },
{
    let mut i: usize = 0;
    while i < list.len()
        invariant
            spec_unique_setting_ids(list@),
            i <= list@.len(),
            forall|k: int| 0 <= k < i ==> list@[k].id@ != key@,
        decreases list@.len() - i,
    {
        if str_eq(list[i].id.as_str(), key) {
            proof {
                lemma_settings_map_at(list@, i as int);
            }
            return Some(list[i].value.clone());
        }
        i = i + 1;
    }
    proof {
        lemma_settings_map_dom(list@, key@);
    }
    None
}

/// The settings of an entry, each id once, later values replacing earlier.
pub fn settings_map(settings: &Vec<UserProfileSettings>) -> (r: Vec<UserProfileSettings>)
    ensures
        spec_unique_setting_ids(r@),
        spec_settings_map(r@) == spec_settings_map(settings@),
{
    let mut r: Vec<UserProfileSettings> = Vec::new();
    let mut i: usize = 0;
    while i < settings.len()
        invariant
            i <= settings@.len(),
            spec_unique_setting_ids(r@),
            spec_settings_map(r@) == spec_settings_map(settings@.subrange(0, i as int)),
        decreases settings@.len() - i,
    {
        let s = UserProfileSettings { id: settings[i].id.clone(), value: settings[i].value.clone() };
        insert_setting(&mut r, s);
        proof {
            let p = settings@.subrange(0, i as int + 1);
            assert(p.drop_last() =~= settings@.subrange(0, i as int));
        }
        i = i + 1;
    }
    assert(settings@.subrange(0, settings@.len() as int) =~= settings@);
    r
}

/// The value of `key` in a settings map, or the empty text.
pub open spec fn spec_setting_or_empty(m: Map<Seq<char>, Seq<char>>, key: Seq<char>) -> Seq<char> {
    if m.contains_key(key) { m[key] } else { Seq::<char>::empty() }
}

/// The profile listed for a batch profile entry: its settings, the
/// `Gamertag` setting (or nothing) as gamertag and description, and the
/// `GameDisplayPicRaw` setting, when present, as picture; not selected, with
/// no presence.
pub open spec fn spec_profile_of_entry(p: ProfileUser, e: UserProfileEntry) -> bool {
    let m = spec_settings_map(e.settings@);
    &&& p.id@ == e.id@
    &&& spec_unique_setting_ids(p.settings@)
    &&& spec_settings_map(p.settings@) == m
    &&& !p.selected
    &&& p.presense@ == Seq::<char>::empty()
    &&& p.gamer_tag@ == spec_setting_or_empty(m, "Gamertag"@)
    &&& p.description@ == spec_setting_or_empty(m, "Gamertag"@)
    &&& match p.picture {
        Some(pic) => m.contains_key("GameDisplayPicRaw"@) && pic@ == m["GameDisplayPicRaw"@],
        None => !m.contains_key("GameDisplayPicRaw"@),
    }
}

/// Builds the profile listed for a batch profile entry.
pub fn profile_of_entry(e: &UserProfileEntry) -> (p: ProfileUser)
    ensures
        spec_profile_of_entry(p, *e),
{
    let settings = settings_map(&e.settings);
    let gt = match get_setting(&settings, "Gamertag") {
        Some(v) => v,
        None => String::new(),
    };
    let picture = get_setting(&settings, "GameDisplayPicRaw");
    ProfileUser {
        id: e.id.clone(),
        selected: false,
        presense: String::new(),
        picture,
        gamer_tag: gt.clone(),
        settings,
        description: gt,
    }
}

/// The ids of the profiles are distinct.
pub open spec fn spec_unique_profile_ids(v: Seq<ProfileUser>) -> bool {
    forall|i: int, j: int| 0 <= i < j < v.len() ==> v[i].id@ != v[j].id@
}

/// Profiles collected into a map keyed by id: a later profile with an id
/// replaces an earlier one.
pub open spec fn spec_profiles_by_id(s: Seq<ProfileUser>) -> Map<Seq<char>, ProfileUser>
    decreases s.len(),
{
    if s.len() == 0 {
        Map::<Seq<char>, ProfileUser>::empty()
    } else {
        spec_profiles_by_id(s.drop_last()).insert(s.last().id@, s.last())
    }
}

proof fn lemma_profiles_update(s: Seq<ProfileUser>, i: int, x: ProfileUser)
    requires
        spec_unique_profile_ids(s),
        0 <= i < s.len(),
        s[i].id@ == x.id@,
    ensures
        spec_profiles_by_id(s.update(i, x)) == spec_profiles_by_id(s).insert(x.id@, x),
        spec_unique_profile_ids(s.update(i, x)),
    decreases s.len(),
{
    let u = s.update(i, x);
    assert forall|a: int, b: int| 0 <= a < b < u.len() implies u[a].id@ != u[b].id@ by {
        assert(u[a].id@ == s[a].id@ && u[b].id@ == s[b].id@);
    }
    if i == s.len() - 1 {
        assert(u.drop_last() =~= s.drop_last());
        assert(spec_profiles_by_id(u) =~= spec_profiles_by_id(s).insert(x.id@, x));
    } else {
        let p = s.drop_last();
        assert(spec_unique_profile_ids(p));
        lemma_profiles_update(p, i, x);
        assert(u.drop_last() =~= p.update(i, x));
        assert(u.last() == s.last());
        assert(s.last().id@ != x.id@);
        assert(spec_profiles_by_id(u) =~= spec_profiles_by_id(s).insert(x.id@, x));
    }
}

/// Puts a profile into a list with distinct ids, replacing the one with the
/// same id; a new id goes last.
pub fn insert_profile(list: &mut Vec<ProfileUser>, p: ProfileUser)
    requires
        spec_unique_profile_ids(old(list)@),
    ensures
        spec_unique_profile_ids(final(list)@),
        spec_profiles_by_id(final(list)@) == spec_profiles_by_id(old(list)@).insert(p.id@, p),
{
    let mut i: usize = 0;
    while i < list.len()
        invariant
            list@ == old(list)@,
            spec_unique_profile_ids(list@),
            i <= list@.len(),
            forall|k: int| 0 <= k < i ==> list@[k].id@ != p.id@,
        decreases list@.len() - i,
    {
        if str_eq(list[i].id.as_str(), p.id.as_str()) {
            proof {
                lemma_profiles_update(list@, i as int, p);
            }
            list.remove(i);
            list.insert(i, p);
            assert(list@ =~= old(list)@.update(i as int, p));
            return;
        }
        i = i + 1;
    }
    let ghost before = list@;
    list.push(p);
    proof {
        assert(list@.drop_last() =~= before);
        assert forall|a: int, b: int| 0 <= a < b < list@.len() implies list@[a].id@ != list@[b].id@ by {
            if b == list@.len() - 1 {
                assert(list@[a] == before[a]);
            } else {
                assert(list@[a] == before[a] && list@[b] == before[b]);
            }
        }
    }
}

/// Collects profiles into a map keyed by id: a later profile with an id
/// replaces an earlier one, in the place where the id first appeared.
pub fn collect_by_id(built: Vec<ProfileUser>) -> (r: Vec<ProfileUser>)
    ensures
        spec_unique_profile_ids(r@),
        spec_profiles_by_id(r@) == spec_profiles_by_id(built@),
{
    let ghost all = built@;
    let mut rest = built;
    let mut r: Vec<ProfileUser> = Vec::new();
    let mut n: usize = 0;
    let total = rest.len();
    while rest.len() > 0
        invariant
            total == all.len(),
            n + rest@.len() == total,
            rest@ == all.subrange(n as int, total as int),
            spec_unique_profile_ids(r@),
            spec_profiles_by_id(r@) == spec_profiles_by_id(all.subrange(0, n as int)),
        decreases rest@.len(),
    {
        let p = rest.remove(0);
        assert(p == all[n as int]);
        insert_profile(&mut r, p);
        proof {
            assert(all.subrange(0, n as int + 1).drop_last() =~= all.subrange(0, n as int));
        }
        n = n + 1;
        assert(rest@ =~= all.subrange(n as int, total as int));
    }
    assert(all.subrange(0, total as int) =~= all);
    r
}

/// Items collected into a map by a key: a later item with a key replaces
/// an earlier one.
pub open spec fn spec_last_by_key<T>(s: Seq<T>, key: spec_fn(T) -> Seq<char>) -> Map<Seq<char>, T>
    decreases s.len(),
{
    if s.len() == 0 {
        Map::<Seq<char>, T>::empty()
    } else {
        spec_last_by_key(s.drop_last(), key).insert(key(s.last()), s.last())
    }
}

/// Batch profile entries collected into a map keyed by user id.
pub open spec fn spec_entries_by_id(s: Seq<UserProfileEntry>) -> Map<Seq<char>, UserProfileEntry> {
    spec_last_by_key(s, |e: UserProfileEntry| e.id@)
}

proof fn lemma_profiles_of_items<T>(
    b: Seq<ProfileUser>,
    e: Seq<T>,
    key: spec_fn(T) -> Seq<char>,
    rel: spec_fn(ProfileUser, T) -> bool,
)
    requires
        b.len() == e.len(),
        forall|k: int| 0 <= k < b.len() ==> #[trigger] rel(b[k], e[k]) && b[k].id@ == key(e[k]),
    ensures
        spec_profiles_by_id(b).dom() == spec_last_by_key(e, key).dom(),
        forall|id: Seq<char>| #[trigger] spec_profiles_by_id(b).contains_key(id) ==> rel(
            spec_profiles_by_id(b)[id],
            spec_last_by_key(e, key)[id],
        ),
    decreases b.len(),
{
    if b.len() > 0 {
        let n = b.len() - 1;
        assert forall|k: int| 0 <= k < b.drop_last().len() implies #[trigger] rel(b.drop_last()[k], e.drop_last()[k])
            && b.drop_last()[k].id@ == key(e.drop_last()[k]) by {
            assert(rel(b[k], e[k]));
        }
        lemma_profiles_of_items(b.drop_last(), e.drop_last(), key, rel);
        assert(rel(b[n], e[n]));
        assert(spec_profiles_by_id(b).dom() =~= spec_last_by_key(e, key).dom());
    }
}

/// Builds the profiles of a batch profile reply, keyed by user id: each id
/// once, with the profile of the last entry that carries it.
pub fn parse_user_profile_response(entries: &Vec<UserProfileEntry>) -> (r: Vec<ProfileUser>)
    ensures
        spec_unique_profile_ids(r@),
        spec_profiles_by_id(r@).dom() == spec_entries_by_id(entries@).dom(),
        forall|id: Seq<char>| #[trigger] spec_profiles_by_id(r@).contains_key(id) ==> spec_profile_of_entry(
            spec_profiles_by_id(r@)[id],
            spec_entries_by_id(entries@)[id],
        ),
{
    let mut built: Vec<ProfileUser> = Vec::new();
    let mut i: usize = 0;
    while i < entries.len()
        invariant
            i <= entries@.len(),
            built@.len() == i,
            forall|k: int| 0 <= k < i ==> #[trigger] spec_profile_of_entry(built@[k], entries@[k]),
        decreases entries@.len() - i,
    {
        let p = profile_of_entry(&entries[i]);
        built.push(p);
        i = i + 1;
    }
    proof {
        lemma_profiles_of_items(
            built@,
            entries@,
            |e: UserProfileEntry| e.id@,
            |p: ProfileUser, e: UserProfileEntry| spec_profile_of_entry(p, e),
        );
    }
    collect_by_id(built)
}

/// The profile listed for a friend: the gamertag and presence, the
/// gamertag and presence joined by a space as description, the display
/// picture; no settings, not selected.
pub open spec fn spec_profile_of_friend(p: ProfileUser, e: PeopleHubResponseEntry) -> bool {
    &&& p.id@ == e.xuid@
    &&& p.settings@.len() == 0
    &&& !p.selected
    &&& p.description@ == e.gamertag@ + " "@ + e.presence_state@
    &&& p.presense@ == e.presence_state@
    &&& p.picture matches Some(pic) && pic@ == e.display_pic_raw@
    &&& p.gamer_tag@ == e.gamertag@
}

/// Builds the profile listed for a friend.
pub fn profile_of_friend(e: PeopleHubResponseEntry) -> (p: ProfileUser)
    ensures
        spec_profile_of_friend(p, e),
{
    let mut description = e.gamertag.clone();
    description.append(" ");
    description.append(e.presence_state.as_str());
    ProfileUser {
        id: e.xuid,
        selected: false,
        description,
        presense: e.presence_state,
        picture: Some(e.display_pic_raw),
        gamer_tag: e.gamertag,
        settings: Vec::new(),
    }
}

/// People hub entries collected into a map keyed by xuid.
pub open spec fn spec_people_by_id(s: Seq<PeopleHubResponseEntry>) -> Map<Seq<char>, PeopleHubResponseEntry> {
    spec_last_by_key(s, |e: PeopleHubResponseEntry| e.xuid@)
}

/// Builds the friend list of a people hub reply, keyed by xuid: each xuid
/// once, with the profile of the last entry that carries it.
pub fn profiles_of_friends(people: Vec<PeopleHubResponseEntry>) -> (r: Vec<ProfileUser>)
    ensures
        spec_unique_profile_ids(r@),
        spec_profiles_by_id(r@).dom() == spec_people_by_id(people@).dom(),
        forall|id: Seq<char>| #[trigger] spec_profiles_by_id(r@).contains_key(id) ==> spec_profile_of_friend(
            spec_profiles_by_id(r@)[id],
            spec_people_by_id(people@)[id],
        ),
{
    let ghost all = people@;
    let mut rest = people;
    let mut built: Vec<ProfileUser> = Vec::new();
    let total = rest.len();
    while rest.len() > 0
        invariant
            total == all.len(),
            built@.len() + rest@.len() == total,
            rest@ == all.subrange(built@.len() as int, total as int),
            forall|k: int| 0 <= k < built@.len() ==> #[trigger] spec_profile_of_friend(built@[k], all[k]),
        decreases rest@.len(),
    {
        let e = rest.remove(0);
        assert(e == all[built@.len() as int]);
        let p = profile_of_friend(e);
        built.push(p);
        assert(rest@ =~= all.subrange(built@.len() as int, total as int));
    }
    proof {
        lemma_profiles_of_items(
            built@,
            all,
            |e: PeopleHubResponseEntry| e.xuid@,
            |p: ProfileUser, e: PeopleHubResponseEntry| spec_profile_of_friend(p, e),
        );
    }
    collect_by_id(built)
}

/// The value of the first reward of kind `Gamerscore`, or the empty text.
pub open spec fn spec_gamerscore(rewards: Seq<AchievementReward>) -> Seq<char>
    decreases rewards.len(),
{
    if rewards.len() == 0 {
        Seq::<char>::empty()
    } else if rewards[0].type_@ == "Gamerscore"@ {
        rewards[0].value@
    } else {
        spec_gamerscore(rewards.drop_first())
    }
}

/// The value of the first reward of kind `Gamerscore`, or the empty text.
pub fn gamerscore(rewards: &Vec<AchievementReward>) -> (r: String)
    ensures
        r@ == spec_gamerscore(rewards@),
{
    let mut i: usize = 0;
    assert(rewards@.subrange(0, rewards@.len() as int) =~= rewards@);
    while i < rewards.len()
        invariant
            i <= rewards@.len(),
            spec_gamerscore(rewards@) == spec_gamerscore(rewards@.subrange(i as int, rewards@.len() as int)),
        decreases rewards@.len() - i,
    {
        let ghost rest = rewards@.subrange(i as int, rewards@.len() as int);
        assert(rest[0] == rewards@[i as int]);
        if str_eq(rewards[i].type_.as_str(), "Gamerscore") {
            return rewards[i].value.clone();
        }
        assert(rest.drop_first() =~= rewards@.subrange(i as int + 1, rewards@.len() as int));
        i = i + 1;
    }
    String::new()
}

/// The text an achievement is described by: its name, its state, its
/// gamerscore reward and its description, one per line.
pub open spec fn spec_achievement_description(e: AchievementEntry) -> Seq<char> {
    e.name@ + "\nStatus "@ + e.progress_state@ + "\nReward "@ + spec_gamerscore(e.rewards@) + "G\n"@
        + e.description@
}

/// The profile listed for an achievement: its id, its description, the url
/// of its first media asset as picture; no settings, gamertag or presence.
pub open spec fn spec_profile_of_achievement(p: ProfileUser, e: AchievementEntry) -> bool {
    &&& p.id@ == e.id@
    &&& p.settings@.len() == 0
    &&& !p.selected
    &&& p.description@ == spec_achievement_description(e)
    &&& p.presense@ == Seq::<char>::empty()
    &&& p.gamer_tag@ == Seq::<char>::empty()
    &&& if e.media_assets@.len() > 0 {
        p.picture matches Some(pic) && pic@ == e.media_assets@[0].url@
    } else {
        p.picture is None
    }
}

/// Builds the profile listed for an achievement.
pub fn profile_of_achievement(e: &AchievementEntry) -> (p: ProfileUser)
    ensures
        spec_profile_of_achievement(p, *e),
{
    let mut description = e.name.clone();
    description.append("\nStatus ");
    description.append(e.progress_state.as_str());
    description.append("\nReward ");
    let g = gamerscore(&e.rewards);
    description.append(g.as_str());
    description.append("G\n");
    description.append(e.description.as_str());
    let picture = if e.media_assets.len() > 0 {
        Some(e.media_assets[0].url.clone())
    } else {
        None
    };
    ProfileUser {
        id: e.id.clone(),
        selected: false,
        description,
        presense: String::new(),
        picture,
        gamer_tag: String::new(),
        settings: Vec::new(),
    }
}

/// Achievements collected into a map keyed by id.
pub open spec fn spec_achievements_by_id(s: Seq<AchievementEntry>) -> Map<Seq<char>, AchievementEntry> {
    spec_last_by_key(s, |e: AchievementEntry| e.id@)
}

/// Builds the achievement list of an achievements reply, keyed by id: each
/// id once, with the profile of the last entry that carries it.
pub fn profiles_of_achievements(entries: &Vec<AchievementEntry>) -> (r: Vec<ProfileUser>)
    ensures
        spec_unique_profile_ids(r@),
        spec_profiles_by_id(r@).dom() == spec_achievements_by_id(entries@).dom(),
        forall|id: Seq<char>| #[trigger] spec_profiles_by_id(r@).contains_key(id) ==> spec_profile_of_achievement(
            spec_profiles_by_id(r@)[id],
            spec_achievements_by_id(entries@)[id],
        ),
{
    let mut built: Vec<ProfileUser> = Vec::new();
    let mut i: usize = 0;
    while i < entries.len()
        invariant
            i <= entries@.len(),
            built@.len() == i,
            forall|k: int| 0 <= k < i ==> #[trigger] spec_profile_of_achievement(built@[k], entries@[k]),
        decreases entries@.len() - i,
    {
        let p = profile_of_achievement(&entries[i]);
        built.push(p);
        i = i + 1;
    }
    proof {
        lemma_profiles_of_items(
            built@,
            entries@,
            |e: AchievementEntry| e.id@,
            |p: ProfileUser, e: AchievementEntry| spec_profile_of_achievement(p, e),
        );
    }
    collect_by_id(built)
}

/// The label the profile list shows for a profile: its `Gamertag` setting
/// (or `Unknown`), a space, and its presence.
pub open spec fn spec_profile_label(p: ProfileUser) -> Seq<char> {
    let m = spec_settings_map(p.settings@);
    (if m.contains_key("Gamertag"@) { m["Gamertag"@] } else { "Unknown"@ }) + " "@ + p.presense@
}

/// The label the profile list shows for a profile.
pub fn profile_label(p: &ProfileUser) -> (r: String)
    requires
        spec_unique_setting_ids(p.settings@),
    ensures
        r@ == spec_profile_label(*p),
{
    let mut label = match get_setting(&p.settings, "Gamertag") {
        Some(g) => g,
        None => to_string("Unknown"),
    };
    label.append(" ");
    label.append(p.presense.as_str());
    label
}

/// The image the profile list shows for a profile: its
/// `GameDisplayPicRaw` setting, asked for at 128 by 128 pixels.
pub fn picture_uri(p: &ProfileUser) -> (r: Option<String>)
    requires
        spec_unique_setting_ids(p.settings@),
    ensures
        match r {
            Some(u) => spec_settings_map(p.settings@).contains_key("GameDisplayPicRaw"@)
                && u@ == spec_settings_map(p.settings@)["GameDisplayPicRaw"@] + "&w=128&h=128"@,
            None => !spec_settings_map(p.settings@).contains_key("GameDisplayPicRaw"@),
        },
{
    match get_setting(&p.settings, "GameDisplayPicRaw") {
        Some(mut u) => {
            u.append("&w=128&h=128");
            Some(u)
        },
        None => None,
    }
}

/// A click on a profile's row flips whether it is selected.
pub fn toggle_selected(p: &mut ProfileUser)
    ensures
        final(p).selected == !old(p).selected,
        final(p).id == old(p).id,
        final(p).settings == old(p).settings,
        final(p).presense == old(p).presense,
        final(p).picture == old(p).picture,
        final(p).gamer_tag == old(p).gamer_tag,
        final(p).description == old(p).description,
{
    p.selected = !p.selected;
}

} // verus!
