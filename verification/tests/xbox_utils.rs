use xgameruntime::xbox_utils::{
    picture_uri, profile_label, toggle_selected,
    collect_by_id, gamerscore, parse_user_profile_response, profile_of_achievement, profile_of_friend,
    profiles_of_achievements, profiles_of_friends, settings_map, AchievementEntry, AchievementMediaAsset,
    AchievementReward, PeopleHubResponseEntry, ProfileUser, Progression, ProgressionRequirement, UserProfileEntry,
    UserProfileSettings,
};

fn setting(id: &str, value: &str) -> UserProfileSettings {
    UserProfileSettings { id: id.to_string(), value: value.to_string() }
}

fn find<'a>(v: &'a [ProfileUser], id: &str) -> &'a ProfileUser {
    v.iter().find(|p| p.id == id).expect("profile with id")
}

#[test]
fn batch_profiles_are_keyed_by_id() {
    let entries = vec![
        UserProfileEntry {
            id: "1".to_string(),
            settings: vec![setting("Gamertag", "Alpha"), setting("GameDisplayPicRaw", "http://pic/a")],
        },
        UserProfileEntry { id: "2".to_string(), settings: vec![setting("Gamerscore", "10")] },
        UserProfileEntry { id: "1".to_string(), settings: vec![setting("Gamertag", "Beta")] },
    ];
    let r = parse_user_profile_response(&entries);
    assert_eq!(r.len(), 2);
    let one = find(&r, "1");
    assert_eq!(one.gamer_tag, "Beta");
    assert_eq!(one.description, "Beta");
    assert_eq!(one.picture, None);
    assert!(!one.selected);
    assert_eq!(one.presense, "");
    let two = find(&r, "2");
    assert_eq!(two.gamer_tag, "");
    assert_eq!(two.settings.len(), 1);
}

#[test]
fn later_setting_replaces_earlier() {
    let s = settings_map(&vec![setting("a", "1"), setting("b", "2"), setting("a", "3")]);
    assert_eq!(s.len(), 2);
    let a = s.iter().find(|x| x.id == "a").unwrap();
    assert_eq!(a.value, "3");
    let entries = vec![UserProfileEntry {
        id: "9".to_string(),
        settings: vec![setting("GameDisplayPicRaw", "http://x"), setting("Gamertag", "G")],
    }];
    let r = parse_user_profile_response(&entries);
    assert_eq!(r[0].picture, Some("http://x".to_string()));
    assert_eq!(r[0].gamer_tag, "G");
}

#[test]
fn friends_are_described_by_tag_and_presence() {
    let p = profile_of_friend(PeopleHubResponseEntry {
        xuid: "42".to_string(),
        gamertag: "Friend".to_string(),
        presence_state: "Online".to_string(),
        display_pic_raw: "http://pic".to_string(),
    });
    assert_eq!(p.id, "42");
    assert_eq!(p.description, "Friend Online");
    assert_eq!(p.presense, "Online");
    assert_eq!(p.gamer_tag, "Friend");
    assert_eq!(p.picture, Some("http://pic".to_string()));
    assert!(p.settings.is_empty());
    let people = vec![
        PeopleHubResponseEntry {
            xuid: "1".to_string(),
            gamertag: "A".to_string(),
            presence_state: "Offline".to_string(),
            display_pic_raw: "p".to_string(),
        },
        PeopleHubResponseEntry {
            xuid: "1".to_string(),
            gamertag: "B".to_string(),
            presence_state: "Online".to_string(),
            display_pic_raw: "q".to_string(),
        },
    ];
    let r = profiles_of_friends(people);
    assert_eq!(r.len(), 1);
    assert_eq!(r[0].description, "B Online");
}

fn achievement(id: &str, rewards: Vec<AchievementReward>, media: Vec<AchievementMediaAsset>) -> AchievementEntry {
    AchievementEntry {
        id: id.to_string(),
        name: "First Steps".to_string(),
        progress_state: "Achieved".to_string(),
        progression: Progression {
            requirements: vec![ProgressionRequirement {
                id: "r".to_string(),
                current: Some("1".to_string()),
                target: "1".to_string(),
            }],
        },
        media_assets: media,
        description: "Start the game.".to_string(),
        rewards,
    }
}

fn reward(type_: &str, value: &str) -> AchievementReward {
    AchievementReward {
        value: value.to_string(),
        type_: type_.to_string(),
        value_type: "Int".to_string(),
        media_asset: None,
        name: None,
        description: None,
    }
}

#[test]
fn achievements_are_described() {
    let media = vec![
        AchievementMediaAsset { url: "http://icon/1".to_string(), type_: "Icon".to_string() },
        AchievementMediaAsset { url: "http://icon/2".to_string(), type_: "Icon".to_string() },
    ];
    let e = achievement("7", vec![reward("Art", "x"), reward("Gamerscore", "15"), reward("Gamerscore", "99")], media);
    let p = profile_of_achievement(&e);
    assert_eq!(p.id, "7");
    assert_eq!(p.description, "First Steps\nStatus Achieved\nReward 15G\nStart the game.");
    assert_eq!(p.picture, Some("http://icon/1".to_string()));
    assert_eq!(p.gamer_tag, "");
    assert_eq!(p.presense, "");
    let e = achievement("8", vec![], vec![]);
    let p = profile_of_achievement(&e);
    assert_eq!(p.description, "First Steps\nStatus Achieved\nReward G\nStart the game.");
    assert_eq!(p.picture, None);
    assert_eq!(gamerscore(&vec![reward("Gamerscore", "5")]), "5");
    assert_eq!(gamerscore(&vec![reward("Art", "5")]), "");
    let r = profiles_of_achievements(&vec![achievement("1", vec![], vec![]), achievement("2", vec![], vec![])]);
    assert_eq!(r.len(), 2);
}

#[test]
fn collecting_keeps_first_place_and_last_value() {
    let mk = |id: &str, tag: &str| ProfileUser {
        id: id.to_string(),
        settings: Vec::new(),
        selected: false,
        presense: String::new(),
        picture: None,
        gamer_tag: tag.to_string(),
        description: String::new(),
    };
    let r = collect_by_id(vec![mk("a", "1"), mk("b", "2"), mk("a", "3")]);
    assert_eq!(r.len(), 2);
    assert_eq!(r[0].id, "a");
    assert_eq!(r[0].gamer_tag, "3");
    assert_eq!(r[1].id, "b");
}

#[test]
fn profile_rows_show_tag_presence_and_picture() {
    let entries = vec![UserProfileEntry {
        id: "1".to_string(),
        settings: vec![setting("Gamertag", "Alpha"), setting("GameDisplayPicRaw", "http://pic?x=1")],
    }];
    let mut r = parse_user_profile_response(&entries);
    r[0].presense = "Online".to_string();
    assert_eq!(profile_label(&r[0]), "Alpha Online");
    assert_eq!(picture_uri(&r[0]), Some("http://pic?x=1&w=128&h=128".to_string()));
    toggle_selected(&mut r[0]);
    assert!(r[0].selected);
    toggle_selected(&mut r[0]);
    assert!(!r[0].selected);
    let empty = parse_user_profile_response(&vec![UserProfileEntry { id: "2".to_string(), settings: vec![] }]);
    assert_eq!(profile_label(&empty[0]), "Unknown ");
    assert_eq!(picture_uri(&empty[0]), None);
}
