use eldenring::team_relation::{
    CSTeamTypeEnemy, CSTeamTypeFriend, CSTeamTypeNeutral, CSTeamTypeRival, TeamRelationTargetInfo,
};

fn info(self_target: bool, friendly_target: bool, oppose_target: bool) -> TeamRelationTargetInfo {
    TeamRelationTargetInfo { self_target, friendly_target, oppose_target }
}

#[test]
fn self_targets_use_the_self_flag() {
    for flags in [info(true, false, false), info(false, true, true)] {
        assert_eq!(CSTeamTypeNeutral { vftable: 0 }.validate(&flags, true), flags.self_target);
        assert_eq!(CSTeamTypeFriend { vftable: 0 }.validate(&flags, true), flags.self_target);
        assert_eq!(CSTeamTypeEnemy { vftable: 0 }.validate(&flags, true), flags.self_target);
        assert_eq!(CSTeamTypeRival { vftable: 0 }.validate(&flags, true), flags.self_target);
    }
}

#[test]
fn other_targets() {
    let friend = info(true, true, false);
    let foe = info(true, false, true);
    let neither = info(true, false, false);
    assert!(!CSTeamTypeNeutral { vftable: 0 }.validate(&friend, false));
    assert!(CSTeamTypeFriend { vftable: 0 }.validate(&friend, false));
    assert!(!CSTeamTypeFriend { vftable: 0 }.validate(&foe, false));
    assert!(CSTeamTypeEnemy { vftable: 0 }.validate(&foe, false));
    assert!(!CSTeamTypeEnemy { vftable: 0 }.validate(&friend, false));
    assert!(CSTeamTypeRival { vftable: 0 }.validate(&friend, false));
    assert!(CSTeamTypeRival { vftable: 0 }.validate(&foe, false));
    assert!(!CSTeamTypeRival { vftable: 0 }.validate(&neither, false));
}
