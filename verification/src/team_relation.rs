use vstd::prelude::*;

verus! {

/// The relations between an attacker and a target that team validation reads.
#[derive(Clone, Copy)]
pub struct TeamRelationTargetInfo {
    pub self_target: bool,
    pub friendly_target: bool,
    pub oppose_target: bool,
}

/// Team validation that only lets an effect reach its own character.
pub struct CSTeamTypeNeutral {
    pub vftable: usize,
}

/// Team validation that lets an effect reach friends.
pub struct CSTeamTypeFriend {
    pub vftable: usize,
}

/// Team validation that lets an effect reach opponents.
pub struct CSTeamTypeEnemy {
    pub vftable: usize,
}

/// Team validation that lets an effect reach friends and opponents alike.
pub struct CSTeamTypeRival {
    pub vftable: usize,
}

impl CSTeamTypeNeutral {
    pub fn validate(&self, team_relation: &TeamRelationTargetInfo, self_target: bool) -> (r: bool)
        ensures
            r == (self_target && team_relation.self_target),
    {
        if self_target {
            return team_relation.self_target;
        }
        false
    }
}

impl CSTeamTypeFriend {
    pub fn validate(&self, team_relation: &TeamRelationTargetInfo, self_target: bool) -> (r: bool)
        ensures
            r == if self_target {
                team_relation.self_target
            } else {
                team_relation.friendly_target
            },
    {
        if self_target {
            return team_relation.self_target;
        }
        team_relation.friendly_target
    }
}

impl CSTeamTypeEnemy {
    pub fn validate(&self, team_relation: &TeamRelationTargetInfo, self_target: bool) -> (r: bool)
        ensures
            r == if self_target {
                team_relation.self_target
            } else {
                team_relation.oppose_target
            },
    {
        if self_target {
            return team_relation.self_target;
        }
        team_relation.oppose_target
    }
}

impl CSTeamTypeRival {
    pub fn validate(&self, team_relation: &TeamRelationTargetInfo, self_target: bool) -> (r: bool)
        ensures
            r == if self_target {
                team_relation.self_target
            } else {
                team_relation.oppose_target || team_relation.friendly_target
            },
    {
        if self_target {
            return team_relation.self_target;
        }
        if !team_relation.oppose_target && !team_relation.friendly_target {
            return false;
        }
        true
    }
}

/// For targets other than oneself, the rival validation accepts exactly what the friend or
/// the enemy validation accepts; for oneself all four agree.
pub proof fn lemma_rival_is_friend_or_enemy(info: TeamRelationTargetInfo, self_target: bool)
    ensures
        (if self_target {
            info.self_target
        } else {
            info.oppose_target || info.friendly_target
        }) == ((if self_target {
            info.self_target
        } else {
            info.friendly_target
        }) || (if self_target {
            info.self_target
        } else {
            info.oppose_target
        })),
{
}

} // verus!
