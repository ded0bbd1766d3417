use vstd::prelude::*;

verus! {

/// Used for communicating about characters in the networking layer. This handle is essentially
/// the same as a field instance handle but has its map id and selector swapped.
pub struct P2PEntityHandle {
    pub map_id: i32,
    pub chr_selector: i32,
}

pub struct AtkParamLookupResult {
    pub behavior_param_id: u32,
    pub unk_param_def_meta: u32,
    pub is_player_atk_param: bool,
    pub _pad9: [u8; 7],
    pub param_row: usize,
}

/// Virtual interface of character instances.
pub trait ChrInsVmt {
    /// Initializes a batch of combat-related modules for a character as well as the initial
    /// special effect state.
    fn initialize_character(&mut self);

    fn initialize_model_resources(&mut self);

    fn initialize_character_rendering(&mut self);
}

/// How often a character is updated.
#[derive(Clone, Copy, PartialEq, Eq, Hash, Structural)]
pub enum OmissionMode {
    NoUpdate,
    Normal,
    OneFps,
    FiveFps,
    TwentyFps,
    ThirtyFps,
}

impl OmissionMode {
    /// The number the game stores this mode as.
    pub fn value(&self) -> (r: i32)
        ensures
            r == (match *self {
                OmissionMode::NoUpdate => -2i32,
                OmissionMode::Normal => 0i32,
                OmissionMode::OneFps => 1i32,
                OmissionMode::FiveFps => 5i32,
                OmissionMode::TwentyFps => 20i32,
                OmissionMode::ThirtyFps => 30i32,
            }),
    {
        match self {
            OmissionMode::NoUpdate => -2,
            OmissionMode::Normal => 0,
            OmissionMode::OneFps => 1,
            OmissionMode::FiveFps => 5,
            OmissionMode::TwentyFps => 20,
            OmissionMode::ThirtyFps => 30,
        }
    }
}

/// How deep a character stands in water, stored as 0, 1 and 2.
#[derive(Debug, Clone, Copy, PartialEq, Eq, Hash, Structural)]
pub enum SpEffectWetConditionDepth {
    Default,
    LowerBody,
    FullBody,
}

/// Where a weapon model moves to.
#[derive(Debug, Clone, Copy, PartialEq, Eq, Hash, Structural)]
pub enum WeaponModelChangeType {
    MoveToDefaultLocation,
    MoveTo1HRightWeaponLocation,
    MoveTo1HLeftWeaponLocation,
    MoveTo2HRightWeaponLocation,
    MoveToSheathedLocation,
    MaintainPreviousChange,
    WeaponIdHardcoded,
    Unknown6,
}

impl WeaponModelChangeType {
    /// The number the game stores this change as: -1 for the default location, then 0 to 6.
    pub fn value(&self) -> (r: i8)
        ensures
            r == (match *self {
                WeaponModelChangeType::MoveToDefaultLocation => -1i8,
                WeaponModelChangeType::MoveTo1HRightWeaponLocation => 0i8,
                WeaponModelChangeType::MoveTo1HLeftWeaponLocation => 1i8,
                WeaponModelChangeType::MoveTo2HRightWeaponLocation => 2i8,
                WeaponModelChangeType::MoveToSheathedLocation => 3i8,
                WeaponModelChangeType::MaintainPreviousChange => 4i8,
                WeaponModelChangeType::WeaponIdHardcoded => 5i8,
                WeaponModelChangeType::Unknown6 => 6i8,
            }),
    {
        match self {
            WeaponModelChangeType::MoveToDefaultLocation => -1,
            WeaponModelChangeType::MoveTo1HRightWeaponLocation => 0,
            WeaponModelChangeType::MoveTo1HLeftWeaponLocation => 1,
            WeaponModelChangeType::MoveTo2HRightWeaponLocation => 2,
            WeaponModelChangeType::MoveToSheathedLocation => 3,
            WeaponModelChangeType::MaintainPreviousChange => 4,
            WeaponModelChangeType::WeaponIdHardcoded => 5,
            WeaponModelChangeType::Unknown6 => 6,
        }
    }
}

/// State of a throw, stored as 1 to 8 in declaration order.
#[derive(Debug, Clone, Copy, PartialEq, Eq, Structural)]
pub enum ThrowNodeState {
    Unk1,
    Unk2,
    InThrowAttacker,
    InThrowTarget,
    DeathAttacker,
    DeathTarget,
    Unk7,
    Unk8,
}

/// Limit on a character's movement, stored as 0 to 3 in declaration order.
#[derive(Debug, Clone, Copy, PartialEq, Eq, Structural)]
pub enum ChrMovementLimit {
    NoLimit,
    /// Limits movement speed to fast walk.
    LimitToDash,
    /// Limits movement speed to walk.
    LimitToWalking,
    /// Disables all movement.
    DisableAll,
}

pub struct CSModelIns {
    pub vftable: usize,
    pub unk8: usize,
    pub model_item: usize,
    pub model_disp_entity: usize,
    pub location_entity: usize,
}

pub struct CSChrModelIns {
    pub model_ins: CSModelIns,
}

pub struct PlayerSessionHolder {
    pub vftable: usize,
    pub player_debug_session: usize,
    pub unk10: usize,
    /// Address of the player's network session.
    pub player_network_session: usize,
    pub unk18: usize,
}

/// Role of character in PvP/PvE.
#[derive(Clone, Copy, Debug, PartialEq, Eq, Hash, Structural)]
pub enum ChrType {
    NoType,
    Local,
    WhitePhantom,
    BlackPhantom,
    Ghost0,
    Ghost1,
    Npc,
    GrayPhantom,
    Arena,
    Quickmatch,
    Invader,
    Invader2,
    BluePhantom,
    Invader3,
}

impl ChrType {
    /// The number the game stores this role as.
    pub fn value(&self) -> (r: i32)
        ensures
            r == (match *self {
                ChrType::NoType => -1i32,
                ChrType::Local => 0i32,
                ChrType::WhitePhantom => 1i32,
                ChrType::BlackPhantom => 2i32,
                ChrType::Ghost0 => 3i32,
                ChrType::Ghost1 => 4i32,
                ChrType::Npc => 5i32,
                ChrType::GrayPhantom => 8i32,
                ChrType::Arena => 13i32,
                ChrType::Quickmatch => 14i32,
                ChrType::Invader => 15i32,
                ChrType::Invader2 => 16i32,
                ChrType::BluePhantom => 17i32,
                ChrType::Invader3 => 18i32,
            }),
    {
        match self {
            ChrType::NoType => -1,
            ChrType::Local => 0,
            ChrType::WhitePhantom => 1,
            ChrType::BlackPhantom => 2,
            ChrType::Ghost0 => 3,
            ChrType::Ghost1 => 4,
            ChrType::Npc => 5,
            ChrType::GrayPhantom => 8,
            ChrType::Arena => 13,
            ChrType::Quickmatch => 14,
            ChrType::Invader => 15,
            ChrType::Invader2 => 16,
            ChrType::BluePhantom => 17,
            ChrType::Invader3 => 18,
        }
    }
}

} // verus!
