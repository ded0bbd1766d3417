use vstd::prelude::*;
use crate::event_flag::CSFD4VirtualMemoryFlag;
use crate::stl::Tree;
use crate::gaitem::CSGaitemImp;
use crate::param_repository::FD4ParamRepository;

verus! {

/// Reflection names of the game's singletons.
pub trait DLRFSingleton {
    const DLRF_NAME: &'static str;
}

/// Manages the event flags for the game.
pub struct CSEventFlagMan {
    pub virtual_memory_flag: CSFD4VirtualMemoryFlag,
    pub world_type: u32,
    pub unk7c: [u8; 0x1f4],
}

impl DLRFSingleton for CSEventFlagMan {
    const DLRF_NAME: &'static str = "CSEventFlagMan";
}

pub struct CSEventSosSignCtrl {
    pub vftable: usize,
    pub unk8: [u8; 0x40],
    pub sos_sign: usize,
    pub unk50: u32,
    pub unk54: u32,
}

pub struct CSEventManImp {
    pub vftable: usize,
    pub simple_info: usize,
    pub dead_reset: usize,
    pub obj_sfx: usize,
    pub parts_damage: usize,
    pub drop_item: usize,
    pub sound: usize,
    pub damage: usize,
    pub dam_obj_hit: usize,
    pub unk48: usize,
    pub unk50: usize,
    pub unk58: usize,
    pub sos_sign: Box<CSEventSosSignCtrl>,
    pub unk68: usize,
    pub obj_act_exec: usize,
    pub unk78: usize,
    pub bloodstain: usize,
    pub script: usize,
    pub corpse: usize,
    pub unk98: usize,
    pub generator: usize,
    pub unka8: usize,
    pub system_flag: usize,
    pub turn: usize,
    pub world_area_time: usize,
    pub fade_warp: usize,
    pub unkd0: usize,
    pub unkd8: usize,
    pub retry_points: usize,
    pub network_error_return_title_step: usize,
    pub cutscene_warp: usize,
}

impl DLRFSingleton for CSEventManImp {
    const DLRF_NAME: &'static str = "CSEventMan";
}

pub struct MenuJobResult {}

pub struct CSEzDraw {
    pub vftable: usize,
}

pub struct RendMan {
    pub vftable: usize,
    pub allocator: usize,
    pub stage_rend: usize,
    pub gx_sg_layer_flat: usize,
    pub unk20: usize,
    pub debug_ez_draw: Box<CSEzDraw>,
}

impl DLRFSingleton for RendMan {
    const DLRF_NAME: &'static str = "RendMan";
}

pub struct WorldAreaSfxBase {
    pub vftable: usize,
    pub world_area_info: usize,
    pub unk10: u64,
}

pub struct WorldAreaSfx {
    pub base: WorldAreaSfxBase,
    pub world_area_info: usize,
    pub world_block_sfx_count: u32,
    pub _pad24: u32,
    /// Address of the area's first block effect.
    pub world_block_sfx: usize,
}

pub struct WorldGridAreaSfx {
    pub base: WorldAreaSfxBase,
    pub world_area_info: usize,
    pub unk20: Tree<()>,
    pub unk38: usize,
}

pub struct WorldBlockSfx {
    pub vftable: usize,
    pub world_block_info: usize,
    /// Address of the block's area effect.
    pub world_area_sfx: usize,
    /// The block's map id, as stored.
    pub map_id: i32,
    pub unk1c: [u8; 0x40],
    pub total_sfx_count: u32,
    pub unk60: usize,
    pub unk68: u32,
    pub unk6c: u32,
    pub unk70: usize,
}

pub struct WorldBlockInfoCeremony {
    pub param_id: u32,
    pub _pad4: u32,
    /// Address of the ceremony's param row.
    pub param_row: usize,
}

/// A cipher key and the number of its bytes in use.
pub struct DLSerialCipherKey {
    pub vftable: usize,
    pub key: Vec<u8>,
    pub key_length: usize,
}

impl DLSerialCipherKey {
    /// The bytes of the key.
    pub fn key(&self) -> (r: &[u8])
        requires
            self.key_length <= self.key@.len(),
        ensures
            r@ == self.key@.take(self.key_length as int),
    {
        vstd::slice::slice_subrange(self.key.as_slice(), 0, self.key_length)
    }
}

pub struct DLRijndaelAlgorithm {
    pub vftable: usize,
}

pub struct AESEncrypter {
    pub vftable: usize,
    pub algorithm: Box<DLRijndaelAlgorithm>,
    /// Set to 0x60, might be size of the IV or nonce?
    pub unk10: u64,
}

pub struct AESDecrypter {
    pub vftable: usize,
    pub algorithm: Box<DLRijndaelAlgorithm>,
}

/// Virtual interface of slot instances.
pub trait FD4SlotInsBaseVmt {
    fn destructor(&mut self, param_2: bool);

    fn unk8(&mut self) -> bool;

    fn unk10(&mut self);

    fn unk18(&mut self);

    fn unk20(&mut self) -> u32;
}

/// Virtual interface of slot systems.
pub trait FD4SlotSysBaseVmt {
    fn destructor(&mut self, param_2: bool);

    fn unk8(&mut self, param_2: usize) -> bool;

    fn unk10(&mut self);

    fn unk18(&mut self);

    fn unk20(&mut self) -> u32;
}

/// Virtual interface of character slots.
pub trait ChrSlotBaseVmt: FD4SlotInsBaseVmt {
    fn unk28(&mut self) -> bool;

    fn unk30(&mut self) -> bool;
}

/// Virtual interface of effect appearances.
pub trait FXAppearanceVmt {
    fn destructor(&mut self);

    fn unk2(&self);

    fn unk3(&self);

    fn unk4(&self);

    fn unk5(&self);

    fn unk6(&self);

    fn unk7(&self);

    fn unk8(&self);

    fn unk9(&self);

    fn unk10(&self);

    fn unk11(&self);

    fn unk12(&self);
}

/// Virtual interface of file device images.
pub trait DLFileDeviceImageSPIVmt {
    fn destructor(&mut self);
}

/// Kind of drive a file device reads from, stored as 0 to 2 in declaration order.
pub enum DLFileDeviceDriveType {
    Unknown,
    CdRom,
    Default,
}

/// Why spawning geometry failed.
#[derive(Debug, PartialEq, Eq, Structural)]
pub enum SpawnGeometryError {
    /// No map data found.
    BlockDataUnavailable,
}

impl DLRFSingleton for CSGaitemImp {
    const DLRF_NAME: &'static str = "CSGaitem";
}

impl DLRFSingleton for FD4ParamRepository {
    const DLRF_NAME: &'static str = "FD4ParamRepository";
}

} // verus!
