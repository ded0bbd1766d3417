use vstd::prelude::*;
use crate::bullet_manager::MapId;
use crate::layouts::{DLRFSingleton, WorldBlockInfoCeremony};
use crate::stl::Tree;

verus! {

/// The field: the owner of the world's area and block infos.
pub struct FieldArea {
    pub vtable: usize,
    pub unk8: usize,
    pub world_info_owner: Box<WorldInfoOwner>,
    /// Address of the same owner, as stored a second time.
    pub world_info_owner_2: usize,
}

impl DLRFSingleton for FieldArea {
    const DLRF_NAME: &'static str = "FieldArea";
}

pub struct WorldInfoOwner {
    pub world_res: WorldRes,
}

pub struct WorldRes {
    pub world_info: WorldInfo,
}

/// The infos of the world's areas and blocks, in fixed storage of which the first `count`
/// entries are in use. Addresses of the game's memory are kept as plain numbers.
pub struct WorldInfo {
    pub vtable: usize,
    /// Count of legacy + ordinary dungeons area infos.
    pub world_area_info_count: u32,
    /// Address of the start of the world area infos for legacy + ordinary dungeons.
    pub world_area_info_list_ptr: usize,
    /// Count of overworld area infos.
    pub world_grid_area_info_count: u32,
    /// Address of the start of the world area infos for overworld areas.
    pub world_grid_area_info_list_ptr: usize,
    /// Count of combined dungeon + overworld area infos.
    pub world_area_info_all_count: u32,
    /// Addresses of all overworld and dungeon world area infos.
    pub world_area_info_all: [Option<usize>; 34],
    /// Count of block infos.
    pub world_block_info_count: u32,
    /// Address of the start of the world block infos.
    pub world_block_info_list_ptr: usize,
    pub unk150: u64,
    pub unk158: u64,
    pub world_area_infos: [WorldAreaInfo; 28],
    pub world_block_infos: [WorldBlockInfo; 192],
    pub world_grid_area_infos: [WorldGridAreaInfo; 6],
}

impl WorldInfo {
    /// The area infos in use.
    pub fn world_area_info(&self) -> (r: &[WorldAreaInfo])
        requires
            self.world_area_info_count <= 28,
        ensures
            r@ == self.world_area_infos@.take(self.world_area_info_count as int),
    {
        vstd::slice::slice_subrange(
            self.world_area_infos.as_slice(),
            0,
            self.world_area_info_count as usize,
        )
    }

    /// The overworld area infos in use.
    pub fn world_grid_area_info(&self) -> (r: &[WorldGridAreaInfo])
        requires
            self.world_grid_area_info_count <= 6,
        ensures
            r@ == self.world_grid_area_infos@.take(self.world_grid_area_info_count as int),
    {
        vstd::slice::slice_subrange(
            self.world_grid_area_infos.as_slice(),
            0,
            self.world_grid_area_info_count as usize,
        )
    }

    /// The block infos in use.
    pub fn world_block_info(&self) -> (r: &[WorldBlockInfo])
        requires
            self.world_block_info_count <= 192,
        ensures
            r@ == self.world_block_infos@.take(self.world_block_info_count as int),
    {
        vstd::slice::slice_subrange(
            self.world_block_infos.as_slice(),
            0,
            self.world_block_info_count as usize,
        )
    }
}

pub struct WorldAreaInfoBase {
    pub vtable: usize,
    pub map_id: MapId,
    pub area_id: u32,
    /// Address of the owner of the world's infos.
    pub world_info_owner: usize,
    /// Address of the _99 MSB resource of this area, if any.
    pub overlay_msb_res_cap: Option<usize>,
    pub unk20: u64,
    pub unk28: u64,
    pub unk30: u8,
}

pub struct WorldAreaInfo {
    pub base: WorldAreaInfoBase,
    /// List index in the WorldInfoOwner
    pub list_index: u32,
    /// Starting offset of the areas blocks in the block list in WorldInfoOwner
    pub block_list_start_index: u32,
    /// Amount of blocks associated with this area in the blocks list.
    pub block_count: u32,
    /// Address of the start of the area's blocks in the WorldInfoOwner block list.
    pub blocks: usize,
}

/// An overworld area info. The two blocks of unknown floating-point values the game keeps
/// here are not held.
pub struct WorldGridAreaInfo {
    pub base: WorldAreaInfoBase,
    pub unk38: [u32; 3],
    pub unk44: u32,
    pub unk48: u32,
    pub unk4c: u32,
    pub unk50: [u32; 3],
    pub skybox_map_id: MapId,
    /// Address of the skybox's block info.
    pub skybox_block_info: usize,
    pub blocks: Tree<WorldGridAreaInfoBlockElement>,
    pub unka0: Tree<()>,
    pub unkb8: u64,
    pub unkc0: Tree<()>,
    pub unkd8: u64,
}

pub struct WorldGridAreaInfoBlockElement {
    pub map_id: MapId,
    pub block: Box<WorldBlockInfo>,
}

/// A block info. The block's center in physics space, a floating-point position, is not
/// held.
pub struct WorldBlockInfo {
    pub vtable: usize,
    pub map_id: MapId,
    pub unkc: u32,
    /// Address of the owner of the world's infos.
    pub world_info_owner: usize,
    /// Address of the effective world area info: either area or grid area.
    pub area_info: usize,
    /// Address of the world area info. Seemingly only used if block is not part of the
    /// overworld.
    pub world_area_info: Option<usize>,
    /// Address of the grid area info. Seemingly only used if block is part of the overworld.
    pub world_grid_area_info: Option<usize>,
    pub unk30: u32,
    pub map_id_2: MapId,
    /// Index in WorldAreaInfo's block list. Will be -1 if this is an overworld block.
    pub world_area_info_index: i32,
    pub unk3c: u32,
    pub unk40: bool,
    pub ceremony: WorldBlockInfoCeremony,
}

} // verus!
