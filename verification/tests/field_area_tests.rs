use eldenring::bullet_manager::MapId;
use eldenring::field_area::{
    WorldAreaInfo, WorldAreaInfoBase, WorldBlockInfo, WorldGridAreaInfo, WorldInfo,
};
use eldenring::layouts::WorldBlockInfoCeremony;
use eldenring::stl::Tree;

fn base(map: i32) -> WorldAreaInfoBase {
    WorldAreaInfoBase {
        vtable: 0,
        map_id: MapId(map),
        area_id: 0,
        world_info_owner: 0,
        overlay_msb_res_cap: None,
        unk20: 0,
        unk28: 0,
        unk30: 0,
    }
}

fn block(map: i32) -> WorldBlockInfo {
    WorldBlockInfo {
        vtable: 0,
        map_id: MapId(map),
        unkc: 0,
        world_info_owner: 0,
        area_info: 0,
        world_area_info: None,
        world_grid_area_info: None,
        unk30: 0,
        map_id_2: MapId(map),
        world_area_info_index: -1,
        unk3c: 0,
        unk40: false,
        ceremony: WorldBlockInfoCeremony { param_id: 0, _pad4: 0, param_row: 0 },
    }
}

fn empty_tree<T>() -> Tree<T> {
    Tree { allocator: 0, nodes: vec![], head: 0, size: 0 }
}

fn world(areas: u32, grids: u32, blocks: u32) -> WorldInfo {
    WorldInfo {
        vtable: 0,
        world_area_info_count: areas,
        world_area_info_list_ptr: 0,
        world_grid_area_info_count: grids,
        world_grid_area_info_list_ptr: 0,
        world_area_info_all_count: areas + grids,
        world_area_info_all: [None; 34],
        world_block_info_count: blocks,
        world_block_info_list_ptr: 0,
        unk150: 0,
        unk158: 0,
        world_area_infos: std::array::from_fn(|i| WorldAreaInfo {
            base: base(i as i32),
            list_index: i as u32,
            block_list_start_index: 0,
            block_count: 0,
            blocks: 0,
        }),
        world_block_infos: std::array::from_fn(|i| block(1000 + i as i32)),
        world_grid_area_infos: std::array::from_fn(|i| WorldGridAreaInfo {
            base: base(60 + i as i32),
            unk38: [0; 3],
            unk44: 0,
            unk48: 0,
            unk4c: 0,
            unk50: [0; 3],
            skybox_map_id: MapId(0),
            skybox_block_info: 0,
            blocks: empty_tree(),
            unka0: empty_tree(),
            unkb8: 0,
            unkc0: empty_tree(),
            unkd8: 0,
        }),
    }
}

#[test]
fn world_info_slices_hold_the_entries_in_use() {
    let w = world(3, 2, 5);
    let areas = w.world_area_info();
    assert_eq!(areas.len(), 3);
    assert_eq!(areas[2].list_index, 2);
    let grids = w.world_grid_area_info();
    assert_eq!(grids.len(), 2);
    assert_eq!(grids[1].base.map_id, MapId(61));
    let blocks = w.world_block_info();
    assert_eq!(blocks.len(), 5);
    assert_eq!(blocks[4].map_id, MapId(1004));
    let none = world(0, 0, 0);
    assert!(none.world_area_info().is_empty());
    assert!(none.world_grid_area_info().is_empty());
    assert!(none.world_block_info().is_empty());
}
