use vstd::prelude::*;
use vstd::string::StringExecFns;
use crate::text::{decimal_string, hex_string, u64_to_decimal, u32_to_lower_hex};

verus! {

/// The category of an item, stored in bits 28 to 30 of its handle.
#[derive(Clone, Copy, Debug, PartialEq, Eq, Hash, Structural)]
pub enum GaitemCategory {
    Weapon,
    Protector,
    Accessory,
    Goods,
    Gem,
}

/// The number a category is stored as.
pub open spec fn category_code(c: GaitemCategory) -> u8 {
    match c {
        GaitemCategory::Weapon => 0,
        GaitemCategory::Protector => 1,
        GaitemCategory::Accessory => 2,
        GaitemCategory::Goods => 3,
        GaitemCategory::Gem => 4,
    }
}

/// The category stored as a number, if the number is one.
pub open spec fn category_of_code(v: u8) -> Result<GaitemCategory, GaitemHandleError> {
    if v == 0 {
        Ok(GaitemCategory::Weapon)
    } else if v == 1 {
        Ok(GaitemCategory::Protector)
    } else if v == 2 {
        Ok(GaitemCategory::Accessory)
    } else if v == 3 {
        Ok(GaitemCategory::Goods)
    } else if v == 4 {
        Ok(GaitemCategory::Gem)
    } else {
        Err(GaitemHandleError::InvalidCategory(v))
    }
}

#[derive(Debug, PartialEq, Eq, Structural)]
pub enum GaitemHandleError {
    InvalidCategory(u8),
}

impl GaitemCategory {
    /// The number this category is stored as.
    pub fn code(&self) -> (r: u8)
        ensures
            r == category_code(*self),
    {
        match self {
            GaitemCategory::Weapon => 0,
            GaitemCategory::Protector => 1,
            GaitemCategory::Accessory => 2,
            GaitemCategory::Goods => 3,
            GaitemCategory::Gem => 4,
        }
    }

    pub fn from_u8(val: &u8) -> (r: Result<Self, GaitemHandleError>)
        ensures
            r == category_of_code(*val),
    {
        Ok(
            match val {
                0 => GaitemCategory::Weapon,
                1 => GaitemCategory::Protector,
                2 => GaitemCategory::Accessory,
                3 => GaitemCategory::Goods,
                4 => GaitemCategory::Gem,
                _ => {
                    return Err(GaitemHandleError::InvalidCategory(*val));
                },
            },
        )
    }
}

/// The number each category is stored as is its place in the list of categories: Weapon 0,
/// Protector 1, Accessory 2, Goods 3, Gem 4; numbers 0 to 4 read back as those categories and
/// every other number is refused with itself as the invalid category.
pub proof fn lemma_category_numbers(v: u8)
    ensures
        category_code(GaitemCategory::Weapon) == 0,
        category_code(GaitemCategory::Protector) == 1,
        category_code(GaitemCategory::Accessory) == 2,
        category_code(GaitemCategory::Goods) == 3,
        category_code(GaitemCategory::Gem) == 4,
        v == 0 ==> category_of_code(v) == Ok::<GaitemCategory, GaitemHandleError>(GaitemCategory::Weapon),
        v == 1 ==> category_of_code(v) == Ok::<GaitemCategory, GaitemHandleError>(GaitemCategory::Protector),
        v == 2 ==> category_of_code(v) == Ok::<GaitemCategory, GaitemHandleError>(GaitemCategory::Accessory),
        v == 3 ==> category_of_code(v) == Ok::<GaitemCategory, GaitemHandleError>(GaitemCategory::Goods),
        v == 4 ==> category_of_code(v) == Ok::<GaitemCategory, GaitemHandleError>(GaitemCategory::Gem),
        v > 4 ==> category_of_code(v) == Err::<GaitemCategory, GaitemHandleError>(GaitemHandleError::InvalidCategory(v)),
{
}

/// A handle built from a selector and a category holds the category's place in the list of
/// categories in bits 28 to 30, and reads back as that category.
pub proof fn lemma_handle_category_bits(selector: u32, category: GaitemCategory)
    ensures
        ((handle_from_parts(selector, category) >> 28u32) & 7) as int == match category {
            GaitemCategory::Weapon => 0int,
            GaitemCategory::Protector => 1int,
            GaitemCategory::Accessory => 2int,
            GaitemCategory::Goods => 3int,
            GaitemCategory::Gem => 4int,
        },
{
    lemma_from_parts_round_trip(selector, category);
    let c = category_code(category) as u32;
    assert(c <= 4);
    assert(((selector & 0x00FFFFFF) | 0x80000000u32 | (c << 28u32)) >> 28u32 & 7 == c) by (bit_vector)
        requires
            c <= 4,
    ;
}

/// Reading back the category of a category's number gives the category.
pub proof fn lemma_category_code_round_trip(c: GaitemCategory)
    ensures
        category_of_code(category_code(c)) == Ok::<GaitemCategory, GaitemHandleError>(c),
{
}

/// A handle to an item: a 24-bit selector, whose bit 23 marks handles indexed in
/// `CSGaitemImp` and whose low 16 bits are the index there, bit 31 set, and the category in
/// bits 28 to 30.
#[derive(Clone, Copy, Debug, PartialEq, Eq, Hash, Structural)]
pub struct GaitemHandle(pub u32);

pub open spec fn handle_selector(h: u32) -> u32 {
    h & 0x00ffffff
}

pub open spec fn handle_index(h: u32) -> u32 {
    h & 0xffff
}

pub open spec fn handle_is_indexed(h: u32) -> bool {
    (h >> 23u32) & 1 == 1
}

pub open spec fn handle_category_code(h: u32) -> u8 {
    ((h >> 28u32) & 7) as u8
}

/// The handle that `from_parts` builds.
pub open spec fn handle_from_parts(selector: u32, category: GaitemCategory) -> u32 {
    (selector & 0x00FFFFFF) | 0x80000000u32 | ((category_code(category) as u32) << 28u32)
}

impl GaitemHandle {
    pub fn from_parts(selector: u32, category: GaitemCategory) -> (r: Self)
        ensures
            r.0 == handle_from_parts(selector, category),
    {
        let code: u8 = category.code();
        let tag: u32 = ((code as i32) | -8i32) as u32;
        proof {
            let c = code as u32;
            assert(tag == (c | 0xFFFF_FFF8u32)) by (bit_vector)
                requires
                    tag == ((code as i32) | -8i32) as u32,
                    c == code as u32,
                    code <= 4,
            ;
            assert((selector & 0x00FFFFFF) | (tag << 28u32) == (selector & 0x00FFFFFF)
                | 0x80000000u32 | (c << 28u32)) by (bit_vector)
                requires
                    c <= 4,
                    tag == (c | 0xFFFF_FFF8u32),
            ;
        }
        GaitemHandle(selector & 0x00FFFFFF | tag << 28u32)
    }

    /// Indicates if the gaitem handle refers to a GaitemIns available in CSGaitemImp.
    /// Will be true for Protectors, Weapons and Gems.
    pub fn is_indexed(self) -> (r: bool)
        ensures
            r == handle_is_indexed(self.0),
    {
        self.0 >> 23u32 & 1 == 1
    }

    pub fn selector(self) -> (r: u32)
        ensures
            r == handle_selector(self.0),
    {
        self.0 & 0x00ffffff
    }

    /// Index of the GaitemIns inside of the CSGaitemImp
    pub fn index(self) -> (r: u32)
        ensures
            r == handle_index(self.0),
    {
        self.0 & 0xffff
    }

    pub fn category(self) -> (r: Result<GaitemCategory, GaitemHandleError>)
        ensures
            r == category_of_code(handle_category_code(self.0)),
    {
        let h = self.0;
        proof {
            assert((h >> 28u32) & 7 <= 7) by (bit_vector);
        }
        GaitemCategory::from_u8(&((self.0 >> 28u32 & 7) as u8))
    }
}

/// A handle built from a selector and a category gives back the selector's low 24 bits and
/// the category, is indexed exactly when bit 23 of the selector is set, and has the
/// selector's low 16 bits as its index.
pub proof fn lemma_from_parts_round_trip(selector: u32, category: GaitemCategory)
    ensures
        handle_selector(handle_from_parts(selector, category)) == selector & 0x00FFFFFF,
        category_of_code(handle_category_code(handle_from_parts(selector, category))) == Ok::<
            GaitemCategory,
            GaitemHandleError,
        >(category),
        handle_is_indexed(handle_from_parts(selector, category)) == ((selector >> 23u32) & 1 == 1),
        handle_index(handle_from_parts(selector, category)) == selector & 0xffff,
{
    let c = category_code(category) as u32;
    let h = handle_from_parts(selector, category);
    assert(c <= 4);
    assert({
        let h = (selector & 0x00FFFFFF) | 0x80000000u32 | (c << 28u32);
        &&& h & 0x00ffffff == selector & 0x00FFFFFF
        &&& (h >> 28u32) & 7 == c
        &&& ((h >> 23u32) & 1 == 1) == ((selector >> 23u32) & 1 == 1)
        &&& h & 0xffff == selector & 0xffff
    }) by (bit_vector)
        requires
            c <= 4,
    ;
    assert(handle_category_code(h) == category_code(category));
}

/// The `Debug` name of a category.
pub open spec fn category_name(c: GaitemCategory) -> Seq<char> {
    match c {
        GaitemCategory::Weapon => "Weapon"@,
        GaitemCategory::Protector => "Protector"@,
        GaitemCategory::Accessory => "Accessory"@,
        GaitemCategory::Goods => "Goods"@,
        GaitemCategory::Gem => "Gem"@,
    }
}

/// The text of a handle: index, hexadecimal selector and category for indexed handles;
/// -1, decimal selector and category for the others; the raw value in hexadecimal and the
/// error when the category is invalid.
pub open spec fn handle_text(h: u32) -> Seq<char> {
    match category_of_code(handle_category_code(h)) {
        Ok(c) => if handle_is_indexed(h) {
            "GaitemHandle("@ + decimal_string(handle_index(h) as nat) + ",0x"@ + hex_string(
                handle_selector(h) as nat,
            ) + ","@ + category_name(c) + ")"@
        } else {
            "GaitemHandle(-1,"@ + decimal_string(handle_selector(h) as nat) + ","@
                + category_name(c) + ")"@
        },
        Err(GaitemHandleError::InvalidCategory(v)) => "GaitemHandle(0x"@ + hex_string(h as nat)
            + ",InvalidCategory("@ + decimal_string(v as nat) + "))"@,
    }
}

fn push_category_name(s: &mut String, c: GaitemCategory)
    ensures
        final(s)@ == old(s)@ + category_name(c),
{
    match c {
        GaitemCategory::Weapon => s.append("Weapon"),
        GaitemCategory::Protector => s.append("Protector"),
        GaitemCategory::Accessory => s.append("Accessory"),
        GaitemCategory::Goods => s.append("Goods"),
        GaitemCategory::Gem => s.append("Gem"),
    }
}

impl GaitemHandle {
    /// The handle's text, as its `Display` form writes it.
    pub fn to_string(&self) -> (r: String)
        ensures
            r@ == handle_text(self.0),
    {
        let mut s = String::new();
        match self.category() {
            Ok(category) => match self.is_indexed() {
                true => {
                    s.append("GaitemHandle(");
                    s.append(u64_to_decimal(self.index() as u64).as_str());
                    s.append(",0x");
                    s.append(u32_to_lower_hex(self.selector()).as_str());
                    s.append(",");
                    push_category_name(&mut s, category);
                    s.append(")");
                },
                false => {
                    s.append("GaitemHandle(-1,");
                    s.append(u64_to_decimal(self.selector() as u64).as_str());
                    s.append(",");
                    push_category_name(&mut s, category);
                    s.append(")");
                },
            },
            Err(GaitemHandleError::InvalidCategory(v)) => {
                s.append("GaitemHandle(0x");
                s.append(u32_to_lower_hex(self.0).as_str());
                s.append(",InvalidCategory(");
                s.append(u64_to_decimal(v as u64).as_str());
                s.append("))");
            },
        }
        s
    }
}

/// An item owned by the game.
pub struct CSGaitemIns {
    pub vftable: usize,
    pub gaitem_handle: GaitemHandle,
    /// The item's id, as stored.
    pub item_id: u32,
}

/// A weapon instance: the item instance followed by the weapon's own fields.
pub struct CSWepGaitemIns {
    pub gaitem_ins: CSGaitemIns,
    /// Item durability mechanic. Unused in ER.
    pub durability: u32,
    /// Gem slots, used for ashes of war in ER.
    pub gem_slot_table: CSGemSlotTable,
}

pub struct CSGemSlotTable {
    pub vtable: usize,
    pub gem_slots: [CSGemSlot; 1],
}

pub struct CSGemSlot {
    pub vtable: usize,
    /// Refers to the actual gem entry in the CSGaitemImp.
    pub gaitem_handle: GaitemHandle,
}

/// A gem instance: the item instance and the weapon the gem is attached to.
pub struct CSGemGaitemIns {
    pub gaitem_ins: CSGaitemIns,
    /// Handle of the weapon this gem is attached to
    pub weapon_handle: GaitemHandle,
}

pub struct CSGaitemImpEntry {
    pub unindexed_gaitem_handle: u32,
    pub ref_count: u32,
}

/// The store of item instances, indexed by the low 16 bits of indexed handles.
pub struct CSGaitemImp {
    pub vftable: usize,
    pub gaitems: [Option<Box<CSGaitemIns>>; 5120],
    pub gaitem_descriptors: [CSGaitemImpEntry; 5120],
    pub indexes: [u32; 5120],
    pub write_index: u32,
    pub read_index: u32,
    pub rand_xorshift: [u8; 0x18],
    pub unk23028: [u8; 8],
    /// Becomes true if the CSGaitemImp is being serialized for saving to the save file.
    pub is_being_serialized: bool,
    pub unk23038: [u8; 7],
}

/// Whether a handle's lookup reads no slot past the end of the store: not indexed, or with an
/// index other than the store's length (an index equal to it passes the bound check and
/// reads past the end).
pub open spec fn lookup_in_bounds(handle: GaitemHandle) -> bool {
    !handle_is_indexed(handle.0) || handle_index(handle.0) != 5120
}

/// The instance a handle refers to: none for unindexed handles and indexes past the store,
/// else what the handle's slot holds.
pub open spec fn gaitem_for(imp: CSGaitemImp, handle: GaitemHandle) -> Option<CSGaitemIns> {
    if !handle_is_indexed(handle.0) || handle_index(handle.0) > 5120 {
        None
    } else {
        match imp.gaitems@[handle_index(handle.0) as int] {
            Some(b) => Some(*b),
            None => None,
        }
    }
}

/// Lookups of item instances by handle.
pub trait CSGaitemImpExt {
    fn gaitem_ins_by_handle(&self, handle: &GaitemHandle) -> Option<&CSGaitemIns>
        requires
            lookup_in_bounds(*handle),
    ;

    fn gaitem_ins_by_handle_mut(&mut self, handle: &GaitemHandle) -> Option<&mut CSGaitemIns>
        requires
            lookup_in_bounds(*handle),
    ;
}

impl CSGaitemImpExt for CSGaitemImp {
    /// The instance a handle refers to.
    fn gaitem_ins_by_handle(&self, handle: &GaitemHandle) -> (r: Option<&CSGaitemIns>)
        ensures
            match gaitem_for(*self, *handle) {
                Some(g) => r matches Some(x) && *x == g,
                None => r is None,
            },
    {
        // Can't do a lookup for a handle that is not supposed to be in here anyway.
        if !handle.is_indexed() {
            return None;
        }
        let index = handle.index() as usize;
        if index > self.gaitems.len() {
            return None;
        }
        match &self.gaitems[index] {
            Some(b) => Some(&**b),
            None => None,
        }
    }

    /// The instance a handle refers to, for changing it.
    fn gaitem_ins_by_handle_mut(&mut self, handle: &GaitemHandle) -> (r: Option<&mut CSGaitemIns>)
        ensures
            match gaitem_for(*old(self), *handle) {
                Some(g) => r matches Some(x) && *x == g && final(self).gaitems@ == old(
                    self,
                ).gaitems@.update(handle_index(handle.0) as int, Some(Box::new(*final(x)))),
                None => r is None && final(self).gaitems@ == old(self).gaitems@,
            },
            final(self).vftable == old(self).vftable,
            final(self).gaitem_descriptors@ == old(self).gaitem_descriptors@,
            final(self).indexes@ == old(self).indexes@,
            final(self).rand_xorshift@ == old(self).rand_xorshift@,
            final(self).unk23028@ == old(self).unk23028@,
            final(self).unk23038@ == old(self).unk23038@,
            final(self).write_index == old(self).write_index,
            final(self).read_index == old(self).read_index,
            final(self).is_being_serialized == old(self).is_being_serialized,
    {
        // Can't do a lookup for a handle that is not supposed to be in here anyway.
        if !handle.is_indexed() {
            return None;
        }
        let index = handle.index() as usize;
        if index > self.gaitems.len() {
            return None;
        }
        match &mut self.gaitems[index] {
            Some(b) => Some(&mut **b),
            None => None,
        }
    }
}

} // verus!
