use vstd::prelude::*;

verus! {

/// Interface of reference-counted objects in the game's runtime.
pub trait DLReferenceCountObjectVmt {
    /// Ran when the reference count hits zero.
    fn clean_up(&self);

    fn destructor(&mut self);
}

/// The packed layout of a date: every field's width and its offset from bit 0.
pub open spec fn year_bits(date: u64) -> u64 {
    date & 0xFFF
}

pub open spec fn millisecond_bits(date: u64) -> u64 {
    (date >> 12) & 0x3FF
}

pub open spec fn month_bits(date: u64) -> u64 {
    (date >> 22) & 0xF
}

pub open spec fn day_of_week_bits(date: u64) -> u64 {
    (date >> 26) & 0x7
}

pub open spec fn day_bits(date: u64) -> u64 {
    (date >> 29) & 0x1F
}

pub open spec fn hour_bits(date: u64) -> u64 {
    (date >> 34) & 0x1F
}

pub open spec fn minute_bits(date: u64) -> u64 {
    (date >> 39) & 0x3F
}

pub open spec fn second_bits(date: u64) -> u64 {
    (date >> 45) & 0x3F
}

pub open spec fn utc_bit(date: u64) -> bool {
    (date >> 51) & 0x1 != 0
}

/// The packed date that `DLDateTime::from_time64` stores: every field is filled from the
/// low bits of `time64`, masked to the field's width, below the UTC flag at bit 51.
pub open spec fn packed_date(time64: u64, is_utc: bool) -> u64 {
    (if is_utc { 1u64 << 51u64 } else { 0u64 })
        | ((time64 & 0x3F) << 45u64)
        | ((time64 & 0x3F) << 39u64)
        | ((time64 & 0x1F) << 34u64)
        | ((time64 & 0x1F) << 29u64)
        | ((time64 & 0x7) << 26u64)
        | ((time64 & 0xF) << 22u64)
        | ((time64 & 0x3FF) << 12u64)
        | (time64 & 0xFFF)
}

/// A file time together with its packed calendar representation.
pub struct DLDateTime {
    /// Set to FILETIME on creation.
    pub time64: u64,
    /// Packed datetime value.
    pub date: u64,
}

/// Each field of a packed date has a bit range of its own: year in bits 0-11, milliseconds
/// 12-21, month 22-25, day of week 26-28, day 29-33, hour 34-38, minute 39-44, second 45-50
/// and the UTC flag at 51. A date put together from field values that fit their widths reads
/// back each of them, whatever the others hold.
pub proof fn lemma_date_field_layout(
    year: u64,
    millisecond: u64,
    month: u64,
    day_of_week: u64,
    day: u64,
    hour: u64,
    minute: u64,
    second: u64,
    utc: bool,
)
    requires
        year < 4096,
        millisecond < 1024,
        month < 16,
        day_of_week < 8,
        day < 32,
        hour < 32,
        minute < 64,
        second < 64,
    ensures
        ({
            let date = year | (millisecond << 12u64) | (month << 22u64) | (day_of_week << 26u64)
                | (day << 29u64) | (hour << 34u64) | (minute << 39u64) | (second << 45u64) | ((
            if utc {
                1u64
            } else {
                0u64
            }) << 51u64);
            &&& year_bits(date) == year
            &&& millisecond_bits(date) == millisecond
            &&& month_bits(date) == month
            &&& day_of_week_bits(date) == day_of_week
            &&& day_bits(date) == day
            &&& hour_bits(date) == hour
            &&& minute_bits(date) == minute
            &&& second_bits(date) == second
            &&& utc_bit(date) == utc
        }),
{
    let u: u64 = if utc { 1 } else { 0 };
    assert({
        let date = year | (millisecond << 12u64) | (month << 22u64) | (day_of_week << 26u64) | (
        day << 29u64) | (hour << 34u64) | (minute << 39u64) | (second << 45u64) | (u << 51u64);
        &&& date & 0xFFF == year
        &&& (date >> 12u64) & 0x3FF == millisecond
        &&& (date >> 22u64) & 0xF == month
        &&& (date >> 26u64) & 0x7 == day_of_week
        &&& (date >> 29u64) & 0x1F == day
        &&& (date >> 34u64) & 0x1F == hour
        &&& (date >> 39u64) & 0x3F == minute
        &&& (date >> 45u64) & 0x3F == second
        &&& ((date >> 51u64) & 0x1 != 0) == (u == 1)
    }) by (bit_vector)
        requires
            year < 4096,
            millisecond < 1024,
            month < 16,
            day_of_week < 8,
            day < 32,
            hour < 32,
            minute < 64,
            second < 64,
            u <= 1,
    ;
}

/// Every field read back from a packed date is the masked low bits of `time64` that
/// packing wrote there, and the UTC flag is the one given.
pub proof fn lemma_packed_date_fields(time64: u64, is_utc: bool)
    ensures
        year_bits(packed_date(time64, is_utc)) == time64 & 0xFFF,
        millisecond_bits(packed_date(time64, is_utc)) == time64 & 0x3FF,
        month_bits(packed_date(time64, is_utc)) == time64 & 0xF,
        day_of_week_bits(packed_date(time64, is_utc)) == time64 & 0x7,
        day_bits(packed_date(time64, is_utc)) == time64 & 0x1F,
        hour_bits(packed_date(time64, is_utc)) == time64 & 0x1F,
        minute_bits(packed_date(time64, is_utc)) == time64 & 0x3F,
        second_bits(packed_date(time64, is_utc)) == time64 & 0x3F,
        utc_bit(packed_date(time64, is_utc)) == is_utc,
        packed_date(time64, is_utc) < (1u64 << 52u64),
{
    let t = time64;
    if is_utc {
        assert({
            let p = (1u64 << 51u64) | ((t & 0x3F) << 45u64) | ((t & 0x3F) << 39u64) | ((t & 0x1F)
                << 34u64) | ((t & 0x1F) << 29u64) | ((t & 0x7) << 26u64) | ((t & 0xF) << 22u64)
                | ((t & 0x3FF) << 12u64) | (t & 0xFFF);
            &&& p & 0xFFF == t & 0xFFF
            &&& (p >> 12u64) & 0x3FF == t & 0x3FF
            &&& (p >> 22u64) & 0xF == t & 0xF
            &&& (p >> 26u64) & 0x7 == t & 0x7
            &&& (p >> 29u64) & 0x1F == t & 0x1F
            &&& (p >> 34u64) & 0x1F == t & 0x1F
            &&& (p >> 39u64) & 0x3F == t & 0x3F
            &&& (p >> 45u64) & 0x3F == t & 0x3F
            &&& (p >> 51u64) & 0x1 != 0
            &&& p < (1u64 << 52u64)
        }) by (bit_vector);
    } else {
        assert({
            let p = 0u64 | ((t & 0x3F) << 45u64) | ((t & 0x3F) << 39u64) | ((t & 0x1F) << 34u64)
                | ((t & 0x1F) << 29u64) | ((t & 0x7) << 26u64) | ((t & 0xF) << 22u64) | ((t
                & 0x3FF) << 12u64) | (t & 0xFFF);
            &&& p & 0xFFF == t & 0xFFF
            &&& (p >> 12u64) & 0x3FF == t & 0x3FF
            &&& (p >> 22u64) & 0xF == t & 0xF
            &&& (p >> 26u64) & 0x7 == t & 0x7
            &&& (p >> 29u64) & 0x1F == t & 0x1F
            &&& (p >> 34u64) & 0x1F == t & 0x1F
            &&& (p >> 39u64) & 0x3F == t & 0x3F
            &&& (p >> 45u64) & 0x3F == t & 0x3F
            &&& (p >> 51u64) & 0x1 == 0
            &&& p < (1u64 << 52u64)
        }) by (bit_vector);
    }
}

impl DLDateTime {
    pub fn new(time64: u64, is_utc: bool) -> (r: Self)
        ensures
            r.time64 == time64,
            r.date == packed_date(time64, is_utc),
    {
        Self::from_time64(time64, is_utc)
    }

    pub fn from_time64(time64: u64, is_utc: bool) -> (r: Self)
        ensures
            r.time64 == time64,
            r.date == packed_date(time64, is_utc),
    {
        let mut packed_value: u64 = 0;

        // UTC flag (1 bit)
        packed_value = packed_value | if is_utc { 1 } else { 0 };
        let ghost p0 = packed_value;
        // seconds (6 bits)
        packed_value = (packed_value << 6u64) | (time64 & 0x3F);
        let ghost p1 = packed_value;
        // minutes (6 bits)
        packed_value = (packed_value << 6u64) | (time64 & 0x3F);
        let ghost p2 = packed_value;
        // hours (5 bits)
        packed_value = (packed_value << 5u64) | (time64 & 0x1F);
        let ghost p3 = packed_value;
        // day (5 bits)
        packed_value = (packed_value << 5u64) | (time64 & 0x1F);
        let ghost p4 = packed_value;
        // day of week (3 bits)
        packed_value = (packed_value << 3u64) | (time64 & 0x7);
        let ghost p5 = packed_value;
        // month (4 bits)
        packed_value = (packed_value << 4u64) | (time64 & 0xF);
        let ghost p6 = packed_value;
        // milliseconds (10 bits)
        packed_value = (packed_value << 10u64) | (time64 & 0x3FF);
        let ghost p7 = packed_value;
        // year (12 bits)
        packed_value = (packed_value << 12u64) | (time64 & 0xFFF);
        let ghost p8 = packed_value;

        proof {
            let t = time64;
            let flag: u64 = if is_utc { 1 } else { 0 };
            assert(p0 == flag) by (bit_vector)
                requires
                    p0 == 0u64 | flag,
            ;
            let hi: u64 = if is_utc { 1u64 << 51u64 } else { 0u64 };
            assert(hi == (p0 << 51u64)) by (bit_vector)
                requires
                    (p0 == 1 && hi == 1u64 << 51u64) || (p0 == 0 && hi == 0),
            ;
            assert(p8 == (p0 << 51u64) | ((t & 0x3F) << 45u64) | ((t & 0x3F) << 39u64) | ((t
                & 0x1F) << 34u64) | ((t & 0x1F) << 29u64) | ((t & 0x7) << 26u64) | ((t & 0xF)
                << 22u64) | ((t & 0x3FF) << 12u64) | (t & 0xFFF)) by (bit_vector)
                requires
                    p0 <= 1,
                    p1 == (p0 << 6u64) | (t & 0x3F),
                    p2 == (p1 << 6u64) | (t & 0x3F),
                    p3 == (p2 << 5u64) | (t & 0x1F),
                    p4 == (p3 << 5u64) | (t & 0x1F),
                    p5 == (p4 << 3u64) | (t & 0x7),
                    p6 == (p5 << 4u64) | (t & 0xF),
                    p7 == (p6 << 10u64) | (t & 0x3FF),
                    p8 == (p7 << 12u64) | (t & 0xFFF),
            ;
        }
        Self { time64, date: packed_value }
    }

    pub fn years(&self) -> (r: u16)
        ensures
            r == year_bits(self.date),
    {
        proof {
            let d = self.date;
            assert(d & 0xFFF <= 0xFFF) by (bit_vector);
        }
        (self.date & 0xFFF) as u16
    }

    pub fn milliseconds(&self) -> (r: u16)
        ensures
            r == millisecond_bits(self.date),
    {
        proof {
            let d = self.date;
            assert((d >> 12u64) & 0x3FF <= 0x3FF) by (bit_vector);
        }
        ((self.date >> 12u64) & 0x3FF) as u16
    }

    pub fn months(&self) -> (r: u8)
        ensures
            r == month_bits(self.date),
    {
        proof {
            let d = self.date;
            assert((d >> 22u64) & 0xF <= 0xF) by (bit_vector);
        }
        ((self.date >> 22u64) & 0xF) as u8
    }

    pub fn day_of_week(&self) -> (r: u8)
        ensures
            r == day_of_week_bits(self.date),
    {
        proof {
            let d = self.date;
            assert((d >> 26u64) & 0x7 <= 0x7) by (bit_vector);
        }
        ((self.date >> 26u64) & 0x7) as u8
    }

    pub fn days(&self) -> (r: u8)
        ensures
            r == day_bits(self.date),
    {
        proof {
            let d = self.date;
            assert((d >> 29u64) & 0x1F <= 0x1F) by (bit_vector);
        }
        ((self.date >> 29u64) & 0x1F) as u8
    }

    pub fn hours(&self) -> (r: u8)
        ensures
            r == hour_bits(self.date),
    {
        proof {
            let d = self.date;
            assert((d >> 34u64) & 0x1F <= 0x1F) by (bit_vector);
        }
        ((self.date >> 34u64) & 0x1F) as u8
    }

    pub fn minutes(&self) -> (r: u8)
        ensures
            r == minute_bits(self.date),
    {
        proof {
            let d = self.date;
            assert((d >> 39u64) & 0x3F <= 0x3F) by (bit_vector);
        }
        ((self.date >> 39u64) & 0x3F) as u8
    }

    pub fn seconds(&self) -> (r: u8)
        ensures
            r == second_bits(self.date),
    {
        proof {
            let d = self.date;
            assert((d >> 45u64) & 0x3F <= 0x3F) by (bit_vector);
        }
        ((self.date >> 45u64) & 0x3F) as u8
    }

    pub fn is_utc(&self) -> (r: bool)
        ensures
            r == utc_bit(self.date),
    {
        (self.date >> 51u64) & 0x1 != 0
    }
}

} // verus!
