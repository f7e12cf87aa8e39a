use vstd::prelude::*;

verus! {

/// Day of the week; the calendar counts Monday as 0.
#[derive(Clone, Copy, Debug, PartialEq, Eq, PartialOrd, Ord, Structural)]
pub enum Day {
    Monday,
    Tuesday,
    Wednesday,
    Thursday,
    Friday,
    Saturday,
    Sunday,
}

/// Month of the year; the calendar counts January as 1.
#[derive(Clone, Copy, Debug, PartialEq, Eq, PartialOrd, Ord, Structural)]
pub enum Month {
    January,
    February,
    March,
    April,
    May,
    June,
    July,
    August,
    September,
    October,
    November,
    December,
}

/// Position of a day within the week, as the DOW register holds it.
pub open spec fn day_index(d: Day) -> int {
    match d {
        Day::Monday => 0,
        Day::Tuesday => 1,
        Day::Wednesday => 2,
        Day::Thursday => 3,
        Day::Friday => 4,
        Day::Saturday => 5,
        Day::Sunday => 6,
    }
}

/// Number of a month, as the MONTH register holds it.
pub open spec fn month_number(m: Month) -> int {
    match m {
        Month::January => 1,
        Month::February => 2,
        Month::March => 3,
        Month::April => 4,
        Month::May => 5,
        Month::June => 6,
        Month::July => 7,
        Month::August => 8,
        Month::September => 9,
        Month::October => 10,
        Month::November => 11,
        Month::December => 12,
    }
}

impl Day {
    /// The DOW register value of this day.
    pub fn index(self) -> (r: u8)
        ensures
            r == day_index(self),
    {
        match self {
            Day::Monday => 0,
            Day::Tuesday => 1,
            Day::Wednesday => 2,
            Day::Thursday => 3,
            Day::Friday => 4,
            Day::Saturday => 5,
            Day::Sunday => 6,
        }
    }

    /// The day with DOW register value `i`.
    pub fn from_index(i: u8) -> (r: Day)
        requires
            i < 7,
        ensures
            day_index(r) == i,
    {
        if i == 0 {
            Day::Monday
        } else if i == 1 {
            Day::Tuesday
        } else if i == 2 {
            Day::Wednesday
        } else if i == 3 {
            Day::Thursday
        } else if i == 4 {
            Day::Friday
        } else if i == 5 {
            Day::Saturday
        } else {
            Day::Sunday
        }
    }
}

impl Month {
    /// The MONTH register value of this month.
    pub fn number(self) -> (r: u8)
        ensures
            r == month_number(self),
    {
        match self {
            Month::January => 1,
            Month::February => 2,
            Month::March => 3,
            Month::April => 4,
            Month::May => 5,
            Month::June => 6,
            Month::July => 7,
            Month::August => 8,
            Month::September => 9,
            Month::October => 10,
            Month::November => 11,
            Month::December => 12,
        }
    }

    /// The month with MONTH register value `n`.
    pub fn from_number(n: u8) -> (r: Month)
        requires
            1 <= n <= 12,
        ensures
            month_number(r) == n,
    {
        if n == 1 {
            Month::January
        } else if n == 2 {
            Month::February
        } else if n == 3 {
            Month::March
        } else if n == 4 {
            Month::April
        } else if n == 5 {
            Month::May
        } else if n == 6 {
            Month::June
        } else if n == 7 {
            Month::July
        } else if n == 8 {
            Month::August
        } else if n == 9 {
            Month::September
        } else if n == 10 {
            Month::October
        } else if n == 11 {
            Month::November
        } else {
            Month::December
        }
    }
}

/// Leap years as the calendar hardware counts them: every fourth year.
pub open spec fn is_leap_year(year: int) -> bool {
    year % 4 == 0
}

/// Length of a month of a given year.
pub open spec fn days_in_month(month: int, year: int) -> int {
    if month == 2 {
        if is_leap_year(year) {
            29
        } else {
            28
        }
    } else if month == 4 || month == 6 || month == 9 || month == 11 {
        30
    } else {
        31
    }
}

/// Length of a year.
pub open spec fn days_in_year(year: int) -> int {
    if is_leap_year(year) {
        366
    } else {
        365
    }
}

/// Length of a month of a given year.
pub fn month_length(month: u8, year: u16) -> (r: u8)
    ensures
        r == days_in_month(month as int, year as int),
{
    if month == 2 {
        if year % 4 == 0 {
            29
        } else {
            28
        }
    } else if month == 4 || month == 6 || month == 9 || month == 11 {
        30
    } else {
        31
    }
}

/// Length of a year.
pub fn year_length(year: u16) -> (r: u16)
    ensures
        r == days_in_year(year as int),
{
    if year % 4 == 0 {
        366
    } else {
        365
    }
}

/// The fields of a calendar value.
#[derive(Clone, Copy, Debug, PartialEq, Eq, Structural)]
pub struct CalendarFields {
    pub seconds: u8,
    pub minutes: u8,
    pub hours: u8,
    pub day_of_week: u8,
    pub day_of_month: u8,
    pub month: u8,
    pub year: u16,
    pub day_of_year: u16,
}

/// Every field is in range and consistent with the month and year.
pub open spec fn fields_valid(f: CalendarFields) -> bool {
    &&& f.seconds < 60
    &&& f.minutes < 60
    &&& f.hours < 24
    &&& f.day_of_week < 7
    &&& 1 <= f.month <= 12
    &&& 1 <= f.day_of_month <= days_in_month(f.month as int, f.year as int)
    &&& 1 <= f.day_of_year <= days_in_year(f.year as int)
}

/// 1970-01-01 00:00:00, first day of the year, day of week 0.
pub open spec fn epoch_fields() -> CalendarFields {
    CalendarFields {
        seconds: 0,
        minutes: 0,
        hours: 0,
        day_of_week: 0,
        day_of_month: 1,
        month: 1,
        year: 1970,
        day_of_year: 1,
    }
}

/// A calendar date and time of day, as the real-time clock keeps it.
#[derive(Clone, Copy, Debug, PartialEq, Eq, Structural)]
pub struct RtcTime {
    seconds: u8,
    minutes: u8,
    hours: u8,
    day_of_week: u8,
    day_of_month: u8,
    month: u8,
    year: u16,
    day_of_year: u16,
}

impl View for RtcTime {
    type V = CalendarFields;

    closed spec fn view(&self) -> CalendarFields {
        CalendarFields {
            seconds: self.seconds,
            minutes: self.minutes,
            hours: self.hours,
            day_of_week: self.day_of_week,
            day_of_month: self.day_of_month,
            month: self.month,
            year: self.year,
            day_of_year: self.day_of_year,
        }
    }
}

impl Default for RtcTime {
    /// The epoch, 1970-01-01 00:00:00.
    fn default() -> (r: RtcTime)
        ensures
            r@ == epoch_fields(),
    {
        RtcTime {
            seconds: 0,
            minutes: 0,
            hours: 0,
            day_of_week: 0,
            day_of_month: 1,
            day_of_year: 1,
            month: 1,
            year: 1970,
        }
    }
}

/// The three consolidated time registers CTIME0, CTIME1 and CTIME2, as read.
#[derive(Clone, Copy, Debug, PartialEq, Eq, Structural)]
pub struct RawCalendar {
    pub ctime0: u32,
    pub ctime1: u32,
    pub ctime2: u32,
}

/// The calendar fields packed in the consolidated registers.
pub open spec fn decode_fields(raw: RawCalendar) -> CalendarFields {
    CalendarFields {
        seconds: (raw.ctime0 & 0x3f) as u8,
        minutes: ((raw.ctime0 >> 8u32) & 0x3f) as u8,
        hours: ((raw.ctime0 >> 16u32) & 0x1f) as u8,
        day_of_week: ((raw.ctime0 >> 24u32) & 0x07) as u8,
        day_of_month: (raw.ctime1 & 0x1f) as u8,
        month: ((raw.ctime1 >> 8u32) & 0x0f) as u8,
        year: ((raw.ctime1 >> 16u32) & 0x0fff) as u16,
        day_of_year: (raw.ctime2 & 0x0fff) as u16,
    }
}

impl RtcTime {
    /// The calendar value held in the consolidated registers, whether or not
    /// it is a valid date.
    pub fn from_registers(raw: &RawCalendar) -> (r: RtcTime)
        ensures
            r@ == decode_fields(*raw),
    {
        RtcTime {
            seconds: (raw.ctime0 & 0x3f) as u8,
            minutes: ((raw.ctime0 >> 8u32) & 0x3f) as u8,
            hours: ((raw.ctime0 >> 16u32) & 0x1f) as u8,
            day_of_week: ((raw.ctime0 >> 24u32) & 0x07) as u8,
            day_of_month: (raw.ctime1 & 0x1f) as u8,
            month: ((raw.ctime1 >> 8u32) & 0x0f) as u8,
            year: ((raw.ctime1 >> 16u32) & 0x0fff) as u16,
            day_of_year: (raw.ctime2 & 0x0fff) as u16,
        }
    }

    /// Whether every field obeys the calendar rules.
    pub fn is_valid(&self) -> (r: bool)
        ensures
            r == fields_valid(self@),
    {
        self.seconds < 60 && self.minutes < 60 && self.hours < 24 && self.day_of_week < 7 && 1
            <= self.month && self.month <= 12 && 1 <= self.day_of_month && self.day_of_month
            <= month_length(self.month, self.year) && 1 <= self.day_of_year && self.day_of_year
            <= year_length(self.year)
    }
}


impl RtcTime {
    pub fn get_seconds(&self) -> (r: u8)
        ensures
            r == self@.seconds,
    {
        self.seconds
    }

    /// Sets the seconds if `seconds < 60`; otherwise fails and changes nothing.
    pub fn set_seconds(&mut self, seconds: u8) -> (r: bool)
        ensures
            r == (seconds < 60),
            r ==> final(self)@ == (CalendarFields { seconds, ..old(self)@ }),
            !r ==> *final(self) == *old(self),
    {
        if seconds < 60 {
            self.seconds = seconds;
            true
        } else {
            false
        }
    }

    pub fn get_minutes(&self) -> (r: u8)
        ensures
            r == self@.minutes,
    {
        self.minutes
    }

    /// Sets the minutes if `minutes < 60`; otherwise fails and changes nothing.
    pub fn set_minutes(&mut self, minutes: u8) -> (r: bool)
        ensures
            r == (minutes < 60),
            r ==> final(self)@ == (CalendarFields { minutes, ..old(self)@ }),
            !r ==> *final(self) == *old(self),
    {
        if minutes < 60 {
            self.minutes = minutes;
            true
        } else {
            false
        }
    }

    pub fn get_hours(&self) -> (r: u8)
        ensures
            r == self@.hours,
    {
        self.hours
    }

    /// Sets the hours if `hours < 24`; otherwise fails and changes nothing.
    pub fn set_hours(&mut self, hours: u8) -> (r: bool)
        ensures
            r == (hours < 24),
            r ==> final(self)@ == (CalendarFields { hours, ..old(self)@ }),
            !r ==> *final(self) == *old(self),
    {
        if hours < 24 {
            self.hours = hours;
            true
        } else {
            false
        }
    }

    pub fn get_day_of_week(&self) -> (r: Day)
        requires
            self@.day_of_week < 7,
        ensures
            day_index(r) == self@.day_of_week,
    {
        Day::from_index(self.day_of_week)
    }

    /// Sets the day of the week; every `Day` is in range.
    pub fn set_day_of_week(&mut self, day: Day)
        ensures
            final(self)@ == (CalendarFields { day_of_week: day_index(day) as u8, ..old(self)@ }),
    {
        self.day_of_week = day.index();
    }

    pub fn get_day_of_month(&self) -> (r: u8)
        ensures
            r == self@.day_of_month,
    {
        self.day_of_month
    }

    /// Sets the day of the month if it exists in the current month and year;
    /// otherwise fails and changes nothing.
    pub fn set_day_of_month(&mut self, day: u8) -> (r: bool)
        ensures
            r == (1 <= day <= days_in_month(old(self)@.month as int, old(self)@.year as int)),
            r ==> final(self)@ == (CalendarFields { day_of_month: day, ..old(self)@ }),
            !r ==> *final(self) == *old(self),
    {
        if 1 <= day && day <= month_length(self.month, self.year) {
            self.day_of_month = day;
            true
        } else {
            false
        }
    }

    pub fn get_month(&self) -> (r: Month)
        requires
            1 <= self@.month <= 12,
        ensures
            month_number(r) == self@.month,
    {
        Month::from_number(self.month)
    }

    /// Sets the month. The day fields are not checked again: set the year
    /// and month before the days.
    pub fn set_month(&mut self, month: Month)
        ensures
            final(self)@ == (CalendarFields { month: month_number(month) as u8, ..old(self)@ }),
    {
        self.month = month.number();
    }

    pub fn get_year(&self) -> (r: u16)
        ensures
            r == self@.year,
    {
        self.year
    }

    /// Sets the year. The day fields are not checked again: set the year
    /// and month before the days.
    pub fn set_year(&mut self, year: u16)
        ensures
            final(self)@ == (CalendarFields { year, ..old(self)@ }),
    {
        self.year = year;
    }

    pub fn get_day_of_year(&self) -> (r: u16)
        ensures
            r == self@.day_of_year,
    {
        self.day_of_year
    }

    /// Sets the day of the year if it exists in the current year; otherwise
    /// fails and changes nothing.
    pub fn set_day_of_year(&mut self, day: u16) -> (r: bool)
        ensures
            r == (1 <= day <= days_in_year(old(self)@.year as int)),
            r ==> final(self)@ == (CalendarFields { day_of_year: day, ..old(self)@ }),
            !r ==> *final(self) == *old(self),
    {
        if 1 <= day && day <= year_length(self.year) {
            self.day_of_year = day;
            true
        } else {
            false
        }
    }
}

/// Chronological order: year, month, day of month, hours, minutes, seconds.
/// Day of week and day of year take no part.
pub open spec fn chronological_key(f: CalendarFields) -> Seq<int> {
    seq![
        f.year as int,
        f.month as int,
        f.day_of_month as int,
        f.hours as int,
        f.minutes as int,
        f.seconds as int,
    ]
}

/// Lexicographic comparison of two keys of equal length from index `i` on:
/// -1, 0 or 1.
pub open spec fn compare_from(a: Seq<int>, b: Seq<int>, i: int) -> int
    decreases a.len() - i,
{
    if i >= a.len() || i >= b.len() {
        0
    } else if a[i] < b[i] {
        -1
    } else if a[i] > b[i] {
        1
    } else {
        compare_from(a, b, i + 1)
    }
}

fn compare_u16(a: u16, b: u16) -> (r: i8)
    ensures
        r == (if a < b {
            -1int
        } else if a > b {
            1int
        } else {
            0int
        }),
{
    if a < b {
        -1
    } else if a > b {
        1
    } else {
        0
    }
}

impl RtcTime {
    /// Compares two calendar values in time order: -1 if `self` is earlier,
    /// 1 if later, 0 if they name the same second.
    pub fn compare(&self, other: &RtcTime) -> (r: i8)
        ensures
            r == compare_from(chronological_key(self@), chronological_key(other@), 0),
    {
        let ghost a = chronological_key(self@);
        let ghost b = chronological_key(other@);
        assert(compare_from(a, b, 6) == 0);
        let pairs: [(u16, u16); 6] = [
            (self.year, other.year),
            (self.month as u16, other.month as u16),
            (self.day_of_month as u16, other.day_of_month as u16),
            (self.hours as u16, other.hours as u16),
            (self.minutes as u16, other.minutes as u16),
            (self.seconds as u16, other.seconds as u16),
        ];
        let mut i: usize = 0;
        while i < 6
            invariant
                0 <= i <= 6,
                a == chronological_key(self@),
                b == chronological_key(other@),
                forall|j: int| 0 <= j < 6 ==> (#[trigger] pairs[j]).0 == a[j] && pairs[j].1 == b[j],
                forall|j: int| 0 <= j < i ==> a[j] == b[j],
            decreases 6 - i,
        {
            let c = compare_u16(pairs[i].0, pairs[i].1);
            if c != 0 {
                proof {
                    lemma_compare_prefix(a, b, i as int);
                }
                return c;
            }
            i = i + 1;
        }
        proof {
            lemma_compare_prefix(a, b, 6);
        }
        0
    }
}

/// With equal entries before `k`, the comparison is decided from `k` on.
proof fn lemma_compare_prefix(a: Seq<int>, b: Seq<int>, k: int)
    requires
        0 <= k <= a.len(),
        a.len() == b.len(),
        forall|j: int| 0 <= j < k ==> a[j] == b[j],
    ensures
        compare_from(a, b, 0) == compare_from(a, b, k),
    decreases k,
{
    if k > 0 {
        lemma_compare_prefix(a, b, k - 1);
    }
}

/// What startup does with the stored calendar value: `None` keeps it,
/// `Some(t)` replaces it with `t`. A stored value that breaks any calendar
/// rule is replaced by the epoch, never repaired.
pub fn rtc_init(stored: &RtcTime) -> (r: Option<RtcTime>)
    ensures
        fields_valid(stored@) ==> r is None,
        !fields_valid(stored@) ==> r is Some && r->Some_0@ == epoch_fields(),
{
    if stored.is_valid() {
        None
    } else {
        Some(RtcTime::default())
    }
}

/// One round of the tear-free read: two consecutive full reads of the
/// consolidated registers. A value comes out only when both reads agree bit
/// for bit, and it is that value; otherwise the caller reads again.
pub fn get_time(first: &RawCalendar, second: &RawCalendar) -> (r: Option<RtcTime>)
    ensures
        r is Some <==> *first == *second,
        r is Some ==> r->Some_0@ == decode_fields(*first) && r->Some_0@ == decode_fields(*second),
{
    if first.ctime0 == second.ctime0 && first.ctime1 == second.ctime1 && first.ctime2
        == second.ctime2 {
        Some(RtcTime::from_registers(first))
    } else {
        None
    }
}

/// The `k`-th pair of a trace of full register reads, at indices `2 * k` and
/// `2 * k + 1`, agrees bit for bit; the protocol takes reads two at a time.
pub open spec fn pair_agrees(reads: Seq<RawCalendar>, k: int) -> bool {
    reads[2 * k] == reads[2 * k + 1]
}

/// The tear-free read run over a trace of full register reads, as a source
/// that changes between reads produces them: reads are taken in pairs, a
/// pair that differs is dropped, and the first pair that agrees gives the
/// value, with the number of pairs dropped before it. `None` when no pair
/// of the trace agrees.
pub fn get_time_from_reads(reads: &Vec<RawCalendar>) -> (r: Option<(usize, RtcTime)>)
    ensures
        match r {
            Some((k, t)) => {
                &&& 2 * k + 1 < reads@.len()
                &&& pair_agrees(reads@, k as int)
                &&& t@ == decode_fields(reads@[2 * k as int])
                &&& forall|j: int| 0 <= j < k ==> !#[trigger] pair_agrees(reads@, j)
            },
            None => forall|j: int|
                0 <= j && 2 * j + 1 < reads@.len() ==> !#[trigger] pair_agrees(reads@, j),
        },
{
    let mut k: usize = 0;
    while k < reads.len() / 2
        invariant
            k <= reads@.len() / 2,
            forall|j: int| 0 <= j < k ==> !#[trigger] pair_agrees(reads@, j),
        decreases reads.len() / 2 - k,
    {
        if let Some(t) = get_time(&reads[2 * k], &reads[2 * k + 1]) {
            return Some((k, t));
        }
        k = k + 1;
    }
    None
}

/// One write to the real-time clock's registers.
#[derive(Clone, Copy, Debug, PartialEq, Eq, Structural)]
pub enum RtcOp {
    /// CCR: start or stop the calendar counters.
    ClockEnable(bool),
    Sec(u8),
    Min(u8),
    Hrs(u8),
    Dow(u8),
    Dom(u8),
    Month(u8),
    Year(u16),
    Doy(u16),
}

/// Writes that store a calendar value: stop the counters, write each field,
/// start the counters again.
pub open spec fn set_time_ops(f: CalendarFields) -> Seq<RtcOp> {
    seq![
        RtcOp::ClockEnable(false),
        RtcOp::Sec(f.seconds),
        RtcOp::Min(f.minutes),
        RtcOp::Hrs(f.hours),
        RtcOp::Dow(f.day_of_week),
        RtcOp::Dom(f.day_of_month),
        RtcOp::Month(f.month),
        RtcOp::Year(f.year),
        RtcOp::Doy(f.day_of_year),
        RtcOp::ClockEnable(true),
    ]
}

/// The register writes that store `time` in the real-time clock.
pub fn set_time(time: &RtcTime) -> (r: Vec<RtcOp>)
    ensures
        r@ == set_time_ops(time@),
{
    let r = vec![
        RtcOp::ClockEnable(false),
        RtcOp::Sec(time.seconds),
        RtcOp::Min(time.minutes),
        RtcOp::Hrs(time.hours),
        RtcOp::Dow(time.day_of_week),
        RtcOp::Dom(time.day_of_month),
        RtcOp::Month(time.month),
        RtcOp::Year(time.year),
        RtcOp::Doy(time.day_of_year),
        RtcOp::ClockEnable(true),
    ];
    assert(r@ =~= set_time_ops(time@));
    r
}

} // verus!
