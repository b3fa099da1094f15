use vstd::prelude::*;

verus! {

/// The longest bar drawn for one day of the history, in cells.
pub const MAX_HISTORY_BAR_WIDTH: u32 = 30;

/// What was completed on one day: work sessions and their planned minutes.
#[derive(Debug, Clone, Copy, PartialEq, Eq, Structural)]
pub struct DayStat {
    pub pomodoros: u32,
    pub work_minutes: u64,
}

/// The statistics of a day that holds none.
pub open spec fn empty_day() -> DayStat {
    DayStat { pomodoros: 0, work_minutes: 0 }
}

/// The statistics that `days` hold for `date`, or none.
pub open spec fn day_of(days: Map<Seq<char>, DayStat>, date: Seq<char>) -> DayStat {
    if days.dom().contains(date) {
        days[date]
    } else {
        empty_day()
    }
}

/// `days` with one more work session of `minutes` minutes counted on `date`.
pub open spec fn with_recorded(days: Map<Seq<char>, DayStat>, date: Seq<char>, minutes: u64) -> Map<
    Seq<char>,
    DayStat,
> {
    days.insert(
        date,
        DayStat {
            pomodoros: (day_of(days, date).pomodoros + 1) as u32,
            work_minutes: (day_of(days, date).work_minutes + minutes) as u64,
        },
    )
}

/// The days of a sequence of entries, each date with its statistics.
pub closed spec fn entries_map(entries: Seq<(String, DayStat)>) -> Map<Seq<char>, DayStat>
    decreases entries.len(),
{
    if entries.len() == 0 {
        Map::empty()
    } else {
        entries_map(entries.drop_last()).insert(entries.last().0@, entries.last().1)
    }
}

/// Whether no date occurs twice among the entries.
pub closed spec fn dates_distinct(entries: Seq<(String, DayStat)>) -> bool {
    forall|i: int, j: int|
        0 <= i < entries.len() && 0 <= j < entries.len() && i != j ==> entries[i].0@
            != entries[j].0@
}

/// The work sessions of all entries.
pub closed spec fn pomodoro_sum(entries: Seq<(String, DayStat)>) -> nat
    decreases entries.len(),
{
    if entries.len() == 0 {
        0
    } else {
        pomodoro_sum(entries.drop_last()) + entries.last().1.pomodoros as nat
    }
}

/// The work minutes of all entries.
pub closed spec fn minute_sum(entries: Seq<(String, DayStat)>) -> nat
    decreases entries.len(),
{
    if entries.len() == 0 {
        0
    } else {
        minute_sum(entries.drop_last()) + entries.last().1.work_minutes as nat
    }
}

/// The work sessions of a day, as a part to be summed over days.
pub open spec fn pomodoro_part() -> spec_fn(DayStat) -> nat {
    |d: DayStat| d.pomodoros as nat
}

/// The work minutes of a day, as a part to be summed over days.
pub open spec fn minute_part() -> spec_fn(DayStat) -> nat {
    |d: DayStat| d.work_minutes as nat
}

/// The sum of `part` over every day that `days` hold.
pub open spec fn days_total(days: Map<Seq<char>, DayStat>, part: spec_fn(DayStat) -> nat) -> nat
    decreases days.dom().len(),
    when days.dom().finite()
{
    if days.dom().len() == 0 {
        0
    } else {
        let date = days.dom().choose();
        part(days[date]) + days_total(days.remove(date), part)
    }
}

/// Any day may be taken out of the sum first: the sum does not depend on the order in
/// which the days are added up.
pub proof fn lemma_days_total_remove(
    days: Map<Seq<char>, DayStat>,
    part: spec_fn(DayStat) -> nat,
    date: Seq<char>,
)
    requires
        days.dom().finite(),
        days.dom().contains(date),
    ensures
        days_total(days, part) == part(days[date]) + days_total(days.remove(date), part),
    decreases days.dom().len(),
{
    let first = days.dom().choose();
    if first != date {
        let without_first = days.remove(first);
        let without_date = days.remove(date);
        lemma_days_total_remove(without_first, part, date);
        lemma_days_total_remove(without_date, part, first);
        assert(without_first.remove(date) == without_date.remove(first));
    }
}

/// Adding a day that `days` did not hold adds its part to the sum.
pub proof fn lemma_days_total_insert(
    days: Map<Seq<char>, DayStat>,
    part: spec_fn(DayStat) -> nat,
    date: Seq<char>,
    day: DayStat,
)
    requires
        days.dom().finite(),
        !days.dom().contains(date),
    ensures
        days_total(days.insert(date, day), part) == days_total(days, part) + part(day),
{
    let more = days.insert(date, day);
    lemma_days_total_remove(more, part, date);
    assert(more.remove(date) == days);
}

proof fn lemma_sums_match_days(entries: Seq<(String, DayStat)>)
    requires
        dates_distinct(entries),
    ensures
        pomodoro_sum(entries) == days_total(entries_map(entries), pomodoro_part()),
        minute_sum(entries) == days_total(entries_map(entries), minute_part()),
    decreases entries.len(),
{
    lemma_entries_map(entries);
    if entries.len() > 0 {
        let rest = entries.drop_last();
        assert(dates_distinct(rest));
        lemma_entries_map(rest);
        lemma_sums_match_days(rest);
        let last = entries.last();
        assert(!entries_map(rest).dom().contains(last.0@)) by {
            if entries_map(rest).dom().contains(last.0@) {
                let i = choose|i: int| 0 <= i < rest.len() && rest[i].0@ == last.0@;
                assert(entries[i].0@ == entries[entries.len() - 1].0@);
            }
        }
        lemma_days_total_insert(entries_map(rest), pomodoro_part(), last.0@, last.1);
        lemma_days_total_insert(entries_map(rest), minute_part(), last.0@, last.1);
    } else {
        assert(entries_map(entries).dom() =~= Set::empty());
    }
}

proof fn lemma_entries_map(entries: Seq<(String, DayStat)>)
    requires
        dates_distinct(entries),
    ensures
        forall|i: int|
            0 <= i < entries.len() ==> entries_map(entries).dom().contains(#[trigger] entries[i].0@)
                && entries_map(entries)[entries[i].0@] == entries[i].1,
        forall|k: Seq<char>|
            #[trigger] entries_map(entries).dom().contains(k) ==> exists|i: int|
                0 <= i < entries.len() && entries[i].0@ == k,
        entries_map(entries).dom().finite(),
        entries_map(entries).dom().len() == entries.len(),
    decreases entries.len(),
{
    if entries.len() > 0 {
        let rest = entries.drop_last();
        assert(dates_distinct(rest));
        lemma_entries_map(rest);
        let last = entries.last();
        assert(!entries_map(rest).dom().contains(last.0@)) by {
            if entries_map(rest).dom().contains(last.0@) {
                let i = choose|i: int| 0 <= i < rest.len() && rest[i].0@ == last.0@;
                assert(entries[i].0@ == entries[entries.len() - 1].0@);
            }
        }
        assert forall|i: int| 0 <= i < entries.len() implies entries_map(entries).dom().contains(
            #[trigger] entries[i].0@,
        ) && entries_map(entries)[entries[i].0@] == entries[i].1 by {
            if i < entries.len() - 1 {
                assert(entries[i] == rest[i]);
                assert(entries[i].0@ != last.0@);
            }
        }
        assert forall|k: Seq<char>| #[trigger]
            entries_map(entries).dom().contains(k) implies exists|i: int|
            0 <= i < entries.len() && entries[i].0@ == k by {
            if k != last.0@ {
                let i = choose|i: int| 0 <= i < rest.len() && rest[i].0@ == k;
                assert(entries[i] == rest[i]);
            } else {
                assert(entries[entries.len() - 1].0@ == k);
            }
        }
    }
}

proof fn lemma_entries_map_update(entries: Seq<(String, DayStat)>, i: int, entry: (String, DayStat))
    requires
        dates_distinct(entries),
        0 <= i < entries.len(),
        entry.0@ == entries[i].0@,
    ensures
        dates_distinct(entries.update(i, entry)),
        entries_map(entries.update(i, entry)) == entries_map(entries).insert(entry.0@, entry.1),
        pomodoro_sum(entries.update(i, entry)) == pomodoro_sum(entries) - entries[i].1.pomodoros
            + entry.1.pomodoros,
        minute_sum(entries.update(i, entry)) == minute_sum(entries) - entries[i].1.work_minutes
            + entry.1.work_minutes,
    decreases entries.len(),
{
    let updated = entries.update(i, entry);
    assert(dates_distinct(updated)) by {
        assert forall|a: int, b: int|
            0 <= a < updated.len() && 0 <= b < updated.len() && a != b implies updated[a].0@
            != updated[b].0@ by {
            assert(updated[a].0@ == entries[a].0@);
            assert(updated[b].0@ == entries[b].0@);
        }
    }
    if i == entries.len() - 1 {
        assert(updated.drop_last() == entries.drop_last());
    } else {
        let rest = entries.drop_last();
        assert(dates_distinct(rest));
        lemma_entries_map_update(rest, i, entry);
        assert(updated.drop_last() == rest.update(i, entry));
        assert(entries.last().0@ != entry.0@);
        assert(entries_map(updated) == entries_map(entries).insert(entry.0@, entry.1));
    }
}

proof fn lemma_entries_map_push(entries: Seq<(String, DayStat)>, entry: (String, DayStat))
    requires
        dates_distinct(entries),
        forall|i: int| 0 <= i < entries.len() ==> entries[i].0@ != entry.0@,
    ensures
        dates_distinct(entries.push(entry)),
        entries_map(entries.push(entry)) == entries_map(entries).insert(entry.0@, entry.1),
        pomodoro_sum(entries.push(entry)) == pomodoro_sum(entries) + entry.1.pomodoros,
        minute_sum(entries.push(entry)) == minute_sum(entries) + entry.1.work_minutes,
{
    let pushed = entries.push(entry);
    assert(pushed.drop_last() == entries);
    assert(dates_distinct(pushed)) by {
        assert forall|a: int, b: int|
            0 <= a < pushed.len() && 0 <= b < pushed.len() && a != b implies pushed[a].0@
            != pushed[b].0@ by {
            if a < entries.len() {
                assert(pushed[a] == entries[a]);
            }
            if b < entries.len() {
                assert(pushed[b] == entries[b]);
            }
        }
    }
}

/// The days on which work was completed, each with its statistics; no date occurs
/// twice. Its view maps each date to its statistics.
#[derive(Debug)]
pub struct Stats {
    days: Vec<(String, DayStat)>,
}

impl View for Stats {
    type V = Map<Seq<char>, DayStat>;

    closed spec fn view(&self) -> Map<Seq<char>, DayStat> {
        entries_map(self.days@)
    }
}

impl Stats {
    #[verifier::type_invariant]
    spec fn dates_unique(self) -> bool {
        dates_distinct(self.days@)
    }

    /// The work sessions of all days.
    pub open spec fn pomodoro_total(self) -> nat {
        days_total(self@, pomodoro_part())
    }

    /// The work minutes of all days.
    pub open spec fn minute_total(self) -> nat {
        days_total(self@, minute_part())
    }

    /// The statistics of `date`, or none.
    pub open spec fn day(self, date: Seq<char>) -> DayStat {
        day_of(self@, date)
    }

    /// No days.
    pub fn new() -> (s: Stats)
        ensures
            s@ == Map::<Seq<char>, DayStat>::empty(),
            s.pomodoro_total() == 0,
            s.minute_total() == 0,
    {
        Stats { days: Vec::new() }
    }

    fn find(&self, date: &String) -> (index: Option<usize>)
        ensures
            index matches Some(i) ==> i < self.days@.len() && self.days@[i as int].0@ == date@,
            index is None ==> forall|i: int|
                0 <= i < self.days@.len() ==> self.days@[i].0@ != date@,
    {
        let mut i: usize = 0;
        while i < self.days.len()
            invariant
                i <= self.days@.len(),
                forall|j: int| 0 <= j < i ==> self.days@[j].0@ != date@,
            decreases self.days@.len() - i,
        {
            if self.days[i].0 == *date {
                return Some(i);
            }
            i = i + 1;
        }
        None
    }

    /// Counts one completed work session of `work_minutes` minutes on `date`.
    pub fn record(&mut self, date: &str, work_minutes: u64)
        requires
            old(self).day(date@).pomodoros < u32::MAX,
            old(self).day(date@).work_minutes + work_minutes <= u64::MAX,
        ensures
            final(self)@ == with_recorded(old(self)@, date@, work_minutes),
            final(self).pomodoro_total() == old(self).pomodoro_total() + 1,
            final(self).minute_total() == old(self).minute_total() + work_minutes,
    {
        proof {
            use_type_invariant(&*self);
            lemma_entries_map(self.days@);
            lemma_sums_match_days(self.days@);
        }
        let key = String::from_str(date);
        match self.find(&key) {
            Some(i) => {
                let old_day = self.days[i].1;
                let day = DayStat {
                    pomodoros: old_day.pomodoros + 1,
                    work_minutes: old_day.work_minutes + work_minutes,
                };
                proof {
                    lemma_entries_map_update(self.days@, i as int, (key, day));
                }
                self.set_entry(i, key, day);
            },
            None => {
                let day = DayStat { pomodoros: 1, work_minutes };
                proof {
                    lemma_entries_map_push(self.days@, (key, day));
                }
                self.push_entry(key, day);
            },
        }
        proof {
            use_type_invariant(&*self);
            lemma_sums_match_days(self.days@);
        }
    }

    fn set_entry(&mut self, i: usize, key: String, day: DayStat)
        requires
            i < old(self).days@.len(),
            key@ == old(self).days@[i as int].0@,
        ensures
            final(self).days@ == old(self).days@.update(i as int, (key, day)),
    {
        proof {
            use_type_invariant(&*self);
            lemma_entries_map_update(self.days@, i as int, (key, day));
        }
        let mut days = Vec::new();
        std::mem::swap(&mut days, &mut self.days);
        days.set(i, (key, day));
        self.days = days;
    }

    fn push_entry(&mut self, key: String, day: DayStat)
        requires
            forall|i: int| 0 <= i < old(self).days@.len() ==> old(self).days@[i].0@ != key@,
        ensures
            final(self).days@ == old(self).days@.push((key, day)),
    {
        proof {
            use_type_invariant(&*self);
            lemma_entries_map_push(self.days@, (key, day));
        }
        let mut days = Vec::new();
        std::mem::swap(&mut days, &mut self.days);
        days.push((key, day));
        self.days = days;
    }

    /// Puts `day` in place of whatever `date` held.
    pub fn set_day(&mut self, date: &str, day: DayStat)
        ensures
            final(self)@ == old(self)@.insert(date@, day),
            final(self).pomodoro_total() == old(self).pomodoro_total() - old(self).day(
                date@,
            ).pomodoros + day.pomodoros,
            final(self).minute_total() == old(self).minute_total() - old(self).day(
                date@,
            ).work_minutes + day.work_minutes,
    {
        proof {
            use_type_invariant(&*self);
            lemma_entries_map(self.days@);
            lemma_sums_match_days(self.days@);
        }
        let key = String::from_str(date);
        match self.find(&key) {
            Some(i) => {
                proof {
                    lemma_entries_map_update(self.days@, i as int, (key, day));
                }
                self.set_entry(i, key, day);
            },
            None => {
                proof {
                    lemma_entries_map_push(self.days@, (key, day));
                }
                self.push_entry(key, day);
            },
        }
        proof {
            use_type_invariant(&*self);
            lemma_sums_match_days(self.days@);
        }
    }

    /// The work sessions and minutes of `date`; none where the date holds nothing.
    pub fn get_day(&self, date: &str) -> (r: (u32, u64))
        ensures
            r == (self.day(date@).pomodoros, self.day(date@).work_minutes),
    {
        proof {
            use_type_invariant(self);
            lemma_entries_map(self.days@);
        }
        let key = String::from_str(date);
        match self.find(&key) {
            Some(i) => (self.days[i].1.pomodoros, self.days[i].1.work_minutes),
            None => (0, 0),
        }
    }

    /// The work sessions and minutes of all days.
    pub fn total(&self) -> (r: (u32, u64))
        requires
            self.pomodoro_total() <= u32::MAX,
            self.minute_total() <= u64::MAX,
        ensures
            r == (self.pomodoro_total() as u32, self.minute_total() as u64),
    {
        proof {
            use_type_invariant(self);
            lemma_sums_match_days(self.days@);
        }
        let mut pomos: u32 = 0;
        let mut mins: u64 = 0;
        let mut i: usize = 0;
        while i < self.days.len()
            invariant
                i <= self.days@.len(),
                pomos == pomodoro_sum(self.days@.take(i as int)),
                mins == minute_sum(self.days@.take(i as int)),
                pomodoro_sum(self.days@) <= u32::MAX,
                minute_sum(self.days@) <= u64::MAX,
            decreases self.days@.len() - i,
        {
            let ghost next = self.days@.take(i + 1);
            assert(next.drop_last() == self.days@.take(i as int));
            proof {
                lemma_sums_grow(self.days@, i + 1);
            }
            pomos = pomos + self.days[i].1.pomodoros;
            mins = mins + self.days[i].1.work_minutes;
            i = i + 1;
        }
        assert(self.days@.take(i as int) == self.days@);
        (pomos, mins)
    }

    /// The number of days that hold statistics.
    pub fn day_count(&self) -> (n: usize)
        ensures
            n == self@.dom().len(),
    {
        proof {
            use_type_invariant(self);
            lemma_entries_map(self.days@);
        }
        self.days.len()
    }

    /// The days, each date with its statistics, in no promised order.
    pub fn days(&self) -> (days: &Vec<(String, DayStat)>)
        ensures
            days@.len() == self@.dom().len(),
            forall|i: int|
                0 <= i < days@.len() ==> self@.dom().contains(#[trigger] days@[i].0@)
                    && self@[days@[i].0@] == days@[i].1,
            forall|i: int, j: int|
                0 <= i < days@.len() && 0 <= j < days@.len() && i != j ==> days@[i].0@
                    != days@[j].0@,
    {
        proof {
            use_type_invariant(self);
            lemma_entries_map(self.days@);
        }
        &self.days
    }
}

proof fn lemma_sums_grow(entries: Seq<(String, DayStat)>, n: int)
    requires
        0 < n <= entries.len(),
    ensures
        pomodoro_sum(entries.take(n)) == pomodoro_sum(entries.take(n - 1))
            + entries[n - 1].1.pomodoros,
        minute_sum(entries.take(n)) == minute_sum(entries.take(n - 1))
            + entries[n - 1].1.work_minutes,
        pomodoro_sum(entries.take(n)) <= pomodoro_sum(entries),
        minute_sum(entries.take(n)) <= minute_sum(entries),
    decreases entries.len(),
{
    assert(entries.take(n).drop_last() == entries.take(n - 1));
    if n < entries.len() {
        let rest = entries.drop_last();
        lemma_sums_grow(rest, n);
        assert(rest.take(n) == entries.take(n));
        assert(rest.take(n - 1) == entries.take(n - 1));
    } else {
        assert(entries.take(n) == entries);
    }
}


/// The label of the `i`-th day back in the history: today, yesterday, then the date.
pub open spec fn history_label(i: int, date: Seq<char>) -> Seq<char> {
    if i == 0 {
        "Today"@
    } else if i == 1 {
        "Yesterday"@
    } else {
        date
    }
}

/// The work sessions of the listed dates.
pub open spec fn history_pomodoros(days: Map<Seq<char>, DayStat>, dates: Seq<Seq<char>>) -> nat
    decreases dates.len(),
{
    if dates.len() == 0 {
        0
    } else {
        history_pomodoros(days, dates.drop_last()) + day_of(days, dates.last()).pomodoros as nat
    }
}

/// The work minutes of the listed dates.
pub open spec fn history_minutes(days: Map<Seq<char>, DayStat>, dates: Seq<Seq<char>>) -> nat
    decreases dates.len(),
{
    if dates.len() == 0 {
        0
    } else {
        history_minutes(days, dates.drop_last()) + day_of(days, dates.last()).work_minutes as nat
    }
}

/// The cells of the bar drawn for a day of `pomodoros` work sessions.
pub open spec fn bar_width(pomodoros: u32) -> u32 {
    if pomodoros < MAX_HISTORY_BAR_WIDTH {
        pomodoros
    } else {
        MAX_HISTORY_BAR_WIDTH
    }
}

/// One day of the history: its label, its statistics where it holds any, and the
/// cells of its bar.
pub struct HistoryRow {
    pub label: String,
    pub day: Option<DayStat>,
    pub bar_cells: u32,
}

/// The history of a list of days: one row per day and the totals of the period.
pub struct HistoryReport {
    pub rows: Vec<HistoryRow>,
    pub pomodoros: u32,
    pub work_minutes: u64,
}

proof fn lemma_history_sums_grow(days: Map<Seq<char>, DayStat>, dates: Seq<Seq<char>>, n: int)
    requires
        0 < n <= dates.len(),
    ensures
        history_pomodoros(days, dates.take(n)) == history_pomodoros(days, dates.take(n - 1))
            + day_of(days, dates[n - 1]).pomodoros,
        history_minutes(days, dates.take(n)) == history_minutes(days, dates.take(n - 1))
            + day_of(days, dates[n - 1]).work_minutes,
        history_pomodoros(days, dates.take(n)) <= history_pomodoros(days, dates),
        history_minutes(days, dates.take(n)) <= history_minutes(days, dates),
    decreases dates.len(),
{
    assert(dates.take(n).drop_last() == dates.take(n - 1));
    if n < dates.len() {
        let rest = dates.drop_last();
        lemma_history_sums_grow(days, rest, n);
        assert(rest.take(n) == dates.take(n));
        assert(rest.take(n - 1) == dates.take(n - 1));
    } else {
        assert(dates.take(n) == dates);
    }
}

impl Stats {
    /// The history of `dates`, listed from today backwards: for each date its label,
    /// its statistics and its bar, and the work sessions and minutes of the period.
    pub fn history(&self, dates: &Vec<String>) -> (report: HistoryReport)
        requires
            history_pomodoros(self@, dates@.map_values(|d: String| d@)) <= u32::MAX,
            history_minutes(self@, dates@.map_values(|d: String| d@)) <= u64::MAX,
        ensures
            report.rows@.len() == dates@.len(),
            forall|i: int|
                #![trigger report.rows@[i]]
                0 <= i < dates@.len() ==> {
                    &&& report.rows@[i].label@ == history_label(i, dates@[i]@)
                    &&& report.rows@[i].day == if self@.dom().contains(dates@[i]@) {
                        Some(self@[dates@[i]@])
                    } else {
                        None::<DayStat>
                    }
                    &&& report.rows@[i].bar_cells == bar_width(
                        self.day(dates@[i]@).pomodoros,
                    )
                },
            report.pomodoros == history_pomodoros(self@, dates@.map_values(|d: String| d@)),
            report.work_minutes == history_minutes(self@, dates@.map_values(|d: String| d@)),
    {
        proof {
            use_type_invariant(self);
            lemma_entries_map(self.days@);
        }
        let ghost names = dates@.map_values(|d: String| d@);
        let mut rows: Vec<HistoryRow> = Vec::new();
        let mut pomodoros: u32 = 0;
        let mut work_minutes: u64 = 0;
        let mut i: usize = 0;
        while i < dates.len()
            invariant
                i <= dates@.len(),
                names == dates@.map_values(|d: String| d@),
                dates_distinct(self.days@),
                self@ == entries_map(self.days@),
                rows@.len() == i,
                forall|j: int|
                    #![trigger rows@[j]]
                    0 <= j < i ==> {
                        &&& rows@[j].label@ == history_label(j, dates@[j]@)
                        &&& rows@[j].day == if self@.dom().contains(dates@[j]@) {
                            Some(self@[dates@[j]@])
                        } else {
                            None::<DayStat>
                        }
                        &&& rows@[j].bar_cells == bar_width(self.day(dates@[j]@).pomodoros)
                    },
                pomodoros == history_pomodoros(self@, names.take(i as int)),
                work_minutes == history_minutes(self@, names.take(i as int)),
                history_pomodoros(self@, names) <= u32::MAX,
                history_minutes(self@, names) <= u64::MAX,
            decreases dates@.len() - i,
        {
            proof {
                lemma_history_sums_grow(self@, names, i + 1);
                lemma_entries_map(self.days@);
            }
            let label = if i == 0 {
                String::from_str("Today")
            } else if i == 1 {
                String::from_str("Yesterday")
            } else {
                dates[i].clone()
            };
            let day = match self.find(&dates[i]) {
                Some(k) => Some(self.days[k].1),
                None => None,
            };
            let bar_cells = match day {
                Some(d) => {
                    pomodoros = pomodoros + d.pomodoros;
                    work_minutes = work_minutes + d.work_minutes;
                    if d.pomodoros < MAX_HISTORY_BAR_WIDTH {
                        d.pomodoros
                    } else {
                        MAX_HISTORY_BAR_WIDTH
                    }
                },
                None => 0,
            };
            rows.push(HistoryRow { label, day, bar_cells });
            i = i + 1;
        }
        assert(names.take(dates@.len() as int) == names);
        HistoryReport { rows, pomodoros, work_minutes }
    }
}

/// Recording a work session on a day counts one more session and its minutes there,
/// and leaves every other day as it was; a day never recorded holds nothing.
pub proof fn lemma_record_touches_one_day(
    days: Map<Seq<char>, DayStat>,
    date: Seq<char>,
    other: Seq<char>,
    minutes: u64,
)
    requires
        day_of(days, date).pomodoros < u32::MAX,
        day_of(days, date).work_minutes + minutes <= u64::MAX,
        other != date,
    ensures
        day_of(with_recorded(days, date, minutes), date).pomodoros == day_of(days, date).pomodoros
            + 1,
        day_of(with_recorded(days, date, minutes), date).work_minutes == day_of(
            days,
            date,
        ).work_minutes + minutes,
        day_of(with_recorded(days, date, minutes), other) == day_of(days, other),
        day_of(Map::empty(), date) == empty_day(),
{
}

impl Default for Stats {
    fn default() -> (s: Stats)
        ensures
            s@ == Map::<Seq<char>, DayStat>::empty(),
            s.pomodoro_total() == 0,
            s.minute_total() == 0,
    {
        Stats::new()
    }
}

} // verus!
