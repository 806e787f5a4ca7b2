use vstd::prelude::*;

use crate::clock::LocalDateTime;
use crate::medicine::{medicine_at, Medicine, MedicineTimer, MEDICINE_COUNT};

verus! {

/// A dose that was taken: which medicine, and when.
#[derive(Debug, PartialEq, Eq, Structural, Copy, Clone)]
pub struct Action {
    pub medicine: Medicine,
    pub taken_at: LocalDateTime,
}

impl Action {
    /// A dose of `medicine` taken now.
    pub fn new(medicine: Medicine) -> (r: Action)
        ensures
            r.medicine == medicine,
            r.taken_at.wf(),
    {
        Action { medicine, taken_at: LocalDateTime::now() }
    }
}

/// Static settings of one medicine.
#[derive(Debug, PartialEq, Eq, Structural, Copy, Clone)]
pub struct MedicineConfig {
    /// Doses allowed per day.
    pub max_limit: usize,
    /// Cooldown after a dose, in seconds.
    pub default_duration: u64,
}

/// The catalog's daily dose limit of each medicine.
pub open spec fn limit_of(m: Medicine) -> nat {
    match m {
        Medicine::Cephalexin => 4,
        Medicine::Oxycodone => usize::MAX as nat,
        Medicine::Ibuprofen => 4,
        Medicine::Lorazepam => 1,
        Medicine::Allegra => 1,
    }
}

/// The catalog's cooldown of each medicine, in seconds.
pub open spec fn cooldown_of(m: Medicine) -> nat {
    match m {
        Medicine::Cephalexin => 30,
        Medicine::Oxycodone => 120,
        Medicine::Ibuprofen => 30,
        Medicine::Lorazepam => 30,
        Medicine::Allegra => 30,
    }
}

/// The outcome of asking for a dose, and the count that follows it: a dose
/// is accepted exactly when one more stays within the limit.
pub open spec fn dose_step(count: nat, limit: nat) -> (bool, nat) {
    if count + 1 <= limit {
        (true, count + 1)
    } else {
        (false, count)
    }
}

/// How many of `actions` are doses of `m`.
pub open spec fn occurrences(actions: Seq<Action>, m: Medicine) -> nat
    decreases actions.len(),
{
    if actions.len() == 0 {
        0
    } else {
        occurrences(actions.drop_last(), m) + if actions.last().medicine == m {
            1nat
        } else {
            0nat
        }
    }
}

/// How many of `actions` are doses of `m` taken from `start` through `end`
/// (seconds since the epoch, both included).
pub open spec fn occurrences_between(actions: Seq<Action>, m: Medicine, start: int, end: int) -> nat
    decreases actions.len(),
{
    if actions.len() == 0 {
        0
    } else {
        let a = actions.last();
        occurrences_between(actions.drop_last(), m, start, end) + if a.medicine == m && start
            <= a.taken_at.timestamp <= end {
            1nat
        } else {
            0nat
        }
    }
}

/// The doses of `m` among `actions` that fall in `window`; every dose of `m`
/// when there is no window.
pub open spec fn window_count(actions: Seq<Action>, m: Medicine, window: Option<(i64, i64)>) -> nat {
    match window {
        Some((start, end)) => occurrences_between(actions, m, start as int, end as int),
        None => occurrences(actions, m),
    }
}

proof fn lemma_window_count_bounded(actions: Seq<Action>, m: Medicine, window: Option<(i64, i64)>)
    ensures
        window_count(actions, m, window) <= actions.len(),
    decreases actions.len(),
{
    if actions.len() > 0 {
        lemma_window_count_bounded(actions.drop_last(), m, window);
    }
}

/// Seconds left of a cooldown of `duration` seconds that started at `since`,
/// seen at `now`: never negative, zero from `since + duration` on, and capped
/// at the largest `u64`.
pub open spec fn remaining_secs(since: int, duration: int, now: int) -> int {
    if since + duration <= now {
        0
    } else if since + duration - now > u64::MAX {
        u64::MAX as int
    } else {
        since + duration - now
    }
}

/// The character of decimal digit `d`.
pub open spec fn digit_char(d: nat) -> char {
    if d == 0 {
        '0'
    } else if d == 1 {
        '1'
    } else if d == 2 {
        '2'
    } else if d == 3 {
        '3'
    } else if d == 4 {
        '4'
    } else if d == 5 {
        '5'
    } else if d == 6 {
        '6'
    } else if d == 7 {
        '7'
    } else if d == 8 {
        '8'
    } else {
        '9'
    }
}

/// The decimal digits of `n`, without leading zeros.
pub open spec fn decimal(n: nat) -> Seq<char>
    decreases n,
{
    if n < 10 {
        seq![digit_char(n)]
    } else {
        decimal(n / 10) + seq![digit_char(n % 10)]
    }
}

/// The decimal digits of `n`, padded with a zero to at least two.
pub open spec fn two_digits(n: nat) -> Seq<char> {
    if n < 10 {
        seq!['0', digit_char(n)]
    } else {
        decimal(n)
    }
}

/// A number of seconds as `HH:MM:SS`; the hours take more digits when needed.
pub open spec fn clock_text(t: nat) -> Seq<char> {
    two_digits(t / 3600) + seq![':'] + two_digits((t % 3600) / 60) + seq![':'] + two_digits(
        t % 60,
    )
}

/// One part of the remaining-time summary: `Name: HH:MM:SS`.
pub open spec fn summary_entry(m: Medicine, secs: nat) -> Seq<char> {
    m.name_spec() + seq![':', ' '] + clock_text(secs)
}

/// The summary over the first `k` medicines of the catalog order: one entry
/// per medicine in cooldown, separated by `, `.
pub open spec fn summary_upto(timer: Seq<(bool, i64)>, now: int, k: nat) -> Seq<char>
    decreases k,
{
    if k == 0 {
        Seq::empty()
    } else {
        let prev = summary_upto(timer, now, (k - 1) as nat);
        let m = medicine_at(k - 1);
        if timer[k - 1].0 {
            let e = summary_entry(m, remaining_secs(timer[k - 1].1 as int, cooldown_of(m) as int, now) as nat);
            if prev.len() == 0 {
                e
            } else {
                prev + seq![',', ' '] + e
            }
        } else {
            prev
        }
    }
}

/// The start of the most recent dose of `m` among `actions`, if any.
pub open spec fn latest_dose(actions: Seq<Action>, m: Medicine) -> Option<i64>
    decreases actions.len(),
{
    if actions.len() == 0 {
        None
    } else {
        let prev = latest_dose(actions.drop_last(), m);
        let t = actions.last().taken_at.timestamp;
        if actions.last().medicine != m {
            prev
        } else {
            match prev {
                Some(p) => if p >= t { Some(p) } else { Some(t) },
                None => Some(t),
            }
        }
    }
}

/// For the first `k` medicines of the catalog order that have a dose among
/// `actions`: the medicine and the cooldown left of its most recent dose.
pub open spec fn durations_upto(actions: Seq<Action>, now: int, k: nat) -> Seq<(Medicine, u64)>
    decreases k,
{
    if k == 0 {
        Seq::empty()
    } else {
        let prev = durations_upto(actions, now, (k - 1) as nat);
        let m = medicine_at(k - 1);
        match latest_dose(actions, m) {
            Some(t) => prev.push((m, remaining_secs(t as int, cooldown_of(m) as int, now) as u64)),
            None => prev,
        }
    }
}

/// The timer entry that a restart gives `m`: in cooldown since its most
/// recent dose while time is left of it, idle and stamped `now` otherwise.
pub open spec fn reconstructed_entry(actions: Seq<Action>, m: Medicine, now: i64) -> (bool, i64) {
    match latest_dose(actions, m) {
        Some(t) => if remaining_secs(t as int, cooldown_of(m) as int, now as int) > 0 {
            (true, t)
        } else {
            (false, now)
        },
        None => (false, now),
    }
}

/// What the interactive loop does with a request for a dose.
#[derive(Debug, PartialEq, Eq, Structural, Copy, Clone)]
pub enum DoseDecision {
    /// The medicine is still in cooldown; nothing was recorded.
    InCooldown,
    /// The dose was recorded; a cooldown of `duration` seconds follows.
    Accepted { duration: u64 },
    /// The daily limit is reached; nothing was recorded.
    LimitExceeded,
}

/// The decision for a dose of `m` when the timer says `cooling` and `count`
/// doses are counted today.
pub open spec fn decision_spec(cooling: bool, count: nat, m: Medicine) -> DoseDecision {
    if cooling {
        DoseDecision::InCooldown
    } else if dose_step(count, limit_of(m)).0 {
        DoseDecision::Accepted { duration: cooldown_of(m) as u64 }
    } else {
        DoseDecision::LimitExceeded
    }
}

/// Decimal text of a digit.
fn digit_str(d: u64) -> (r: &'static str)
    requires
        d < 10,
    ensures
        r@ == seq![digit_char(d as nat)],
{
    if d == 0 {
        proof { reveal_strlit("0"); }
        "0"
    } else if d == 1 {
        proof { reveal_strlit("1"); }
        "1"
    } else if d == 2 {
        proof { reveal_strlit("2"); }
        "2"
    } else if d == 3 {
        proof { reveal_strlit("3"); }
        "3"
    } else if d == 4 {
        proof { reveal_strlit("4"); }
        "4"
    } else if d == 5 {
        proof { reveal_strlit("5"); }
        "5"
    } else if d == 6 {
        proof { reveal_strlit("6"); }
        "6"
    } else if d == 7 {
        proof { reveal_strlit("7"); }
        "7"
    } else if d == 8 {
        proof { reveal_strlit("8"); }
        "8"
    } else {
        proof { reveal_strlit("9"); }
        "9"
    }
}

/// Appends the decimal digits of `n`.
fn push_decimal(out: &mut String, n: u64)
    ensures
        final(out)@ == old(out)@ + decimal(n as nat),
    decreases n,
{
    if n >= 10 {
        push_decimal(out, n / 10);
        out.append(digit_str(n % 10));
        proof {
            let a = old(out)@;
            let b = decimal((n / 10) as nat);
            let c = seq![digit_char((n % 10) as nat)];
            assert(a + b + c =~= a + (b + c));
        }
    } else {
        out.append(digit_str(n));
    }
}

/// Appends the decimal digits of `n`, padded with a zero to at least two.
fn push_two_digits(out: &mut String, n: u64)
    ensures
        final(out)@ == old(out)@ + two_digits(n as nat),
{
    if n < 10 {
        proof { reveal_strlit("0"); }
        out.append("0");
        push_decimal(out, n);
        proof {
            assert(old(out)@ + seq!['0'] + seq![digit_char(n as nat)] =~= old(out)@ + two_digits(n as nat));
        }
    } else {
        push_decimal(out, n);
    }
}

/// The start of the most recent dose of `m` in `actions`, if any.
fn latest_dose_of(actions: &Vec<Action>, m: Medicine) -> (r: Option<i64>)
    ensures
        r == latest_dose(actions@, m),
{
    let mut latest: Option<i64> = None;
    let mut i: usize = 0;
    while i < actions.len()
        invariant
            i <= actions@.len(),
            latest == latest_dose(actions@.take(i as int), m),
        decreases actions@.len() - i,
    {
        let a = actions[i];
        if a.medicine == m {
            latest = match latest {
                Some(p) => if p >= a.taken_at.timestamp { Some(p) } else { Some(a.taken_at.timestamp) },
                None => Some(a.taken_at.timestamp),
            };
        }
        proof {
            let prefix = actions@.take(i as int + 1);
            assert(prefix.drop_last() =~= actions@.take(i as int));
            assert(prefix.last() == actions@[i as int]);
        }
        i = i + 1;
    }
    assert(actions@.take(i as int) =~= actions@);
    latest
}

/// The daily dose counts and the catalog they are checked against.
#[derive(Clone)]
pub struct Config {
    medicines: Vec<MedicineConfig>,
    conf: Vec<usize>,
}

impl Config {
    /// Both tables hold one entry per medicine.
    pub closed spec fn sized(self) -> bool {
        self.medicines@.len() == MEDICINE_COUNT && self.conf@.len() == MEDICINE_COUNT
    }

    /// Doses of `m` counted today.
    pub closed spec fn count(self, m: Medicine) -> nat {
        self.conf@[m.slot()] as nat
    }

    /// The daily limit held for `m`.
    pub closed spec fn limit(self, m: Medicine) -> nat {
        self.medicines@[m.slot()].max_limit as nat
    }

    /// The cooldown held for `m`, in seconds.
    pub closed spec fn cooldown(self, m: Medicine) -> nat {
        self.medicines@[m.slot()].default_duration as nat
    }

    /// The tables follow the catalog. A count may stand above its limit when
    /// a history holds more doses than the limit allows.
    pub open spec fn wf(self) -> bool {
        &&& self.sized()
        &&& forall|m: Medicine| #[trigger] self.limit(m) == limit_of(m)
        &&& forall|m: Medicine| #[trigger] self.cooldown(m) == cooldown_of(m)
    }

    /// The catalog entry of the medicine at position `i`.
    fn catalog_entry(i: usize) -> (r: MedicineConfig)
        requires
            i < MEDICINE_COUNT,
        ensures
            r.max_limit as nat == limit_of(medicine_at(i as int)),
            r.default_duration as nat == cooldown_of(medicine_at(i as int)),
    {
        if i == 0 {
            MedicineConfig { max_limit: 4, default_duration: 30 }
        } else if i == 1 {
            MedicineConfig { max_limit: usize::MAX, default_duration: 120 }
        } else if i == 2 {
            MedicineConfig { max_limit: 4, default_duration: 30 }
        } else if i == 3 {
            MedicineConfig { max_limit: 1, default_duration: 30 }
        } else {
            MedicineConfig { max_limit: 1, default_duration: 30 }
        }
    }

    /// The catalog with no dose counted.
    pub fn new() -> (r: Config)
        ensures
            r.wf(),
            forall|m: Medicine| #[trigger] r.count(m) == 0,
    {
        let mut medicines: Vec<MedicineConfig> = Vec::new();
        let mut conf: Vec<usize> = Vec::new();
        let mut i: usize = 0;
        while i < MEDICINE_COUNT
            invariant
                i <= MEDICINE_COUNT,
                medicines@.len() == i,
                conf@.len() == i,
                forall|k: int| 0 <= k < i ==> conf@[k] == 0,
                forall|k: int|
                    0 <= k < i ==> (#[trigger] medicines@[k]).max_limit as nat == limit_of(
                        medicine_at(k),
                    ) && medicines@[k].default_duration as nat == cooldown_of(medicine_at(k)),
            decreases MEDICINE_COUNT - i,
        {
            medicines.push(Config::catalog_entry(i));
            conf.push(0);
            i = i + 1;
        }
        let r = Config { medicines, conf };
        assert forall|m: Medicine| r.limit(m) == limit_of(m) && r.cooldown(m) == cooldown_of(m)
            && r.count(m) == 0 by {
            assert(medicine_at(m.slot()) == m);
            assert(r.medicines@[m.slot()].max_limit as nat == limit_of(medicine_at(m.slot())));
        }
        r
    }

    /// Counts one more dose of `medicine`, whatever its limit.
    fn increment_count(&mut self, medicine: &Medicine)
        requires
            old(self).wf(),
            old(self).count(*medicine) < usize::MAX,
        ensures
            final(self).wf(),
            final(self).count(*medicine) == old(self).count(*medicine) + 1,
            forall|m: Medicine| m != *medicine ==> #[trigger] final(self).count(m) == old(self).count(m),
    {
        let i = medicine.index();
        let val = self.conf[i];
        self.conf.set(i, val + 1);
        assert forall|m: Medicine| m != *medicine implies #[trigger] self.count(m) == old(self).count(m) by {
            assert(m.slot() != medicine.slot());
        }
        assert forall|m: Medicine| #[trigger] self.limit(m) == limit_of(m) by {
            assert(old(self).limit(m) == limit_of(m));
        }
        assert forall|m: Medicine| #[trigger] self.cooldown(m) == cooldown_of(m) by {
            assert(old(self).cooldown(m) == cooldown_of(m));
        }
    }

    /// Records a dose of `med` when one more stays within its daily limit,
    /// and says whether it did; a refused dose changes nothing.
    pub fn check_and_insert(&mut self, med: &Medicine) -> (r: bool)
        requires
            old(self).wf(),
        ensures
            final(self).wf(),
            (r, final(self).count(*med)) == dose_step(old(self).count(*med), limit_of(*med)),
            forall|m: Medicine| m != *med ==> #[trigger] final(self).count(m) == old(self).count(m),
    {
        let i = med.index();
        let val = self.conf[i];
        let limit = self.medicines[i].max_limit;
        assert(self.limit(*med) == limit_of(*med));
        if val < limit {
            self.conf.set(i, val + 1);
            assert forall|m: Medicine| m != *med implies #[trigger] self.count(m) == old(self).count(m) by {
                assert(m.slot() != med.slot());
            }
            assert forall|m: Medicine| #[trigger] self.limit(m) == limit_of(m) by {
                assert(old(self).limit(m) == limit_of(m));
            }
            assert forall|m: Medicine| #[trigger] self.cooldown(m) == cooldown_of(m) by {
                assert(old(self).cooldown(m) == cooldown_of(m));
            }
            true
        } else {
            false
        }
    }

    /// The daily dose limit of `med`.
    pub fn get_max_limit(&self, med: &Medicine) -> (r: usize)
        requires
            self.wf(),
        ensures
            r as nat == limit_of(*med),
    {
        assert(self.limit(*med) == limit_of(*med));
        self.medicines[med.index()].max_limit
    }

    /// Doses of `med` counted today.
    pub fn dose_count(&self, med: &Medicine) -> (r: usize)
        requires
            self.wf(),
        ensures
            r as nat == self.count(*med),
    {
        self.conf[med.index()]
    }

    /// The cooldown of `med`, in seconds.
    pub fn get_default_duration(&self, med: &Medicine) -> (r: u64)
        requires
            self.wf(),
        ensures
            r as nat == cooldown_of(*med),
    {
        assert(self.cooldown(*med) == cooldown_of(*med));
        self.medicines[med.index()].default_duration
    }

    /// Seconds left of the cooldown of `medicine` after a dose at `taken_at`,
    /// seen at `now` (all instants in seconds since the epoch).
    pub fn calculate_remaining_time(&self, medicine: &Medicine, taken_at: i64, now: i64) -> (r: u64)
        requires
            self.wf(),
        ensures
            r as int == remaining_secs(taken_at as int, cooldown_of(*medicine) as int, now as int),
    {
        let duration = self.get_default_duration(medicine);
        let end: i128 = taken_at as i128 + duration as i128;
        let current: i128 = now as i128;
        if end <= current {
            0
        } else if end - current > u64::MAX as i128 {
            u64::MAX
        } else {
            (end - current) as u64
        }
    }

    /// A number of seconds as zero-padded `HH:MM:SS`.
    pub fn format_seconds(&self, remaining_time: u64) -> (r: String)
        ensures
            r@ == clock_text(remaining_time as nat),
    {
        let hours = remaining_time / 3600;
        let minutes = (remaining_time % 3600) / 60;
        let seconds = remaining_time % 60;
        let mut out = String::new();
        push_two_digits(&mut out, hours);
        proof { reveal_strlit(":"); }
        out.append(":");
        push_two_digits(&mut out, minutes);
        out.append(":");
        push_two_digits(&mut out, seconds);
        proof {
            let t = remaining_time as nat;
            assert(out@ =~= clock_text(t));
        }
        out
    }

    /// The remaining time of every medicine in cooldown at `now`, in catalog
    /// order, as `Name: HH:MM:SS` parts joined by `, `.
    pub fn calculate_all_remaining_at(&self, timer: &MedicineTimer, now: i64) -> (r: String)
        requires
            self.wf(),
            timer.wf(),
        ensures
            r@ == summary_upto(timer@, now as int, MEDICINE_COUNT as nat),
    {
        let mut out = String::new();
        let mut empty = true;
        let mut i: usize = 0;
        while i < MEDICINE_COUNT
            invariant
                self.wf(),
                timer.wf(),
                i <= MEDICINE_COUNT,
                empty <==> out@.len() == 0,
                out@ == summary_upto(timer@, now as int, i as nat),
            decreases MEDICINE_COUNT - i,
        {
            let medicine = Medicine::from_index(i);
            let (active, since) = timer.get_field(&medicine);
            if active {
                let secs = self.calculate_remaining_time(&medicine, since, now);
                let ghost prev = out@;
                if !empty {
                    proof { reveal_strlit(", "); }
                    out.append(", ");
                }
                out.append(medicine.as_str());
                proof { reveal_strlit(": "); }
                out.append(": ");
                let text = self.format_seconds(secs);
                out.append(text.as_str());
                empty = false;
                proof {
                    let e = summary_entry(medicine, secs as nat);
                    if prev.len() == 0 {
                        assert(out@ =~= e);
                    } else {
                        assert(out@ =~= prev + seq![',', ' '] + e);
                    }
                }
            }
            i = i + 1;
        }
        out
    }

    /// The remaining time of every medicine in cooldown, in catalog order, as
    /// `Name: HH:MM:SS` parts joined by `, `, seen at the current time.
    pub fn calculate_all_remaining(&self, timer: &MedicineTimer) -> (r: String)
        requires
            self.wf(),
            timer.wf(),
        ensures
            exists|now: i64| r@ == summary_upto(timer@, now as int, MEDICINE_COUNT as nat),
    {
        let now = LocalDateTime::now().timestamp;
        self.calculate_all_remaining_at(timer, now)
    }

    /// For each medicine with a dose in `list_of_actions`, in catalog order:
    /// the cooldown left at `now` of its most recent dose (zero once over).
    pub fn create_timer_durations_at(&self, list_of_actions: &Vec<Action>, now: i64) -> (r: Vec<(Medicine, u64)>)
        requires
            self.wf(),
        ensures
            r@ == durations_upto(list_of_actions@, now as int, MEDICINE_COUNT as nat),
    {
        let mut result: Vec<(Medicine, u64)> = Vec::new();
        let mut i: usize = 0;
        while i < MEDICINE_COUNT
            invariant
                self.wf(),
                i <= MEDICINE_COUNT,
                result@ == durations_upto(list_of_actions@, now as int, i as nat),
            decreases MEDICINE_COUNT - i,
        {
            let medicine = Medicine::from_index(i);
            match latest_dose_of(list_of_actions, medicine) {
                Some(t) => {
                    let left = self.calculate_remaining_time(&medicine, t, now);
                    result.push((medicine, left));
                },
                None => {},
            }
            i = i + 1;
        }
        result
    }

    /// For each medicine with a dose in `list_of_actions`, in catalog order:
    /// the cooldown left, at the current time, of its most recent dose.
    pub fn create_timer_durations(&self, list_of_actions: &Vec<Action>) -> (r: Vec<(Medicine, u64)>)
        requires
            self.wf(),
        ensures
            exists|now: i64| r@ == durations_upto(list_of_actions@, now as int, MEDICINE_COUNT as nat),
    {
        let now = LocalDateTime::now().timestamp;
        self.create_timer_durations_at(list_of_actions, now)
    }

    /// The timer a restart at `now` rebuilds from `list_of_actions`: each
    /// medicine whose most recent dose still has cooldown left is in cooldown
    /// since that dose; every other one is idle.
    pub fn create_timer_from_actions(&self, list_of_actions: &Vec<Action>, now: i64) -> (r: MedicineTimer)
        requires
            self.wf(),
        ensures
            r.wf(),
            forall|m: Medicine| #[trigger] r@[m.slot()] == reconstructed_entry(list_of_actions@, m, now),
    {
        let mut timer = MedicineTimer::new_at(now);
        let mut i: usize = 0;
        while i < MEDICINE_COUNT
            invariant
                self.wf(),
                timer.wf(),
                i <= MEDICINE_COUNT,
                forall|k: int| 0 <= k < i ==> #[trigger] timer@[k] == reconstructed_entry(list_of_actions@, medicine_at(k), now),
                forall|k: int| i <= k < MEDICINE_COUNT ==> #[trigger] timer@[k] == (false, now),
            decreases MEDICINE_COUNT - i,
        {
            let medicine = Medicine::from_index(i);
            match latest_dose_of(list_of_actions, medicine) {
                Some(t) => {
                    if self.calculate_remaining_time(&medicine, t, now) > 0 {
                        timer.start(&medicine, t);
                    }
                },
                None => {},
            }
            i = i + 1;
        }
        proof {
            assert forall|m: Medicine| #[trigger] timer@[m.slot()] == reconstructed_entry(list_of_actions@, m, now) by {
                assert(medicine_at(m.slot()) == m);
            }
        }
        timer
    }

    /// Handles a request for a dose of `medicine`: refused while it is in
    /// cooldown, otherwise recorded when the daily limit allows it.
    pub fn request_dose(&mut self, timer: &MedicineTimer, medicine: &Medicine) -> (r: DoseDecision)
        requires
            old(self).wf(),
            timer.wf(),
        ensures
            final(self).wf(),
            r == decision_spec(timer.active(*medicine), old(self).count(*medicine), *medicine),
            final(self).count(*medicine) == (if r == DoseDecision::InCooldown {
                old(self).count(*medicine)
            } else {
                dose_step(old(self).count(*medicine), limit_of(*medicine)).1
            }),
            forall|m: Medicine| m != *medicine ==> #[trigger] final(self).count(m) == old(self).count(m),
    {
        if timer.check(medicine) {
            DoseDecision::InCooldown
        } else if self.check_and_insert(medicine) {
            DoseDecision::Accepted { duration: self.get_default_duration(medicine) }
        } else {
            DoseDecision::LimitExceeded
        }
    }

    /// Whether every count equals the number of doses of its medicine among
    /// `actions` that fall in `window`.
    pub open spec fn counts_match(self, actions: Seq<Action>, window: Option<(i64, i64)>) -> bool {
        forall|m: Medicine| #[trigger] self.count(m) == window_count(actions, m, window)
    }

    /// The ledger after replaying the doses of `list_of_actions` that fall in
    /// `window` (every dose when it is `None`) onto an empty day; counts may
    /// end above their limits.
    pub fn from_actions_within(list_of_actions: &[Action], window: Option<(i64, i64)>) -> (r: Config)
        ensures
            r.wf(),
            r.counts_match(list_of_actions@, window),
    {
        let mut config = Config::new();
        let mut i: usize = 0;
        while i < list_of_actions.len()
            invariant
                i <= list_of_actions@.len(),
                config.wf(),
                config.counts_match(list_of_actions@.take(i as int), window),
            decreases list_of_actions@.len() - i,
        {
            let action = list_of_actions[i];
            let counts = match window {
                Some((start, end)) => start <= action.taken_at.timestamp && action.taken_at.timestamp <= end,
                None => true,
            };
            proof {
                let prefix = list_of_actions@.take(i as int + 1);
                assert(prefix.drop_last() =~= list_of_actions@.take(i as int));
                assert(prefix.last() == list_of_actions@[i as int]);
                lemma_window_count_bounded(list_of_actions@.take(i as int), action.medicine, window);
                assert(config.count(action.medicine) == window_count(list_of_actions@.take(i as int), action.medicine, window));
            }
            if counts {
                config.increment_count(&action.medicine);
            }
            i = i + 1;
        }
        assert(list_of_actions@.take(i as int) =~= list_of_actions@);
        config
    }

    /// The ledger after replaying every dose of `list_of_actions` onto an
    /// empty day: each count is the raw number of doses, even above the limit.
    pub fn from_actions(list_of_actions: &[Action]) -> (r: Config)
        ensures
            r.wf(),
            forall|m: Medicine| #[trigger] r.count(m) == occurrences(list_of_actions@, m),
    {
        let r = Config::from_actions_within(list_of_actions, None);
        assert forall|m: Medicine| #[trigger] r.count(m) == occurrences(list_of_actions@, m) by {
            assert(r.count(m) == window_count(list_of_actions@, m, None));
        }
        r
    }

    /// The ledger of the local calendar day that holds `now`: only doses from
    /// its first through its last second count. Where the local time zone
    /// gives no such day, every dose counts.
    pub fn seed_from_history(list_of_actions: &[Action], now: i64) -> (r: Config)
        ensures
            r.wf(),
            exists|window: Option<(i64, i64)>|
                (window matches Some(w) ==> w.0 <= now <= w.1) && #[trigger] r.counts_match(
                    list_of_actions@,
                    window,
                ),
    {
        let window = LocalDateTime::local_day_window(now);
        let r = Config::from_actions_within(list_of_actions, window);
        assert(r.counts_match(list_of_actions@, window));
        r
    }
}


/// The count after `n` requests for doses, starting from `count`, each one
/// handled as the ledger handles a request.
pub open spec fn ledger_after(count: nat, limit: nat, n: nat) -> nat
    decreases n,
{
    if n == 0 {
        count
    } else {
        dose_step(ledger_after(count, limit, (n - 1) as nat), limit).1
    }
}

proof fn lemma_ledger_counts_up(limit: nat, k: nat)
    requires
        k <= limit,
    ensures
        ledger_after(0, limit, k) == k,
    decreases k,
{
    if k > 0 {
        lemma_ledger_counts_up(limit, (k - 1) as nat);
    }
}

/// Starting from an empty day, each of the first `limit_of(m)` requests for
/// `m` is accepted and adds one to the count; the request after them is
/// refused and the count stays at the limit.
pub proof fn lemma_daily_limit(m: Medicine)
    ensures
        forall|k: nat|
            k < limit_of(m) ==> #[trigger] dose_step(ledger_after(0, limit_of(m), k), limit_of(m))
                == (true, k + 1),
        ledger_after(0, limit_of(m), limit_of(m)) == limit_of(m),
        dose_step(ledger_after(0, limit_of(m), limit_of(m)), limit_of(m)) == (false, limit_of(m)),
{
    let limit = limit_of(m);
    assert forall|k: nat| k < limit implies #[trigger] dose_step(ledger_after(0, limit, k), limit)
        == (true, k + 1) by {
        lemma_ledger_counts_up(limit, k);
    }
    lemma_ledger_counts_up(limit, limit);
}

/// Replaying a history that holds at least as many doses of `m` as its limit
/// gives the raw count, and from there every further request for `m` is
/// refused and leaves the count as it is.
pub proof fn lemma_seeded_over_limit(actions: Seq<Action>, m: Medicine, n: nat)
    requires
        occurrences(actions, m) >= limit_of(m),
    ensures
        ledger_after(occurrences(actions, m), limit_of(m), n) == occurrences(actions, m),
        dose_step(ledger_after(occurrences(actions, m), limit_of(m), n), limit_of(m)) == (
        false,
        occurrences(actions, m),
        ),
    decreases n,
{
    if n > 0 {
        lemma_seeded_over_limit(actions, m, (n - 1) as nat);
    }
}

/// The cooldown left is never negative; it is zero from `since + duration`
/// on; and before that it shrinks strictly as time passes (while it is
/// below the `u64` cap).
pub proof fn lemma_remaining_decreases(since: int, duration: int, earlier: int, later: int)
    ensures
        remaining_secs(since, duration, earlier) >= 0,
        earlier >= since + duration ==> remaining_secs(since, duration, earlier) == 0,
        earlier < later && since + duration - earlier <= u64::MAX && later < since + duration
            ==> remaining_secs(since, duration, later) < remaining_secs(since, duration, earlier),
{
}

} // verus!
