use vstd::prelude::*;

use crate::clock::LocalDateTime;

verus! {

/// The closed set of medicines the catalog knows about.
#[derive(Debug, Hash, PartialEq, Eq, Structural, Copy, Clone)]
pub enum Medicine {
    Cephalexin,
    Oxycodone,
    Ibuprofen,
    Lorazepam,
    Allegra,
}

/// Number of medicines in the closed enumeration.
pub const MEDICINE_COUNT: usize = 5;

/// The medicine stored at position `i` of every per-medicine table.
pub open spec fn medicine_at(i: int) -> Medicine {
    if i == 0 {
        Medicine::Cephalexin
    } else if i == 1 {
        Medicine::Oxycodone
    } else if i == 2 {
        Medicine::Ibuprofen
    } else if i == 3 {
        Medicine::Lorazepam
    } else {
        Medicine::Allegra
    }
}

impl Medicine {
    /// Position of this medicine in every per-medicine table.
    pub open spec fn slot(self) -> int {
        match self {
            Medicine::Cephalexin => 0,
            Medicine::Oxycodone => 1,
            Medicine::Ibuprofen => 2,
            Medicine::Lorazepam => 3,
            Medicine::Allegra => 4,
        }
    }

    pub fn index(&self) -> (r: usize)
        ensures
            r as int == self.slot(),
            r < MEDICINE_COUNT,
            medicine_at(r as int) == *self,
    {
        match self {
            Medicine::Cephalexin => 0,
            Medicine::Oxycodone => 1,
            Medicine::Ibuprofen => 2,
            Medicine::Lorazepam => 3,
            Medicine::Allegra => 4,
        }
    }

    /// The medicine at position `i` of the catalog order.
    pub fn from_index(i: usize) -> (r: Medicine)
        requires
            i < MEDICINE_COUNT,
        ensures
            r == medicine_at(i as int),
            r.slot() == i as int,
    {
        if i == 0 {
            Medicine::Cephalexin
        } else if i == 1 {
            Medicine::Oxycodone
        } else if i == 2 {
            Medicine::Ibuprofen
        } else if i == 3 {
            Medicine::Lorazepam
        } else {
            Medicine::Allegra
        }
    }

    /// The medicine's display and storage name.
    pub open spec fn name_spec(self) -> Seq<char> {
        match self {
            Medicine::Cephalexin => seq!['C', 'e', 'p', 'h', 'a', 'l', 'e', 'x', 'i', 'n'],
            Medicine::Oxycodone => seq!['O', 'x', 'y', 'c', 'o', 'd', 'o', 'n', 'e'],
            Medicine::Ibuprofen => seq!['I', 'b', 'u', 'p', 'r', 'o', 'f', 'e', 'n'],
            Medicine::Lorazepam => seq!['L', 'o', 'r', 'a', 'z', 'e', 'p', 'a', 'm'],
            Medicine::Allegra => seq!['A', 'l', 'l', 'e', 'g', 'r', 'a'],
        }
    }

    /// The name as a string slice, the form in which it is printed and stored.
    pub fn as_str(&self) -> (r: &'static str)
        ensures
            r@ == self.name_spec(),
    {
        match self {
            Medicine::Cephalexin => {
                proof { reveal_strlit("Cephalexin"); }
                "Cephalexin"
            },
            Medicine::Oxycodone => {
                proof { reveal_strlit("Oxycodone"); }
                "Oxycodone"
            },
            Medicine::Ibuprofen => {
                proof { reveal_strlit("Ibuprofen"); }
                "Ibuprofen"
            },
            Medicine::Lorazepam => {
                proof { reveal_strlit("Lorazepam"); }
                "Lorazepam"
            },
            Medicine::Allegra => {
                proof { reveal_strlit("Allegra"); }
                "Allegra"
            },
        }
    }

    /// The name as an owned string.
    pub fn name(&self) -> (r: String)
        ensures
            r@ == self.name_spec(),
    {
        String::from_str(self.as_str())
    }

    /// Reads a medicine back from its name; `None` for any other text.
    pub fn from_name(s: &str) -> (r: Option<Medicine>)
        ensures
            match r {
                Some(m) => m.name_spec() == s@,
                None => forall|m: Medicine| #[trigger] m.name_spec() != s@,
            },
    {
        let owned = s.to_owned();
        let mut i: usize = 0;
        while i < MEDICINE_COUNT
            invariant
                i <= MEDICINE_COUNT,
                owned@ == s@,
                forall|j: int| 0 <= j < i ==> #[trigger] medicine_at(j).name_spec() != s@,
            decreases MEDICINE_COUNT - i,
        {
            let m = Medicine::from_index(i);
            if owned == m.name() {
                return Some(m);
            }
            i = i + 1;
        }
        proof {
            assert forall|m: Medicine| #[trigger] m.name_spec() != s@ by {
                assert(medicine_at(m.slot()) == m);
            }
        }
        None
    }

    /// The medicine chosen by number in the interactive menu.
    pub open spec fn menu_spec(n: int) -> Option<Medicine> {
        if n == 1 {
            Some(Medicine::Cephalexin)
        } else if n == 2 {
            Some(Medicine::Ibuprofen)
        } else if n == 3 {
            Some(Medicine::Oxycodone)
        } else if n == 4 {
            Some(Medicine::Lorazepam)
        } else if n == 5 {
            Some(Medicine::Allegra)
        } else {
            None
        }
    }

    /// Maps a menu number (1 to 5) to its medicine; `None` for any other number.
    pub fn from_menu_choice(n: usize) -> (r: Option<Medicine>)
        ensures
            r == Medicine::menu_spec(n as int),
    {
        if n == 1 {
            Some(Medicine::Cephalexin)
        } else if n == 2 {
            Some(Medicine::Ibuprofen)
        } else if n == 3 {
            Some(Medicine::Oxycodone)
        } else if n == 4 {
            Some(Medicine::Lorazepam)
        } else if n == 5 {
            Some(Medicine::Allegra)
        } else {
            None
        }
    }
}

/// Per-medicine cooldown state: whether a cooldown is running, and the
/// instant (seconds since the epoch) at which it started.
#[derive(Debug)]
pub struct MedicineTimer {
    medicines: Vec<(bool, i64)>,
}

impl View for MedicineTimer {
    type V = Seq<(bool, i64)>;

    /// The entry of each medicine, at the medicine's slot.
    closed spec fn view(&self) -> Seq<(bool, i64)> {
        self.medicines@
    }
}

impl MedicineTimer {
    /// One entry per medicine.
    pub open spec fn wf(&self) -> bool {
        self@.len() == MEDICINE_COUNT
    }

    /// Whether medicine `m` is in cooldown.
    pub open spec fn active(&self, m: Medicine) -> bool {
        self@[m.slot()].0
    }

    /// When the cooldown of medicine `m` started.
    pub open spec fn since(&self, m: Medicine) -> i64 {
        self@[m.slot()].1
    }

    /// A timer with every medicine idle and stamped with `now`.
    pub fn new_at(now: i64) -> (r: MedicineTimer)
        ensures
            r.wf(),
            r@ == Seq::new(MEDICINE_COUNT as nat, |i: int| (false, now)),
    {
        let mut medicines: Vec<(bool, i64)> = Vec::new();
        let mut i: usize = 0;
        while i < MEDICINE_COUNT
            invariant
                i <= MEDICINE_COUNT,
                medicines@ == Seq::new(i as nat, |k: int| (false, now)),
            decreases MEDICINE_COUNT - i,
        {
            medicines.push((false, now));
            i = i + 1;
            assert(medicines@ =~= Seq::new(i as nat, |k: int| (false, now)));
        }
        MedicineTimer { medicines }
    }

    /// A timer with every medicine idle, stamped with the current time.
    pub fn new() -> (r: MedicineTimer)
        ensures
            r.wf(),
            forall|m: Medicine| !r.active(m),
            forall|m: Medicine, n: Medicine| r.since(m) == r.since(n),
    {
        MedicineTimer::new_at(LocalDateTime::now().timestamp)
    }

    /// Whether medicine `medicine` is in cooldown.
    pub fn check(&self, medicine: &Medicine) -> (r: bool)
        requires
            self.wf(),
        ensures
            r == self.active(*medicine),
    {
        self.medicines[medicine.index()].0
    }

    /// The entry of medicine `medicine`: its flag and its start instant.
    pub fn get_field(&self, medicine: &Medicine) -> (r: (bool, i64))
        requires
            self.wf(),
        ensures
            r == self@[medicine.slot()],
    {
        self.medicines[medicine.index()]
    }

    /// Replaces the start instant of `medicine`, keeping its flag.
    pub fn set_time(&mut self, medicine: &Medicine, new_time: i64)
        requires
            old(self).wf(),
        ensures
            final(self)@ == old(self)@.update(medicine.slot(), (old(self).active(*medicine), new_time)),
    {
        let i = medicine.index();
        let status = self.medicines[i].0;
        self.medicines.set(i, (status, new_time));
    }

    /// Replaces the flag of `medicine`, keeping its start instant.
    pub fn set_toggle(&mut self, medicine: &Medicine, flag: bool)
        requires
            old(self).wf(),
        ensures
            final(self)@ == old(self)@.update(medicine.slot(), (flag, old(self).since(*medicine))),
    {
        let i = medicine.index();
        let since = self.medicines[i].1;
        self.medicines.set(i, (flag, since));
    }

    /// Starts the cooldown of `medicine` at `now`; a running cooldown
    /// restarts from `now`.
    pub fn start(&mut self, medicine: &Medicine, now: i64)
        requires
            old(self).wf(),
        ensures
            final(self)@ == old(self)@.update(medicine.slot(), (true, now)),
    {
        self.medicines.set(medicine.index(), (true, now));
    }

    /// Ends the cooldown of `medicine`; nothing changes when it is idle.
    pub fn end(&mut self, medicine: &Medicine)
        requires
            old(self).wf(),
        ensures
            final(self)@ == old(self)@.update(medicine.slot(), (false, old(self).since(*medicine))),
    {
        self.set_toggle(medicine, false);
    }

    /// Flips the flag of `medicine`: an idle medicine starts its cooldown at
    /// `now`, a cooling one ends it.
    pub fn toggle_at(&mut self, medicine: &Medicine, now: i64)
        requires
            old(self).wf(),
        ensures
            final(self)@ == old(self)@.update(
                medicine.slot(),
                if old(self).active(*medicine) {
                    (false, old(self).since(*medicine))
                } else {
                    (true, now)
                },
            ),
    {
        if self.check(medicine) {
            self.end(medicine);
        } else {
            self.start(medicine, now);
        }
    }

    /// Flips the flag of `medicine`; a cooldown that starts is stamped with
    /// the current time.
    pub fn toggle(&mut self, medicine: &Medicine)
        requires
            old(self).wf(),
        ensures
            final(self)@ == old(self)@.update(
                medicine.slot(),
                if old(self).active(*medicine) {
                    (false, old(self).since(*medicine))
                } else {
                    (true, final(self).since(*medicine))
                },
            ),
    {
        let now = LocalDateTime::now().timestamp;
        self.toggle_at(medicine, now);
    }
}

/// A cooldown that is started is running, and one that is ended is not:
/// `start` followed by `check` gives true, `end` followed by `check` false.
pub proof fn lemma_start_then_end(entries: Seq<(bool, i64)>, m: Medicine, now: i64)
    requires
        entries.len() == MEDICINE_COUNT,
    ensures
        entries.update(m.slot(), (true, now))[m.slot()].0,
        !entries.update(m.slot(), (false, entries[m.slot()].1))[m.slot()].0,
{
}

/// Cooldowns of two different medicines started at the same instant keep
/// their own entries: both run since that instant, and ending one leaves the
/// other running with its start unchanged.
pub proof fn lemma_independent_cooldowns(entries: Seq<(bool, i64)>, a: Medicine, b: Medicine, now: i64)
    requires
        entries.len() == MEDICINE_COUNT,
        a != b,
    ensures
        entries.update(a.slot(), (true, now)).update(b.slot(), (true, now))[a.slot()] == (true, now),
        entries.update(a.slot(), (true, now)).update(b.slot(), (true, now))[b.slot()] == (true, now),
        entries.update(a.slot(), (true, now)).update(b.slot(), (true, now)).update(
            a.slot(),
            (false, now),
        )[b.slot()] == (true, now),
{
}

} // verus!
