//! Edge detection and debouncing over sampled button levels. The raw GPIO
//! sampling stays outside; the manager takes one scan of active-low
//! levels, already inverted to "pressed" booleans, and reports the first
//! button showing a fresh press outside its debounce window.

use vstd::prelude::*;

verus! {

/// Index `i` shows a fresh, debounced press: the level went from released
/// to pressed and the last accepted press lies outside the debounce
/// window.
pub open spec fn spec_press_fires(
    last: Seq<bool>,
    press_t: Seq<u64>,
    cur: Seq<bool>,
    now: u64,
    debounce: u64,
    i: int,
) -> bool {
    cur[i] && !last[i] && now - press_t[i] > debounce
}

/// Per-button edge state: the level seen on the previous scan and the time
/// of the last accepted press.
pub struct ButtonManager {
    pub last_states: Vec<bool>,
    pub last_press_time: Vec<u64>,
    pub debounce_ms: u64,
}

impl ButtonManager {
    /// One press time per tracked level, and few enough buttons for a
    /// one-byte id.
    pub open spec fn wf(&self) -> bool {
        self.last_states@.len() == self.last_press_time@.len() && self.last_states@.len() < 255
    }

    /// No recorded press lies in the future.
    pub open spec fn clock_ok(&self, now: u64) -> bool {
        forall|i: int| 0 <= i < self.last_press_time@.len() ==> now >= self.last_press_time@[i]
    }

    /// Tracks `num_buttons` buttons, all released, with the given debounce
    /// window.
    pub fn new(num_buttons: usize, debounce_ms: u64) -> (r: ButtonManager)
        requires
            num_buttons < 255,
        ensures
            r.wf(),
            r.debounce_ms == debounce_ms,
            r.last_states@.len() == num_buttons,
            forall|i: int| 0 <= i < num_buttons ==> r.last_states@[i] == false,
            forall|i: int| 0 <= i < num_buttons ==> r.last_press_time@[i] == 0,
    {
        let mut last_states: Vec<bool> = Vec::new();
        let mut last_press_time: Vec<u64> = Vec::new();
        let mut i: usize = 0;
        while i < num_buttons
            invariant
                0 <= i <= num_buttons,
                last_states@.len() == i,
                last_press_time@.len() == i,
                forall|j: int| 0 <= j < i ==> last_states@[j] == false,
                forall|j: int| 0 <= j < i ==> last_press_time@[j] == 0,
            decreases num_buttons - i,
        {
            last_states.push(false);
            last_press_time.push(0);
            i += 1;
        }
        ButtonManager { last_states, last_press_time, debounce_ms }
    }

    /// Consumes one scan of pressed levels at time `now`: returns the
    /// one-based id of the first button showing a fresh press outside its
    /// debounce window, recording the press; buttons scanned before the
    /// hit have their remembered level refreshed, later ones keep it until
    /// the next scan. Without a hit, every remembered level is refreshed
    /// and no press is recorded.
    pub fn check_buttons(&mut self, pressed: &Vec<bool>, now: u64) -> (r: Option<u8>)
        requires
            old(self).wf(),
            old(self).clock_ok(now),
            pressed@.len() == old(self).last_states@.len(),
        ensures
            final(self).wf(),
            final(self).clock_ok(now),
            final(self).debounce_ms == old(self).debounce_ms,
            match r {
                Some(b) => {
                    let i = b - 1;
                    &&& 1 <= b <= old(self).last_states@.len()
                    &&& spec_press_fires(
                        old(self).last_states@,
                        old(self).last_press_time@,
                        pressed@,
                        now,
                        old(self).debounce_ms,
                        i,
                    )
                    &&& forall|j: int|
                        0 <= j < i ==> !spec_press_fires(
                            old(self).last_states@,
                            old(self).last_press_time@,
                            pressed@,
                            now,
                            old(self).debounce_ms,
                            j,
                        )
                    &&& forall|j: int|
                        0 <= j <= i ==> final(self).last_states@[j] == pressed@[j]
                    &&& forall|j: int|
                        i < j < pressed@.len() ==> final(self).last_states@[j] == old(
                            self,
                        ).last_states@[j]
                    &&& final(self).last_press_time@ == old(self).last_press_time@.update(i, now)
                },
                None => {
                    &&& forall|j: int|
                        0 <= j < pressed@.len() ==> !spec_press_fires(
                            old(self).last_states@,
                            old(self).last_press_time@,
                            pressed@,
                            now,
                            old(self).debounce_ms,
                            j,
                        )
                    &&& forall|j: int|
                        0 <= j < pressed@.len() ==> final(self).last_states@[j] == pressed@[j]
                    &&& final(self).last_press_time@ == old(self).last_press_time@
                },
            },
    {
        let n = self.last_states.len();
        let mut i: usize = 0;
        while i < n
            invariant
                self.wf(),
                self.clock_ok(now),
                n == self.last_states@.len(),
                n == old(self).last_states@.len(),
                pressed@.len() == n,
                0 <= i <= n,
                self.debounce_ms == old(self).debounce_ms,
                self.last_press_time@ == old(self).last_press_time@,
                forall|j: int| 0 <= j < i ==> self.last_states@[j] == pressed@[j],
                forall|j: int| i <= j < n ==> self.last_states@[j] == old(self).last_states@[j],
                forall|j: int|
                    0 <= j < i ==> !spec_press_fires(
                        old(self).last_states@,
                        old(self).last_press_time@,
                        pressed@,
                        now,
                        old(self).debounce_ms,
                        j,
                    ),
            decreases n - i,
        {
            let current = pressed[i];
            let last = self.last_states[i];
            if current && !last {
                if now - self.last_press_time[i] > self.debounce_ms {
                    self.last_states.set(i, current);
                    self.last_press_time.set(i, now);
                    return Some((i as u8) + 1);
                }
            }
            self.last_states.set(i, current);
            i += 1;
        }
        None
    }
}

} // verus!
