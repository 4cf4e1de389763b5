//! The session model and input dispatcher: the in-memory list of timers with
//! its single-active-timer policy, the staging buffers, the selection state,
//! the modal screen state machine, and the keyboard dispatch that drives
//! them. The event loop around this (terminal polling and drawing) is
//! unverified plumbing; it hands every key and every clock reading in as a
//! plain value.

use vstd::prelude::*;
use crate::clock::{valid_now_ms, now_epoch_ms};
use crate::db::Db;
use crate::errors::TimerError;
use crate::rows::{count_true, labels_of, mask_of_labels, selectable_mask};
use crate::throbber::Throbber;
use crate::timer::Timer;

verus! {

/// Which modal screen is active.
#[derive(Debug, Clone, Copy, PartialEq, Eq, Structural)]
pub enum CurrentScreen {
    Main,
    Edit,
    Add,
    Exit,
}

/// Which staging buffer the next typed character lands in.
#[derive(Debug, Clone, Copy, PartialEq, Eq, Structural)]
pub enum CurrentlyEditing {
    Name,
    Description,
}

/// One keyboard event, as the dispatcher sees it. The unverified terminal
/// layer translates its own event type into this.
#[derive(Debug, Clone, Copy, PartialEq, Eq, Structural)]
pub enum Key {
    Char(char),
    CtrlChar(char),
    AltChar(char),
    Enter,
    Tab,
    Backspace,
    Esc,
    Other,
}

/// What the event loop should do after a key was handled.
#[derive(Debug, Clone, Copy, PartialEq, Eq, Structural)]
pub enum KeyOutcome {
    Continue,
    Quit,
}

/// The whole interactive state.
///
/// `selected` and `selectable_rows` carry the selection as plain data: the
/// renderer reads them and writes back only the recomputed mask (through
/// [`App::refresh_mask`]). `tick_ref_ms` is the clock reference of the
/// fixed-step elapsed-time accumulator: the instant up to which whole
/// seconds have been consumed. `delete_armed`/`delete_armed_at_ms` hold the
/// state of the repeated-key confirmation gesture that guards deletion.
#[derive(Debug)]
pub struct App {
    pub timers: Vec<Timer>,
    pub name_input: String,
    pub description_input: String,
    pub currently_editing: Option<CurrentlyEditing>,
    pub current_screen: CurrentScreen,
    pub selected: usize,
    pub selectable_rows: Vec<bool>,
    pub db: Db,
    pub throbber: Throbber,
    pub exit_button_selected: bool,
    pub tick_ref_ms: i64,
    pub delete_armed: bool,
    pub delete_armed_at_ms: i64,
}

/// The position after `j`, cyclically, in a list of `len` rows.
pub open spec fn advance1(len: int, j: int) -> int {
    if j + 1 == len {
        0
    } else {
        j + 1
    }
}

/// The position before `j`, cyclically.
pub open spec fn retreat1(len: int, j: int) -> int {
    if j == 0 {
        len - 1
    } else {
        j - 1
    }
}

/// Walk forward from `j` for at most `steps` positions and stop at the
/// first selectable one; land where the walk ends when none is.
pub open spec fn scan_next(mask: Seq<bool>, j: int, steps: nat) -> int
    decreases steps,
{
    if steps == 0 {
        j
    } else {
        let j2 = advance1(mask.len() as int, j);
        if 0 <= j2 < mask.len() && mask[j2] {
            j2
        } else {
            scan_next(mask, j2, (steps - 1) as nat)
        }
    }
}

/// Walk backward, as `scan_next` walks forward.
pub open spec fn scan_prev(mask: Seq<bool>, j: int, steps: nat) -> int
    decreases steps,
{
    if steps == 0 {
        j
    } else {
        let j2 = retreat1(mask.len() as int, j);
        if 0 <= j2 < mask.len() && mask[j2] {
            j2
        } else {
            scan_prev(mask, j2, (steps - 1) as nat)
        }
    }
}

/// Where `next_row` lands from `cur`: the next selectable row, cyclically,
/// skipping non-selectable rows; `cur` itself (normalized into range) when
/// no row is selectable.
pub open spec fn spec_next_row(mask: Seq<bool>, cur: int) -> int {
    scan_next(mask, cur % (mask.len() as int), mask.len())
}

/// Where `previous_row` lands from `cur`.
pub open spec fn spec_prev_row(mask: Seq<bool>, cur: int) -> int {
    scan_prev(mask, cur % (mask.len() as int), mask.len())
}

impl App {
    /// A session state the library's operations keep: every record is
    /// well-formed and the clock references are non-negative instants.
    pub open spec fn wf(self) -> bool {
        &&& forall|i: int| 0 <= i < self.timers@.len() ==> (#[trigger] self.timers@[i]).wf()
        &&& 0 <= self.tick_ref_ms
        &&& 0 <= self.delete_armed_at_ms
    }

    /// A fresh session over an opened store: empty list, `Main` screen,
    /// selection resting on the first record row, clock reference at `now`.
    pub fn new(db: Db, now_ms: i64) -> (a: App)
        requires
            valid_now_ms(now_ms as int),
        ensures
            a.timers@ == Seq::<Timer>::empty(),
            a.name_input@ == Seq::<char>::empty(),
            a.description_input@ == Seq::<char>::empty(),
            a.currently_editing is None,
            a.current_screen == CurrentScreen::Main,
            a.selected == 1,
            a.selectable_rows@ == Seq::<bool>::empty(),
            a.db == db,
            a.exit_button_selected == false,
            a.tick_ref_ms == now_ms,
            a.delete_armed == false,
            a.wf(),
    {
        App {
            timers: Vec::new(),
            name_input: String::new(),
            description_input: String::new(),
            currently_editing: None,
            current_screen: CurrentScreen::Main,
            selected: 1,
            selectable_rows: Vec::new(),
            db,
            throbber: Throbber::new(),
            exit_button_selected: false,
            tick_ref_ms: now_ms,
            delete_armed: false,
            delete_armed_at_ms: 0,
        }
    }

    /// Advance the selection to the next selectable row, cyclically. With no
    /// rows at all this is a no-op.
    pub fn next_row(&mut self)
        ensures
            old(self).selectable_rows@.len() == 0 ==> *final(self) == *old(self),
            old(self).selectable_rows@.len() > 0 ==> {
                &&& *final(self) == (App { selected: final(self).selected, ..*old(self) })
                &&& final(self).selected == spec_next_row(
                    old(self).selectable_rows@,
                    old(self).selected as int,
                )
            },
    {
        let len = self.selectable_rows.len();
        if len == 0 {
            return;
        }
        let ghost mask = self.selectable_rows@;
        let mut j: usize = self.selected % len;
        let mut k: usize = 0;
        while k < len
            invariant
                *self == *old(self),
                len == self.selectable_rows@.len(),
                mask == self.selectable_rows@,
                0 < len,
                j < len,
                k <= len,
                spec_next_row(mask, old(self).selected as int) == scan_next(
                    mask,
                    j as int,
                    (len - k) as nat,
                ),
            decreases len - k,
        {
            let jn = if j + 1 == len {
                0
            } else {
                j + 1
            };
            k = k + 1;
            if self.selectable_rows[jn] {
                self.selected = jn;
                return;
            }
            j = jn;
        }
        self.selected = j;
    }

    /// Retreat the selection to the previous selectable row, cyclically.
    pub fn previous_row(&mut self)
        ensures
            old(self).selectable_rows@.len() == 0 ==> *final(self) == *old(self),
            old(self).selectable_rows@.len() > 0 ==> {
                &&& *final(self) == (App { selected: final(self).selected, ..*old(self) })
                &&& final(self).selected == spec_prev_row(
                    old(self).selectable_rows@,
                    old(self).selected as int,
                )
            },
    {
        let len = self.selectable_rows.len();
        if len == 0 {
            return;
        }
        let ghost mask = self.selectable_rows@;
        let mut j: usize = self.selected % len;
        let mut k: usize = 0;
        while k < len
            invariant
                *self == *old(self),
                len == self.selectable_rows@.len(),
                mask == self.selectable_rows@,
                0 < len,
                j < len,
                k <= len,
                spec_prev_row(mask, old(self).selected as int) == scan_prev(
                    mask,
                    j as int,
                    (len - k) as nat,
                ),
            decreases len - k,
        {
            let jn = if j == 0 {
                len - 1
            } else {
                j - 1
            };
            k = k + 1;
            if self.selectable_rows[jn] {
                self.selected = jn;
                return;
            }
            j = jn;
        }
        self.selected = j;
    }

    /// Map a visual row index to a logical timer index by counting the
    /// selectable rows before it; `None` when out of range.
    pub fn get_timer_index_from_selection(&self, selected_index: usize) -> (r: Option<usize>)
        ensures
            match spec_timer_index(*self, selected_index as int) {
                Some(idx) => r is Some && r.unwrap() as int == idx,
                None => r is None,
            },
    {
        if selected_index > self.selectable_rows.len() {
            return None;
        }
        let mut count: usize = 0;
        let mut i: usize = 0;
        while i < selected_index
            invariant
                i <= selected_index,
                selected_index <= self.selectable_rows@.len(),
                count == count_true(self.selectable_rows@, i as int),
                count <= i,
            decreases selected_index - i,
        {
            if self.selectable_rows[i] {
                count = count + 1;
            }
            i = i + 1;
        }
        if count < self.timers.len() {
            Some(count)
        } else {
            None
        }
    }

    /// Move the editing focus to the other staging field; focus the name
    /// field when nothing was focused.
    pub fn toggle_editing(&mut self)
        ensures
            toggle_editing_transition(*old(self), *final(self)),
    {
        if let Some(edit_mode) = &self.currently_editing {
            match edit_mode {
                CurrentlyEditing::Name => {
                    self.currently_editing = Some(CurrentlyEditing::Description)
                }
                CurrentlyEditing::Description => {
                    self.currently_editing = Some(CurrentlyEditing::Name)
                }
            }
        } else {
            self.currently_editing = Some(CurrentlyEditing::Name);
        }
    }

    /// Flip which exit-confirmation button is highlighted.
    pub fn toggle_exit_button(&mut self)
        ensures
            *final(self) == (App {
                exit_button_selected: !old(self).exit_button_selected,
                ..*old(self)
            }),
    {
        self.exit_button_selected = !self.exit_button_selected;
    }

    /// Recompute the selectable-row mask from the current list; the renderer
    /// calls this after layout, its only write-back into the model.
    pub fn refresh_mask(&mut self)
        requires
            old(self).wf(),
        ensures
            *final(self) == (App { selectable_rows: final(self).selectable_rows, ..*old(self) }),
            final(self).selectable_rows@ == mask_of_labels(labels_of(old(self).timers@)),
            final(self).wf(),
    {
        self.selectable_rows = selectable_mask(&self.timers);
    }
}

/// Whole seconds elapsed between the accumulator reference and `now`;
/// none when the clock reads earlier than the reference.
pub open spec fn tick_whole(ref_ms: int, now: int) -> int {
    if now >= ref_ms {
        (now - ref_ms) / 1000
    } else {
        0
    }
}

/// The elapsed seconds after one tick at `now`.
pub open spec fn tick_elapsed(e: int, ref_ms: int, now: int) -> int {
    e + tick_whole(ref_ms, now)
}

/// The accumulator reference after one tick at `now`: advanced by exactly
/// the consumed whole seconds, carrying the sub-second remainder forward.
pub open spec fn tick_ref_after(ref_ms: int, now: int) -> int {
    ref_ms + 1000 * tick_whole(ref_ms, now)
}

/// Clamp into `i64`, used where elapsed time would overflow the machine
/// integer.
pub open spec fn sat_i64(x: int) -> int {
    if x > i64::MAX {
        i64::MAX as int
    } else {
        x
    }
}

/// The list with its most recently added record stopped.
pub open spec fn with_last_stopped(ts: Seq<Timer>) -> Seq<Timer> {
    if ts.len() == 0 {
        ts
    } else {
        ts.update(ts.len() - 1, (Timer { running: false, ..ts.last() }))
    }
}

/// The list with every record stopped except the last, which runs.
pub open spec fn all_stopped_but_last_running(ts: Seq<Timer>) -> Seq<Timer> {
    Seq::new(ts.len(), |i: int| (Timer { running: i == ts.len() - 1, ..ts[i] }))
}

/// Exactly the most recently added record runs.
pub open spec fn only_last_running(ts: Seq<Timer>) -> bool {
    &&& ts.len() > 0
    &&& ts.last().running
    &&& forall|i: int| 0 <= i < ts.len() - 1 ==> !(#[trigger] ts[i]).running
}

/// No record other than the last may run.
pub open spec fn at_most_last_running(ts: Seq<Timer>) -> bool {
    forall|i: int| 0 <= i < ts.len() && (#[trigger] ts[i]).running ==> i == ts.len() - 1
}

/// Unchanged but for the store value, whose contents are unchanged: what
/// a failed operation that already reached the store leaves behind.
pub open spec fn unchanged_except_db_value(pre: App, post: App) -> bool {
    &&& post == (App { db: post.db, ..pre })
    &&& post.db.rows() == pre.db.rows()
}

/// Everything a tick leaves alone: all state except the list, the clock
/// reference, the spinner, and the store.
pub open spec fn eq_except_tick(pre: App, post: App) -> bool {
    &&& post.name_input == pre.name_input
    &&& post.description_input == pre.description_input
    &&& post.currently_editing == pre.currently_editing
    &&& post.current_screen == pre.current_screen
    &&& post.selected == pre.selected
    &&& post.selectable_rows == pre.selectable_rows
    &&& post.exit_button_selected == pre.exit_button_selected
    &&& post.delete_armed == pre.delete_armed
    &&& post.delete_armed_at_ms == pre.delete_armed_at_ms
}

/// One tick of the fixed-step accumulator at instant `now`: with no records
/// the reference just follows the clock; otherwise the whole seconds since
/// the reference are consumed, advancing the reference by exactly that much
/// (the remainder carries forward), and — when the last record is running —
/// they are added to its elapsed time while the spinner advances one phase.
pub open spec fn tick_transition(pre: App, post: App, now: int) -> bool {
    &&& eq_except_tick(pre, post)
    &&& if pre.timers@.len() == 0 {
        &&& post.timers == pre.timers
        &&& post.throbber == pre.throbber
        &&& post.tick_ref_ms == now
    } else {
        let k = tick_whole(pre.tick_ref_ms as int, now);
        &&& post.tick_ref_ms == tick_ref_after(pre.tick_ref_ms as int, now)
        &&& if k > 0 && pre.timers@.last().running {
            &&& post.timers@ == pre.timers@.update(pre.timers@.len() - 1, (Timer {
                duration_s: sat_i64(
                    tick_elapsed(
                        pre.timers@.last().duration_s as int,
                        pre.tick_ref_ms as int,
                        now,
                    ),
                ) as i64,
                ..pre.timers@.last()
            }))
            &&& post.throbber.phase() == pre.throbber.phase().spec_next()
        } else {
            &&& post.timers == pre.timers
            &&& post.throbber == pre.throbber
        }
    }
}

/// The successful add: the staged fields become a fresh running record
/// appended to the list, the previously last record is stopped, the new row
/// is persisted and carries the store-assigned id, the staging buffers
/// clear, and the accumulator restarts at `now`.
pub open spec fn add_transition(pre: App, post: App, now: int) -> bool {
    &&& post.timers@.len() == pre.timers@.len() + 1
    &&& post.timers@.drop_last() == with_last_stopped(pre.timers@)
    &&& post.timers@.last().name@ == pre.name_input@
    &&& post.timers@.last().description@ == pre.description_input@
    &&& post.timers@.last().start_time_s == now / 1000
    &&& post.timers@.last().duration_s == 0
    &&& post.timers@.last().running
    &&& post.timers@.last().id >= 1
    &&& post.db.rows() == pre.db.rows().push(post.timers@.last().model())
    &&& post.name_input@ == Seq::<char>::empty()
    &&& post.description_input@ == Seq::<char>::empty()
    &&& post.tick_ref_ms == now
    &&& post.currently_editing == pre.currently_editing
    &&& post.current_screen == pre.current_screen
    &&& post.selected == pre.selected
    &&& post.selectable_rows == pre.selectable_rows
    &&& post.throbber == pre.throbber
    &&& post.exit_button_selected == pre.exit_button_selected
    &&& post.delete_armed == pre.delete_armed
    &&& post.delete_armed_at_ms == pre.delete_armed_at_ms
}

/// The toggle of the most recently added record: stop it when it runs;
/// otherwise resume it — stopping every other record — and restart the
/// accumulator at `now`, so that no time spent stopped is replayed.
pub open spec fn toggle_transition(pre: App, post: App, now: int) -> bool {
    &&& eq_except_tick(pre, post)
    &&& post.throbber == pre.throbber
    &&& post.db == pre.db
    &&& if pre.timers@.len() == 0 {
        &&& post.timers == pre.timers
        &&& post.tick_ref_ms == pre.tick_ref_ms
    } else if pre.timers@.last().running {
        &&& post.timers@ == with_last_stopped(pre.timers@)
        &&& post.tick_ref_ms == pre.tick_ref_ms
    } else {
        &&& post.timers@ == all_stopped_but_last_running(pre.timers@)
        &&& post.tick_ref_ms == now
    }
}

impl App {
    /// Consume the whole seconds elapsed since the accumulator reference:
    /// add them to the running last record (saturating at the machine
    /// limit) and advance the spinner; carry the sub-second remainder
    /// forward. Returns how many whole seconds were consumed.
    pub fn tick(&mut self, now_ms: i64) -> (consumed: i64)
        requires
            old(self).wf(),
            valid_now_ms(now_ms as int),
        ensures
            tick_transition(*old(self), *final(self), now_ms as int),
            final(self).db == old(self).db,
            final(self).wf(),
            consumed == if old(self).timers@.len() == 0 {
                0int
            } else {
                tick_whole(old(self).tick_ref_ms as int, now_ms as int)
            },
    {
        if self.timers.len() == 0 {
            self.tick_ref_ms = now_ms;
            return 0;
        }
        if now_ms < self.tick_ref_ms {
            return 0;
        }
        let diff: i64 = now_ms - self.tick_ref_ms;
        let k: i64 = ((diff as u64) / 1000) as i64;
        proof {
            vstd::arithmetic::div_mod::lemma_remainder(diff as int, 1000);
        }
        if k == 0 {
            return 0;
        }
        self.tick_ref_ms = self.tick_ref_ms + k * 1000;
        let n = self.timers.len();
        let running = self.timers[n - 1].running;
        if running {
            let last = &mut self.timers[n - 1];
            if last.duration_s <= i64::MAX - k {
                last.duration_s = last.duration_s + k;
            } else {
                last.duration_s = i64::MAX;
            }
            self.throbber.tick();
        }
        k
    }

    /// One frame of the event loop's clock work: tick the accumulator and,
    /// when at least one whole second was consumed, persist every record's
    /// duration and running flag. A storage failure is surfaced but leaves
    /// the in-memory state authoritative; the next frame's write retries.
    pub fn on_frame(&mut self, now_ms: i64) -> (r: Result<(), TimerError>)
        requires
            old(self).wf(),
            valid_now_ms(now_ms as int),
        ensures
            final(self).wf(),
            tick_transition(*old(self), *final(self), now_ms as int),
            (old(self).timers@.len() == 0 || tick_whole(
                old(self).tick_ref_ms as int,
                now_ms as int,
            ) == 0) ==> final(self).db == old(self).db && r == Ok::<(), TimerError>(()),
            (old(self).timers@.len() > 0 && tick_whole(
                old(self).tick_ref_ms as int,
                now_ms as int,
            ) > 0) ==> match r {
                Ok(()) => final(self).db.rows() == crate::db::apply_updates(
                    old(self).db.rows(),
                    final(self).timers@,
                ),
                Err(e) => e == TimerError::StorageError && crate::db::partially_updated(
                    old(self).db.rows(),
                    final(self).db.rows(),
                    final(self).timers@,
                ),
            },
    {
        let consumed = self.tick(now_ms);
        if consumed > 0 {
            match self.db.update_timers_in_db(&self.timers) {
                Ok(()) => Ok(()),
                Err(e) => Err(e),
            }
        } else {
            Ok(())
        }
    }

    /// Commit the staging buffers as a new timer started at `now`.
    /// `ValidationError` exactly when the staged name is empty; on any
    /// error the whole state is unchanged.
    pub fn add_timer_at(&mut self, now_ms: i64) -> (r: Result<(), TimerError>)
        requires
            old(self).wf(),
            valid_now_ms(now_ms as int),
        ensures
            final(self).wf(),
            old(self).name_input@.len() == 0 <==> r == Err::<(), TimerError>(TimerError::ValidationError),
            match r {
                Ok(()) => add_transition(*old(self), *final(self), now_ms as int),
                Err(TimerError::ValidationError) => *final(self) == *old(self),
                Err(TimerError::StorageError) => unchanged_except_db_value(*old(self), *final(self)),
                Err(TimerError::NotFoundError) => false,
            },
    {
        if self.name_input.as_str().is_empty() {
            return Err(TimerError::ValidationError);
        }
        let mut timer = Timer::new(self.name_input.clone(), self.description_input.clone(), now_ms);
        match self.db.add_timer_to_db(&mut timer) {
            Ok(()) => {
                let n = self.timers.len();
                if n > 0 {
                    let last = &mut self.timers[n - 1];
                    last.stop();
                }
                self.timers.push(timer);
                self.name_input = String::new();
                self.description_input = String::new();
                self.tick_ref_ms = now_ms;
                proof {
                    assert(self.timers@.drop_last() =~= with_last_stopped(old(self).timers@));
                }
                Ok(())
            }
            Err(e) => Err(e),
        }
    }

    /// Commit the staging buffers as a new timer started now, reading the
    /// wall clock.
    pub fn add_timer(&mut self) -> (r: Result<(), TimerError>)
        requires
            old(self).wf(),
        ensures
            final(self).wf(),
            old(self).name_input@.len() == 0 <==> r == Err::<(), TimerError>(TimerError::ValidationError),
            match r {
                Ok(()) => exists|now: int|
                    valid_now_ms(now) && #[trigger] add_transition(*old(self), *final(self), now),
                Err(TimerError::ValidationError) => *final(self) == *old(self),
                Err(TimerError::StorageError) => unchanged_except_db_value(*old(self), *final(self)),
                Err(TimerError::NotFoundError) => false,
            },
    {
        let now = now_epoch_ms();
        self.add_timer_at(now)
    }

    /// Stop the most recently added timer if it runs; resume it otherwise,
    /// accumulating from `now`. A no-op on an empty list.
    pub fn toggle_timer_at(&mut self, now_ms: i64)
        requires
            old(self).wf(),
            valid_now_ms(now_ms as int),
        ensures
            final(self).wf(),
            toggle_transition(*old(self), *final(self), now_ms as int),
    {
        let n = self.timers.len();
        if n == 0 {
            return;
        }
        let running = self.timers[n - 1].running;
        if running {
            let last = &mut self.timers[n - 1];
            last.stop();
            proof {
                assert(self.timers@ =~= with_last_stopped(old(self).timers@));
            }
        } else {
            let mut i: usize = 0;
            while i < n - 1
                invariant
                    n == self.timers@.len(),
                    n == old(self).timers@.len(),
                    n > 0,
                    i <= n - 1,
                    *self == (App { timers: self.timers, ..*old(self) }),
                    forall|j: int| 0 <= j < i ==> self.timers@[j] == (Timer {
                        running: false,
                        ..old(self).timers@[j]
                    }),
                    forall|j: int| i <= j < n ==> self.timers@[j] == old(self).timers@[j],
                decreases n - 1 - i,
            {
                let t = &mut self.timers[i];
                t.stop();
                i = i + 1;
            }
            let last = &mut self.timers[n - 1];
            last.start();
            self.tick_ref_ms = now_ms;
            proof {
                assert(self.timers@ =~= all_stopped_but_last_running(old(self).timers@));
            }
        }
    }

    /// Stop or resume the most recently added timer, reading the wall
    /// clock.
    pub fn toggle_timer(&mut self)
        requires
            old(self).wf(),
        ensures
            final(self).wf(),
            exists|now: int|
                valid_now_ms(now) && #[trigger] toggle_transition(*old(self), *final(self), now),
    {
        let now = now_epoch_ms();
        self.toggle_timer_at(now)
    }
}

/// Accumulation never double-counts and loses nothing: ticking at `t1` and
/// then at `t2` advances the elapsed seconds and the clock reference exactly
/// as a single tick at `t2` would. So any number of sub-second calls that
/// together span at least a second yield exactly the floor of the spanned
/// seconds, and re-rendering between ticks changes nothing.
pub proof fn lemma_tick_fusion(e: int, r: int, t1: int, t2: int)
    requires
        r <= t1 <= t2,
    ensures
        tick_elapsed(tick_elapsed(e, r, t1), tick_ref_after(r, t1), t2) == tick_elapsed(e, r, t2),
        tick_ref_after(tick_ref_after(r, t1), t2) == tick_ref_after(r, t2),
{
    let a = t1 - r;
    let b = t2 - r;
    let k1 = a / 1000;
    vstd::arithmetic::div_mod::lemma_remainder(a, 1000);
    assert(1000 * k1 <= a);
    vstd::arithmetic::div_mod::lemma_hoist_over_denominator(b - 1000 * k1, k1, 1000nat);
    assert((b - 1000 * k1) / 1000 + k1 == b / 1000);
}

/// The elapsed seconds and clock reference after a run of ticks, applied in
/// order.
pub open spec fn fold_ticks(e: int, r: int, ts: Seq<int>) -> (int, int)
    decreases ts.len(),
{
    if ts.len() == 0 {
        (e, r)
    } else {
        let p = fold_ticks(e, r, ts.drop_last());
        (tick_elapsed(p.0, p.1, ts.last()), tick_ref_after(p.1, ts.last()))
    }
}

/// Any number of tick calls at non-decreasing instants — however many of
/// them span less than a second each — accumulates exactly the floor of the
/// seconds spanned since the reference, as one tick at the last instant
/// would.
pub proof fn lemma_ticks_accumulate_exactly(e: int, r: int, ts: Seq<int>)
    requires
        ts.len() > 0,
        forall|i: int| 0 <= i < ts.len() ==> r <= #[trigger] ts[i],
        forall|i: int| 0 <= i < ts.len() - 1 ==> #[trigger] ts[i] <= ts[i + 1],
    ensures
        fold_ticks(e, r, ts).0 == e + (ts.last() - r) / 1000,
        fold_ticks(e, r, ts).1 == r + 1000 * ((ts.last() - r) / 1000),
    decreases ts.len(),
{
    assert(r <= ts[ts.len() - 1]);
    assert(r <= ts.last());
    assert(tick_whole(r, ts.last()) == (ts.last() - r) / 1000);
    assert(tick_ref_after(r, ts.last()) == r + 1000 * ((ts.last() - r) / 1000));
    if ts.len() == 1 {
        assert(ts.last() == ts[0]);
        assert(fold_ticks(e, r, ts.drop_last()) == (e, r));
        assert(fold_ticks(e, r, ts).0 == tick_elapsed(e, r, ts.last()));
        assert(fold_ticks(e, r, ts).1 == tick_ref_after(r, ts.last()));
    } else {
        let pre = ts.drop_last();
        assert(forall|i: int| 0 <= i < pre.len() ==> r <= #[trigger] pre[i]);
        assert(forall|i: int| 0 <= i < pre.len() - 1 ==> #[trigger] pre[i] <= pre[i + 1]);
        lemma_ticks_accumulate_exactly(e, r, pre);
        assert(pre.last() == ts[ts.len() - 2]);
        assert(pre.last() <= ts.last());
        assert(r <= pre.last());
        let p = fold_ticks(e, r, pre);
        assert(p.0 == tick_elapsed(e, r, pre.last()));
        assert(p.1 == tick_ref_after(r, pre.last()));
        lemma_tick_fusion(e, r, pre.last(), ts.last());
        assert(fold_ticks(e, r, ts).0 == tick_elapsed(p.0, p.1, ts.last()));
        assert(fold_ticks(e, r, ts).1 == tick_ref_after(p.1, ts.last()));
        assert(tick_elapsed(p.0, p.1, ts.last()) == tick_elapsed(e, r, ts.last()));
        assert(tick_ref_after(p.1, ts.last()) == tick_ref_after(r, ts.last()));
    }
}

/// One successful add keeps the single-active-timer discipline: from any
/// list in which at most the last record runs — the empty list, and every
/// list a sequence of adds can build — the new list has exactly its newest
/// record running.
pub proof fn lemma_add_only_last_running(pre: App, post: App, now: int)
    requires
        add_transition(pre, post, now),
        at_most_last_running(pre.timers@),
    ensures
        only_last_running(post.timers@),
        at_most_last_running(post.timers@),
{
    let ts = post.timers@;
    assert(ts =~= with_last_stopped(pre.timers@).push(ts.last()));
    assert forall|i: int| 0 <= i < ts.len() - 1 implies !(#[trigger] ts[i]).running by {
        assert(ts[i] == with_last_stopped(pre.timers@)[i]);
    }
}

/// Resuming the most recently added timer leaves exactly it running,
/// whatever ran before.
pub proof fn lemma_toggle_resume_only_last(pre: App, post: App, now: int)
    requires
        toggle_transition(pre, post, now),
        pre.timers@.len() > 0,
        !pre.timers@.last().running,
    ensures
        only_last_running(post.timers@),
{
}

/// A delete reaches both copies: the record leaves the in-memory list, and
/// any later full read of the store yields no record with its id.
pub proof fn lemma_delete_excludes_from_listing(pre: App, post: App, idx: int, v: Seq<Timer>)
    requires
        delete_transition(pre, post, idx),
        v.len() == post.db.rows().len(),
        forall|i: int| 0 <= i < v.len() ==> (#[trigger] v[i]).model() == post.db.rows()[i],
    ensures
        post.timers@ == pre.timers@.remove(idx),
        forall|i: int| 0 <= i < v.len() ==> (#[trigger] v[i]).id != pre.timers@[idx].id,
{
    let id = pre.timers@[idx].id as int;
    crate::db::lemma_delete_removes_id(pre.db.rows(), id);
    assert forall|i: int| 0 <= i < v.len() implies (#[trigger] v[i]).id != pre.timers@[idx].id by {
        assert(v[i].model().id == post.db.rows()[i].id);
        assert(post.db.rows()[i].id != id);
    }
}

/// One typed character landed in the focused staging buffer.
pub open spec fn input_transition(pre: App, post: App, c: char) -> bool {
    &&& post == (App {
        name_input: post.name_input,
        description_input: post.description_input,
        ..pre
    })
    &&& match pre.currently_editing {
        Some(CurrentlyEditing::Name) => post.name_input@ == pre.name_input@.push(c)
            && post.description_input == pre.description_input,
        Some(CurrentlyEditing::Description) => post.description_input@
            == pre.description_input@.push(c) && post.name_input == pre.name_input,
        None => post == pre,
    }
}

/// The focused staging buffer lost its last character, if it had one.
pub open spec fn backspace_transition(pre: App, post: App) -> bool {
    &&& post == (App {
        name_input: post.name_input,
        description_input: post.description_input,
        ..pre
    })
    &&& match pre.currently_editing {
        Some(CurrentlyEditing::Name) => post.name_input@ == (if pre.name_input@.len() == 0 {
            pre.name_input@
        } else {
            pre.name_input@.drop_last()
        }) && post.description_input == pre.description_input,
        Some(CurrentlyEditing::Description) => post.description_input@ == (if pre.description_input@.len() == 0 {
            pre.description_input@
        } else {
            pre.description_input@.drop_last()
        }) && post.name_input == pre.name_input,
        None => post == pre,
    }
}

/// The modal screen was cancelled: back to `Main`, buffers discarded,
/// focus cleared.
pub open spec fn escape_transition(pre: App, post: App) -> bool {
    &&& post == (App {
        current_screen: CurrentScreen::Main,
        currently_editing: None,
        name_input: post.name_input,
        description_input: post.description_input,
        ..pre
    })
    &&& post.name_input@ == Seq::<char>::empty()
    &&& post.description_input@ == Seq::<char>::empty()
}

/// The editing focus moved to the other staging field (to the name field
/// when nothing was focused).
pub open spec fn toggle_editing_transition(pre: App, post: App) -> bool {
    &&& post == (App { currently_editing: post.currently_editing, ..pre })
    &&& post.currently_editing == (match pre.currently_editing {
        Some(CurrentlyEditing::Name) => Some(CurrentlyEditing::Description),
        Some(CurrentlyEditing::Description) => Some(CurrentlyEditing::Name),
        None => Some(CurrentlyEditing::Name),
    })
}

/// The selection advanced to the next selectable row, cyclically.
pub open spec fn next_row_transition(pre: App, post: App) -> bool {
    &&& pre.selectable_rows@.len() == 0 ==> post == pre
    &&& pre.selectable_rows@.len() > 0 ==> {
        &&& post == (App { selected: post.selected, ..pre })
        &&& post.selected == spec_next_row(pre.selectable_rows@, pre.selected as int)
    }
}

/// The selection retreated to the previous selectable row, cyclically.
pub open spec fn prev_row_transition(pre: App, post: App) -> bool {
    &&& pre.selectable_rows@.len() == 0 ==> post == pre
    &&& pre.selectable_rows@.len() > 0 ==> {
        &&& post == (App { selected: post.selected, ..pre })
        &&& post.selected == spec_prev_row(pre.selectable_rows@, pre.selected as int)
    }
}

/// The timer a visual row index refers to, if it is in range and lands on
/// a record: the count of selectable rows before it.
pub open spec fn spec_timer_index(a: App, sel: int) -> Option<int> {
    let c = count_true(a.selectable_rows@, sel);
    if sel <= a.selectable_rows@.len() && c < a.timers@.len() {
        Some(c as int)
    } else {
        None
    }
}

/// The timer the current selection refers to.
pub open spec fn spec_selected_timer(a: App) -> Option<int> {
    spec_timer_index(a, a.selected as int)
}

/// The successful edit of record `idx`: its name and description become the
/// staged texts, in the list and in the store, everything else stands.
pub open spec fn edit_transition(pre: App, post: App, idx: int) -> bool {
    &&& 0 <= idx < pre.timers@.len()
    &&& post.timers@.len() == pre.timers@.len()
    &&& forall|j: int| 0 <= j < pre.timers@.len() && j != idx ==> post.timers@[j] == pre.timers@[j]
    &&& post.timers@[idx].name@ == pre.name_input@
    &&& post.timers@[idx].description@ == pre.description_input@
    &&& post.timers@[idx].id == pre.timers@[idx].id
    &&& post.timers@[idx].start_time_s == pre.timers@[idx].start_time_s
    &&& post.timers@[idx].duration_s == pre.timers@[idx].duration_s
    &&& post.timers@[idx].running == pre.timers@[idx].running
    &&& post.db.rows() == crate::db::rows_edited(
        pre.db.rows(),
        pre.timers@[idx].id as int,
        pre.name_input@,
        pre.description_input@,
    )
    &&& crate::db::count_id(pre.db.rows(), pre.timers@[idx].id as int) > 0
    &&& post.currently_editing is None
    &&& post.name_input == pre.name_input
    &&& post.description_input == pre.description_input
    &&& post.current_screen == pre.current_screen
    &&& post.selected == pre.selected
    &&& post.selectable_rows == pre.selectable_rows
    &&& post.throbber == pre.throbber
    &&& post.exit_button_selected == pre.exit_button_selected
    &&& post.tick_ref_ms == pre.tick_ref_ms
    &&& post.delete_armed == pre.delete_armed
    &&& post.delete_armed_at_ms == pre.delete_armed_at_ms
}

/// The successful delete of record `idx`: it leaves the list and every row
/// with its id leaves the store; everything else stands.
pub open spec fn delete_transition(pre: App, post: App, idx: int) -> bool {
    &&& 0 <= idx < pre.timers@.len()
    &&& post.timers@ == pre.timers@.remove(idx)
    &&& post.db.rows() == crate::db::rows_without(pre.db.rows(), pre.timers@[idx].id as int)
    &&& crate::db::count_id(pre.db.rows(), pre.timers@[idx].id as int) > 0
    &&& crate::db::count_id(post.db.rows(), pre.timers@[idx].id as int) == 0
    &&& post == (App { timers: post.timers, db: post.db, ..pre })
}

impl App {
    /// Commit the staging buffers onto the selected record, in the list and
    /// in the store. `ValidationError` exactly when the staged name is
    /// empty, with nothing changed; `NotFoundError` when the store does not
    /// know the record's id; a no-op when no record is selected.
    pub fn edit_timer(&mut self) -> (r: Result<(), TimerError>)
        requires
            old(self).wf(),
        ensures
            final(self).wf(),
            match spec_selected_timer(*old(self)) {
                None => r == Ok::<(), TimerError>(()) && *final(self) == *old(self),
                Some(idx) => {
                    &&& (old(self).name_input@.len() == 0 <==> r == Err::<(), TimerError>(
                        TimerError::ValidationError,
                    ))
                    &&& match r {
                        Ok(()) => edit_transition(*old(self), *final(self), idx),
                        Err(TimerError::ValidationError) => *final(self) == *old(self),
                        Err(TimerError::NotFoundError) => unchanged_except_db_value(
                            *old(self),
                            *final(self),
                        ) && crate::db::count_id(
                            old(self).db.rows(),
                            old(self).timers@[idx].id as int,
                        ) == 0,
                        Err(TimerError::StorageError) => unchanged_except_db_value(
                            *old(self),
                            *final(self),
                        ),
                    }
                },
            },
    {
        let sel = self.get_timer_index_from_selection(self.selected);
        match sel {
            None => Ok(()),
            Some(timer_index) => {
                if self.name_input.as_str().is_empty() {
                    return Err(TimerError::ValidationError);
                }
                let res = self.db.edit_timer(
                    &self.timers[timer_index],
                    self.name_input.as_str(),
                    self.description_input.as_str(),
                );
                match res {
                    Ok(()) => {
                        let name = self.name_input.clone();
                        let description = self.description_input.clone();
                        let t = &mut self.timers[timer_index];
                        t.name = name;
                        t.description = description;
                        self.currently_editing = None;
                        Ok(())
                    }
                    Err(e) => Err(e),
                }
            }
        }
    }

    /// Remove the selected record from the list and the store.
    /// `NotFoundError` when the store does not know its id, with the list
    /// unchanged; a no-op when no record is selected.
    pub fn delete_selected_timer(&mut self) -> (r: Result<(), TimerError>)
        requires
            old(self).wf(),
        ensures
            final(self).wf(),
            match spec_selected_timer(*old(self)) {
                None => r == Ok::<(), TimerError>(()) && *final(self) == *old(self),
                Some(idx) => match r {
                    Ok(()) => delete_transition(*old(self), *final(self), idx),
                    Err(TimerError::NotFoundError) => unchanged_except_db_value(
                        *old(self),
                        *final(self),
                    ) && crate::db::count_id(
                        old(self).db.rows(),
                        old(self).timers@[idx].id as int,
                    ) == 0,
                    Err(TimerError::StorageError) => unchanged_except_db_value(
                        *old(self),
                        *final(self),
                    ),
                    Err(TimerError::ValidationError) => false,
                },
            },
    {
        let sel = self.get_timer_index_from_selection(self.selected);
        match sel {
            None => Ok(()),
            Some(timer_index) => {
                let id = self.timers[timer_index].id;
                match self.db.delete_timer(id) {
                    Ok(()) => {
                        self.timers.remove(timer_index);
                        Ok(())
                    }
                    Err(e) => Err(e),
                }
            }
        }
    }
}

/// What a key does on the exit-confirmation screen.
pub open spec fn exit_key_transition(pre: App, post: App, key: Key, r: Result<
    KeyOutcome,
    TimerError,
>) -> bool {
    match key {
        Key::Char(c) => if c == 'q' || c == 'n' {
            post == (App { current_screen: CurrentScreen::Main, ..pre }) && r == Ok::<
                KeyOutcome,
                TimerError,
            >(KeyOutcome::Continue)
        } else if c == 'y' {
            post == pre && r == Ok::<KeyOutcome, TimerError>(KeyOutcome::Quit)
        } else {
            post == pre && r == Ok::<KeyOutcome, TimerError>(KeyOutcome::Continue)
        },
        Key::CtrlChar(c) => if c == 'c' {
            post == pre && r == Ok::<KeyOutcome, TimerError>(KeyOutcome::Quit)
        } else {
            post == pre && r == Ok::<KeyOutcome, TimerError>(KeyOutcome::Continue)
        },
        Key::Tab => post == (App { exit_button_selected: !pre.exit_button_selected, ..pre }) && r
            == Ok::<KeyOutcome, TimerError>(KeyOutcome::Continue),
        Key::Enter => if pre.exit_button_selected {
            post == pre && r == Ok::<KeyOutcome, TimerError>(KeyOutcome::Quit)
        } else {
            post == (App { current_screen: CurrentScreen::Main, ..pre }) && r == Ok::<
                KeyOutcome,
                TimerError,
            >(KeyOutcome::Continue)
        },
        _ => post == pre && r == Ok::<KeyOutcome, TimerError>(KeyOutcome::Continue),
    }
}

/// What a key does on the add-timer screen: text editing in the staging
/// buffers, Tab between fields, Enter advancing from the name field and
/// committing from the description field, Esc cancelling. A failed commit
/// leaves the screen up so the user can mend the input and retry.
pub open spec fn add_key_transition(pre: App, post: App, key: Key, now: int, r: Result<
    KeyOutcome,
    TimerError,
>) -> bool {
    match key {
        Key::Enter => match pre.currently_editing {
            None => post == pre && r == Ok::<KeyOutcome, TimerError>(KeyOutcome::Continue),
            Some(CurrentlyEditing::Name) => post == (App {
                currently_editing: Some(CurrentlyEditing::Description),
                ..pre
            }) && r == Ok::<KeyOutcome, TimerError>(KeyOutcome::Continue),
            Some(CurrentlyEditing::Description) => {
                &&& (pre.name_input@.len() == 0 <==> r == Err::<KeyOutcome, TimerError>(
                    TimerError::ValidationError,
                ))
                &&& match r {
                    Ok(o) => o == KeyOutcome::Continue && add_transition(
                        (App { current_screen: CurrentScreen::Main, ..pre }),
                        post,
                        now,
                    ),
                    Err(TimerError::ValidationError) => post == pre,
                    Err(TimerError::StorageError) => unchanged_except_db_value(pre, post),
                    Err(TimerError::NotFoundError) => false,
                }
            },
        },
        Key::Backspace => backspace_transition(pre, post) && r == Ok::<KeyOutcome, TimerError>(
            KeyOutcome::Continue,
        ),
        Key::Esc => escape_transition(pre, post) && r == Ok::<KeyOutcome, TimerError>(
            KeyOutcome::Continue,
        ),
        Key::Tab => toggle_editing_transition(pre, post) && r == Ok::<KeyOutcome, TimerError>(
            KeyOutcome::Continue,
        ),
        Key::Char(c) => input_transition(pre, post, c) && r == Ok::<KeyOutcome, TimerError>(
            KeyOutcome::Continue,
        ),
        _ => post == pre && r == Ok::<KeyOutcome, TimerError>(KeyOutcome::Continue),
    }
}

/// What a key does on the edit-timer screen: as on the add screen, but
/// Enter from the description field commits the edit of the selected
/// record.
pub open spec fn edit_key_transition(pre: App, post: App, key: Key, r: Result<
    KeyOutcome,
    TimerError,
>) -> bool {
    match key {
        Key::Enter => match pre.currently_editing {
            None => post == pre && r == Ok::<KeyOutcome, TimerError>(KeyOutcome::Continue),
            Some(CurrentlyEditing::Name) => post == (App {
                currently_editing: Some(CurrentlyEditing::Description),
                ..pre
            }) && r == Ok::<KeyOutcome, TimerError>(KeyOutcome::Continue),
            Some(CurrentlyEditing::Description) => match spec_selected_timer(pre) {
                None => post == (App { current_screen: CurrentScreen::Main, ..pre }) && r == Ok::<
                    KeyOutcome,
                    TimerError,
                >(KeyOutcome::Continue),
                Some(idx) => {
                    &&& (pre.name_input@.len() == 0 <==> r == Err::<KeyOutcome, TimerError>(
                        TimerError::ValidationError,
                    ))
                    &&& match r {
                        Ok(o) => o == KeyOutcome::Continue && edit_transition(
                            (App { current_screen: CurrentScreen::Main, ..pre }),
                            post,
                            idx,
                        ),
                        Err(TimerError::ValidationError) => post == pre,
                        Err(TimerError::NotFoundError) => unchanged_except_db_value(pre, post)
                            && crate::db::count_id(pre.db.rows(), pre.timers@[idx].id as int) == 0,
                        Err(TimerError::StorageError) => unchanged_except_db_value(pre, post),
                    }
                },
            },
        },
        Key::Backspace => backspace_transition(pre, post) && r == Ok::<KeyOutcome, TimerError>(
            KeyOutcome::Continue,
        ),
        Key::Esc => escape_transition(pre, post) && r == Ok::<KeyOutcome, TimerError>(
            KeyOutcome::Continue,
        ),
        Key::Tab => toggle_editing_transition(pre, post) && r == Ok::<KeyOutcome, TimerError>(
            KeyOutcome::Continue,
        ),
        Key::Char(c) => input_transition(pre, post, c) && r == Ok::<KeyOutcome, TimerError>(
            KeyOutcome::Continue,
        ),
        _ => post == pre && r == Ok::<KeyOutcome, TimerError>(KeyOutcome::Continue),
    }
}

/// What a key does on the main screen. Every key other than `d` disarms
/// the delete-confirmation gesture; a `d` while armed and within the
/// confirmation window executes the delete, otherwise it (re)arms the
/// gesture at `now`.
pub open spec fn main_key_transition(pre: App, post: App, key: Key, now: int, r: Result<
    KeyOutcome,
    TimerError,
>) -> bool {
    let disarmed = (App { delete_armed: false, ..pre });
    match key {
        Key::Esc => post == (App {
            current_screen: CurrentScreen::Exit,
            delete_armed: false,
            ..pre
        }) && r == Ok::<KeyOutcome, TimerError>(KeyOutcome::Continue),
        Key::CtrlChar(c) => if c == 'c' {
            post == (App { current_screen: CurrentScreen::Exit, delete_armed: false, ..pre }) && r
                == Ok::<KeyOutcome, TimerError>(KeyOutcome::Continue)
        } else {
            post == disarmed && r == Ok::<KeyOutcome, TimerError>(KeyOutcome::Continue)
        },
        Key::AltChar(c) => if c == 'i' {
            &&& post == (App {
                current_screen: CurrentScreen::Add,
                currently_editing: Some(CurrentlyEditing::Name),
                name_input: post.name_input,
                description_input: post.description_input,
                delete_armed: false,
                ..pre
            })
            &&& post.name_input@ == Seq::<char>::empty()
            &&& post.description_input@ == Seq::<char>::empty()
            &&& r == Ok::<KeyOutcome, TimerError>(KeyOutcome::Continue)
        } else {
            post == disarmed && r == Ok::<KeyOutcome, TimerError>(KeyOutcome::Continue)
        },
        Key::Char(c) => if c == 'j' {
            next_row_transition(disarmed, post) && r == Ok::<KeyOutcome, TimerError>(
                KeyOutcome::Continue,
            )
        } else if c == 'k' {
            prev_row_transition(disarmed, post) && r == Ok::<KeyOutcome, TimerError>(
                KeyOutcome::Continue,
            )
        } else if c == 'd' {
            if pre.delete_armed && now - pre.delete_armed_at_ms < 500 {
                match spec_selected_timer(pre) {
                    None => post == disarmed && r == Ok::<KeyOutcome, TimerError>(
                        KeyOutcome::Continue,
                    ),
                    Some(idx) => match r {
                        Ok(o) => o == KeyOutcome::Continue && delete_transition(
                            disarmed,
                            post,
                            idx,
                        ),
                        Err(TimerError::NotFoundError) => unchanged_except_db_value(disarmed, post)
                            && crate::db::count_id(pre.db.rows(), pre.timers@[idx].id as int) == 0,
                        Err(TimerError::StorageError) => unchanged_except_db_value(disarmed, post),
                        Err(TimerError::ValidationError) => false,
                    },
                }
            } else {
                &&& post == (App {
                    delete_armed: true,
                    delete_armed_at_ms: post.delete_armed_at_ms,
                    ..pre
                })
                &&& post.delete_armed_at_ms == now
                &&& r == Ok::<KeyOutcome, TimerError>(KeyOutcome::Continue)
            }
        } else if c == 'e' {
            match spec_selected_timer(pre) {
                Some(idx) => {
                    &&& post == (App {
                        current_screen: CurrentScreen::Edit,
                        currently_editing: Some(CurrentlyEditing::Name),
                        name_input: post.name_input,
                        description_input: post.description_input,
                        delete_armed: false,
                        ..pre
                    })
                    &&& post.name_input@ == pre.timers@[idx].name@
                    &&& post.description_input@ == pre.timers@[idx].description@
                    &&& r == Ok::<KeyOutcome, TimerError>(KeyOutcome::Continue)
                },
                None => post == disarmed && r == Ok::<KeyOutcome, TimerError>(
                    KeyOutcome::Continue,
                ),
            }
        } else if c == ' ' {
            toggle_transition(disarmed, post, now) && r == Ok::<KeyOutcome, TimerError>(
                KeyOutcome::Continue,
            )
        } else {
            post == disarmed && r == Ok::<KeyOutcome, TimerError>(KeyOutcome::Continue)
        },
        _ => post == disarmed && r == Ok::<KeyOutcome, TimerError>(KeyOutcome::Continue),
    }
}

impl App {
    /// Handle one key on the exit-confirmation screen.
    pub fn handle_exit_key(&mut self, key: Key) -> (r: Result<KeyOutcome, TimerError>)
        requires
            old(self).wf(),
        ensures
            final(self).wf(),
            exit_key_transition(*old(self), *final(self), key, r),
    {
        match key {
            Key::Char(c) => {
                if c == 'q' || c == 'n' {
                    self.current_screen = CurrentScreen::Main;
                    Ok(KeyOutcome::Continue)
                } else if c == 'y' {
                    Ok(KeyOutcome::Quit)
                } else {
                    Ok(KeyOutcome::Continue)
                }
            }
            Key::CtrlChar(c) => {
                if c == 'c' {
                    Ok(KeyOutcome::Quit)
                } else {
                    Ok(KeyOutcome::Continue)
                }
            }
            Key::Tab => {
                self.toggle_exit_button();
                Ok(KeyOutcome::Continue)
            }
            Key::Enter => {
                if self.exit_button_selected {
                    Ok(KeyOutcome::Quit)
                } else {
                    self.current_screen = CurrentScreen::Main;
                    Ok(KeyOutcome::Continue)
                }
            }
            _ => Ok(KeyOutcome::Continue),
        }
    }

    /// Handle one key on the add-timer screen.
    pub fn handle_add_key(&mut self, key: Key, now_ms: i64) -> (r: Result<KeyOutcome, TimerError>)
        requires
            old(self).wf(),
            valid_now_ms(now_ms as int),
        ensures
            final(self).wf(),
            add_key_transition(*old(self), *final(self), key, now_ms as int, r),
    {
        match key {
            Key::Enter => {
                match self.currently_editing {
                    None => Ok(KeyOutcome::Continue),
                    Some(CurrentlyEditing::Name) => {
                        self.currently_editing = Some(CurrentlyEditing::Description);
                        Ok(KeyOutcome::Continue)
                    }
                    Some(CurrentlyEditing::Description) => {
                        match self.add_timer_at(now_ms) {
                            Ok(()) => {
                                self.current_screen = CurrentScreen::Main;
                                Ok(KeyOutcome::Continue)
                            }
                            Err(e) => Err(e),
                        }
                    }
                }
            }
            Key::Backspace => {
                handle_backspace(self);
                Ok(KeyOutcome::Continue)
            }
            Key::Esc => {
                handle_escape(self);
                Ok(KeyOutcome::Continue)
            }
            Key::Tab => {
                self.toggle_editing();
                Ok(KeyOutcome::Continue)
            }
            Key::Char(c) => {
                handle_input(self, c);
                Ok(KeyOutcome::Continue)
            }
            _ => Ok(KeyOutcome::Continue),
        }
    }

    /// Handle one key on the edit-timer screen.
    pub fn handle_edit_key(&mut self, key: Key) -> (r: Result<KeyOutcome, TimerError>)
        requires
            old(self).wf(),
        ensures
            final(self).wf(),
            edit_key_transition(*old(self), *final(self), key, r),
    {
        match key {
            Key::Enter => {
                match self.currently_editing {
                    None => Ok(KeyOutcome::Continue),
                    Some(CurrentlyEditing::Name) => {
                        self.currently_editing = Some(CurrentlyEditing::Description);
                        Ok(KeyOutcome::Continue)
                    }
                    Some(CurrentlyEditing::Description) => {
                        match self.edit_timer() {
                            Ok(()) => {
                                self.current_screen = CurrentScreen::Main;
                                Ok(KeyOutcome::Continue)
                            }
                            Err(e) => Err(e),
                        }
                    }
                }
            }
            Key::Backspace => {
                handle_backspace(self);
                Ok(KeyOutcome::Continue)
            }
            Key::Esc => {
                handle_escape(self);
                Ok(KeyOutcome::Continue)
            }
            Key::Tab => {
                self.toggle_editing();
                Ok(KeyOutcome::Continue)
            }
            Key::Char(c) => {
                handle_input(self, c);
                Ok(KeyOutcome::Continue)
            }
            _ => Ok(KeyOutcome::Continue),
        }
    }

    /// Handle one key on the main screen.
    pub fn handle_main_key(&mut self, key: Key, now_ms: i64) -> (r: Result<KeyOutcome, TimerError>)
        requires
            old(self).wf(),
            valid_now_ms(now_ms as int),
        ensures
            final(self).wf(),
            main_key_transition(*old(self), *final(self), key, now_ms as int, r),
    {
        match key {
            Key::Esc => {
                self.delete_armed = false;
                self.current_screen = CurrentScreen::Exit;
                Ok(KeyOutcome::Continue)
            }
            Key::CtrlChar(c) => {
                self.delete_armed = false;
                if c == 'c' {
                    self.current_screen = CurrentScreen::Exit;
                }
                Ok(KeyOutcome::Continue)
            }
            Key::AltChar(c) => {
                self.delete_armed = false;
                if c == 'i' {
                    self.current_screen = CurrentScreen::Add;
                    self.currently_editing = Some(CurrentlyEditing::Name);
                    self.name_input = String::new();
                    self.description_input = String::new();
                }
                Ok(KeyOutcome::Continue)
            }
            Key::Char(c) => {
                if c == 'j' {
                    self.delete_armed = false;
                    self.next_row();
                    Ok(KeyOutcome::Continue)
                } else if c == 'k' {
                    self.delete_armed = false;
                    self.previous_row();
                    Ok(KeyOutcome::Continue)
                } else if c == 'd' {
                    if self.delete_armed && now_ms - self.delete_armed_at_ms < 500 {
                        self.delete_armed = false;
                        match self.delete_selected_timer() {
                            Ok(()) => Ok(KeyOutcome::Continue),
                            Err(e) => Err(e),
                        }
                    } else {
                        self.delete_armed = true;
                        self.delete_armed_at_ms = now_ms;
                        Ok(KeyOutcome::Continue)
                    }
                } else if c == 'e' {
                    self.delete_armed = false;
                    let sel = self.get_timer_index_from_selection(self.selected);
                    match sel {
                        Some(timer_index) => {
                            self.current_screen = CurrentScreen::Edit;
                            self.currently_editing = Some(CurrentlyEditing::Name);
                            self.name_input = self.timers[timer_index].name.clone();
                            self.description_input = self.timers[timer_index].description.clone();
                            Ok(KeyOutcome::Continue)
                        }
                        None => Ok(KeyOutcome::Continue),
                    }
                } else if c == ' ' {
                    self.delete_armed = false;
                    self.toggle_timer_at(now_ms);
                    Ok(KeyOutcome::Continue)
                } else {
                    self.delete_armed = false;
                    Ok(KeyOutcome::Continue)
                }
            }
            _ => {
                self.delete_armed = false;
                Ok(KeyOutcome::Continue)
            }
        }
    }

    /// Dispatch one key by the active screen: the whole keyboard surface of
    /// the application.
    pub fn handle_key(&mut self, key: Key, now_ms: i64) -> (r: Result<KeyOutcome, TimerError>)
        requires
            old(self).wf(),
            valid_now_ms(now_ms as int),
        ensures
            final(self).wf(),
            match old(self).current_screen {
                CurrentScreen::Main => main_key_transition(
                    *old(self),
                    *final(self),
                    key,
                    now_ms as int,
                    r,
                ),
                CurrentScreen::Exit => exit_key_transition(*old(self), *final(self), key, r),
                CurrentScreen::Add => add_key_transition(
                    *old(self),
                    *final(self),
                    key,
                    now_ms as int,
                    r,
                ),
                CurrentScreen::Edit => edit_key_transition(*old(self), *final(self), key, r),
            },
    {
        match self.current_screen {
            CurrentScreen::Main => self.handle_main_key(key, now_ms),
            CurrentScreen::Exit => self.handle_exit_key(key),
            CurrentScreen::Add => self.handle_add_key(key, now_ms),
            CurrentScreen::Edit => self.handle_edit_key(key),
        }
    }
}

/// Check that a loaded list is one the session model accepts: every record
/// with a non-negative elapsed time and a representable start instant. The
/// unverified loader gates what it read from storage on this before handing
/// it to the session.
pub fn timers_well_formed(timers: &Vec<Timer>) -> (b: bool)
    ensures
        b == (forall|i: int| 0 <= i < timers@.len() ==> (#[trigger] timers@[i]).wf()),
{
    let mut i: usize = 0;
    while i < timers.len()
        invariant
            i <= timers@.len(),
            forall|j: int| 0 <= j < i ==> (#[trigger] timers@[j]).wf(),
        decreases timers@.len() - i,
    {
        let t = &timers[i];
        if !(0 <= t.duration_s && 0 <= t.start_time_s && t.start_time_s
            <= crate::clock::MAX_EPOCH_S) {
            return false;
        }
        i = i + 1;
    }
    true
}

/// Route one typed character into the focused staging buffer.
pub fn handle_input(app: &mut App, c: char)
    ensures
        input_transition(*old(app), *final(app), c),
{
    if let Some(edit_mode) = &app.currently_editing {
        match edit_mode {
            CurrentlyEditing::Name => {
                app.name_input.push(c);
            }
            CurrentlyEditing::Description => {
                app.description_input.push(c);
            }
        }
    }
}

/// Delete the last character of the focused staging buffer, if any.
pub fn handle_backspace(app: &mut App)
    ensures
        backspace_transition(*old(app), *final(app)),
{
    if let Some(edit_mode) = &app.currently_editing {
        match edit_mode {
            CurrentlyEditing::Name => {
                app.name_input.pop();
            }
            CurrentlyEditing::Description => {
                app.description_input.pop();
            }
        }
    }
}

/// Cancel the modal screen: back to `Main`, staging buffers discarded,
/// editing focus cleared.
pub fn handle_escape(app: &mut App)
    ensures
        escape_transition(*old(app), *final(app)),
{
    app.current_screen = CurrentScreen::Main;
    app.currently_editing = None;
    app.name_input = String::new();
    app.description_input = String::new();
}

} // verus!
