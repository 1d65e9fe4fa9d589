//! What the window shows while it is waiting for the helper to answer.
//!
//! A busy indication says only that porthole is waiting. Nothing appears
//! until an operation has gone unanswered for [`BUSY_DELAY`], so a quick
//! answer shows nothing at all; the controls that started the operation are
//! held insensitive from its first moment, so a second press cannot send a
//! second request while the first is unanswered. Overlapping operations share
//! one indication by counting.

use vstd::prelude::*;

verus! {

/// How long an operation has to stay unanswered before anything appears, in
/// milliseconds.
pub const BUSY_DELAY: u64 = 500;

/// One place a busy indication can appear: a spinner, and the controls that
/// must not be pressed again while porthole is waiting.
#[derive(Debug)]
pub struct BusyIndicator {
    outstanding: usize,
    timer_armed: bool,
    showing: bool,
    controls: Vec<bool>,
}

/// What an indication amounts to: how many operations are outstanding,
/// whether the delay is running, whether the spinner is on screen, and which
/// of the held controls can be pressed.
#[verifier::ext_equal]
pub struct BusyView {
    pub outstanding: nat,
    pub timer_armed: bool,
    pub showing: bool,
    pub controls: Seq<bool>,
}

impl BusyView {
    pub open spec fn is_busy(self) -> bool {
        self.outstanding > 0
    }

    /// While anything is outstanding, either the delay is running or the
    /// spinner is on screen, and no held control can be pressed. With nothing
    /// outstanding there is neither.
    pub open spec fn well_formed(self) -> bool {
        &&& self.is_busy() <==> self.timer_armed || self.showing
        &&& !(self.timer_armed && self.showing)
        &&& self.is_busy() ==> forall|i: int|
            0 <= i < self.controls.len() ==> !#[trigger] self.controls[i]
    }

    pub open spec fn idle() -> Self {
        BusyView {
            outstanding: 0,
            timer_armed: false,
            showing: false,
            controls: Seq::empty(),
        }
    }

    /// One more operation outstanding.
    pub open spec fn begun(self) -> Self {
        BusyView {
            outstanding: self.outstanding + 1,
            timer_armed: self.timer_armed || !self.is_busy(),
            controls: if self.is_busy() {
                self.controls
            } else {
                Seq::new(self.controls.len(), |i: int| false)
            },
            ..self
        }
    }

    /// One operation fewer outstanding. The last one takes the indication
    /// with it.
    pub open spec fn ended(self) -> Self {
        if self.outstanding > 1 {
            BusyView { outstanding: (self.outstanding - 1) as nat, ..self }
        } else {
            BusyView {
                outstanding: 0,
                timer_armed: false,
                showing: false,
                controls: Seq::new(self.controls.len(), |i: int| true),
            }
        }
    }

    /// The delay has run out.
    pub open spec fn delayed(self) -> Self {
        BusyView { timer_armed: false, showing: self.showing || self.is_busy(), ..self }
    }

    /// One more control held.
    pub open spec fn holding(self, sensitive: bool) -> Self {
        BusyView { controls: self.controls.push(sensitive && !self.is_busy()), ..self }
    }

    /// A held control's own condition has changed.
    pub open spec fn with_control(self, control: int, wanted: bool) -> Self {
        BusyView { controls: self.controls.update(control, wanted && !self.is_busy()), ..self }
    }

    /// `n` operations fewer outstanding.
    pub open spec fn ended_times(self, n: nat) -> Self
        decreases n,
    {
        if n == 0 {
            self
        } else {
            self.ended_times((n - 1) as nat).ended()
        }
    }
}

impl View for BusyIndicator {
    type V = BusyView;

    closed spec fn view(&self) -> BusyView {
        BusyView {
            outstanding: self.outstanding as nat,
            timer_armed: self.timer_armed,
            showing: self.showing,
            controls: self.controls@,
        }
    }
}

impl BusyIndicator {
    pub fn new() -> (r: Self)
        ensures
            r@ == BusyView::idle(),
            r@.well_formed(),
    {
        BusyIndicator {
            outstanding: 0,
            timer_armed: false,
            showing: false,
            controls: Vec::new(),
        }
    }

    /// Registers a control that must be insensitive for as long as anything
    /// is outstanding here, applied at once if something already is. Answers
    /// the number the control goes by.
    pub fn disable_while_busy(&mut self, sensitive: bool) -> (r: usize)
        ensures
            final(self)@ == old(self)@.holding(sensitive),
            r == old(self)@.controls.len(),
            old(self)@.well_formed() ==> final(self)@.well_formed(),
    {
        let r: usize = self.controls.len();
        let busy: bool = self.outstanding > 0;
        self.controls.push(sensitive && !busy);
        assert forall|i: int|
            old(self)@.well_formed() && busy && 0 <= i < self@.controls.len() implies !#[trigger]
        self@.controls[i] by {
            if i < r {
                assert(self@.controls[i] == old(self)@.controls[i]);
            }
        }
        r
    }

    /// Whether one more operation can be counted.
    pub fn can_begin(&self) -> (r: bool)
        ensures
            r == (self@.outstanding < usize::MAX),
    {
        self.outstanding < usize::MAX
    }

    /// Starts one operation. `true` when it is the first, and the delay has
    /// to be set running.
    pub fn begin(&mut self) -> (r: bool)
        requires
            old(self)@.outstanding < usize::MAX,
        ensures
            final(self)@ == old(self)@.begun(),
            r == !old(self)@.is_busy(),
            old(self)@.well_formed() ==> final(self)@.well_formed(),
    {
        let first: bool = self.outstanding == 0;
        self.outstanding = self.outstanding + 1;
        if first {
            self.set_every_control(false);
            self.timer_armed = true;
        }
        first
    }

    /// Ends one operation. `true` when the delay was still running and has
    /// to be called off.
    pub fn end(&mut self) -> (r: bool)
        ensures
            final(self)@ == old(self)@.ended(),
            r == (old(self)@.outstanding <= 1 && old(self)@.timer_armed),
            old(self)@.well_formed() ==> final(self)@.well_formed(),
    {
        let left: usize = if self.outstanding > 0 {
            self.outstanding - 1
        } else {
            0
        };
        self.outstanding = left;
        if left > 0 {
            return false;
        }
        let armed: bool = self.timer_armed;
        self.timer_armed = false;
        self.showing = false;
        self.set_every_control(true);
        armed
    }

    /// The delay has run out: the spinner appears if anything is still
    /// outstanding.
    pub fn delay_elapsed(&mut self)
        ensures
            final(self)@ == old(self)@.delayed(),
            old(self)@.well_formed() ==> final(self)@.well_formed(),
    {
        self.timer_armed = false;
        if self.outstanding > 0 {
            self.showing = true;
        }
    }

    /// Gives a held control the sensitivity its own form asks for, which
    /// never overrides an operation that is still outstanding.
    pub fn set_control(&mut self, control: usize, wanted: bool)
        requires
            control < old(self)@.controls.len(),
        ensures
            final(self)@ == old(self)@.with_control(control as int, wanted),
            old(self)@.well_formed() ==> final(self)@.well_formed(),
    {
        let busy: bool = self.outstanding > 0;
        self.controls.set(control, wanted && !busy);
    }

    /// Whether a held control can be pressed right now.
    pub fn control_is_sensitive(&self, control: usize) -> (r: bool)
        requires
            control < self@.controls.len(),
        ensures
            r == self@.controls[control as int],
    {
        self.controls[control]
    }

    /// Whether anything is outstanding here right now, whether or not the
    /// delay has gone by.
    pub fn is_busy(&self) -> (r: bool)
        ensures
            r == self@.is_busy(),
    {
        self.outstanding > 0
    }

    /// Whether the spinner is on screen.
    pub fn is_showing(&self) -> (r: bool)
        ensures
            r == self@.showing,
    {
        self.showing
    }

    fn set_every_control(&mut self, sensitive: bool)
        ensures
            final(self)@ == (BusyView {
                controls: Seq::new(old(self)@.controls.len(), |i: int| sensitive),
                ..old(self)@
            }),
    {
        let n: usize = self.controls.len();
        let ghost before = *self;
        for i in 0..n
            invariant
                n == before.controls@.len(),
                self.controls@.len() == n,
                forall|j: int| 0 <= j < i ==> self.controls@[j] == sensitive,
                self.outstanding == before.outstanding,
                self.timer_armed == before.timer_armed,
                self.showing == before.showing,
        {
            self.controls.set(i, sensitive);
        }
        assert(self.controls@ =~= Seq::new(n as nat, |i: int| sensitive));
    }
}

impl Clone for BusyIndicator {
    fn clone(&self) -> (r: Self)
        ensures
            r@ == self@,
    {
        let controls: Vec<bool> = self.controls.clone();
        assert(controls@ =~= self.controls@);
        BusyIndicator {
            outstanding: self.outstanding,
            timer_armed: self.timer_armed,
            showing: self.showing,
            controls,
        }
    }
}

impl Default for BusyIndicator {
    fn default() -> (r: Self)
        ensures
            r@ == BusyView::idle(),
    {
        Self::new()
    }
}

/// The indication belongs to the last outstanding operation, not the first:
/// as long as one of them is unanswered, ending the others changes nothing
/// but the count.
pub proof fn the_indication_outlasts_all_but_the_last(s: BusyView, n: nat)
    requires
        s.well_formed(),
        n < s.outstanding,
    ensures
        s.ended_times(n).is_busy(),
        s.ended_times(n).outstanding == s.outstanding - n,
        s.ended_times(n).timer_armed == s.timer_armed,
        s.ended_times(n).showing == s.showing,
        s.ended_times(n).controls == s.controls,
    decreases n,
{
    if n > 0 {
        the_indication_outlasts_all_but_the_last(s, (n - 1) as nat);
    }
}

/// However many operations were outstanding, ending every one of them leaves
/// no spinner, no running delay, and every held control pressable again.
pub proof fn ending_every_operation_ends_the_indication(s: BusyView)
    requires
        s.well_formed(),
        s.is_busy(),
    ensures
        s.ended_times(s.outstanding) == (BusyView {
            outstanding: 0,
            timer_armed: false,
            showing: false,
            controls: Seq::new(s.controls.len(), |i: int| true),
        }),
{
    the_indication_outlasts_all_but_the_last(s, (s.outstanding - 1) as nat);
    assert(s.ended_times(s.outstanding) =~= s.ended_times(
        (s.outstanding - 1) as nat,
    ).ended());
}

/// An operation that is over before the delay is never seen: the spinner is
/// not on screen while it runs or after it.
pub proof fn a_quick_operation_shows_nothing(s: BusyView)
    requires
        s.well_formed(),
        !s.is_busy(),
    ensures
        !s.begun().showing,
        s.begun().timer_armed,
        !s.begun().ended().showing,
        !s.begun().ended().timer_armed,
{
}

/// A delay that runs out over an operation still outstanding shows the
/// spinner, and the end of that operation hides it again.
pub proof fn a_slow_operation_shows_until_it_ends(s: BusyView)
    requires
        s.well_formed(),
        !s.is_busy(),
    ensures
        s.begun().delayed().showing,
        s.begun().delayed().well_formed(),
        !s.begun().delayed().ended().showing,
{
}

/// From the first moment of an operation to its end, no held control can be
/// pressed, whatever its own form asks for meanwhile.
pub proof fn a_held_control_cannot_be_pressed_twice(s: BusyView, control: int, wanted: bool)
    requires
        s.well_formed(),
        0 <= control < s.controls.len(),
    ensures
        !s.begun().controls[control],
        !s.begun().with_control(control, wanted).controls[control],
        s.is_busy() ==> !s.controls[control],
{
}

/// The count is the whole of it: beginning adds one operation and ending
/// takes one away, an indication is busy exactly while the count is above
/// nothing, and an operation begun and ended beside others leaves everything
/// as it was.
pub proof fn beginning_and_ending_are_counted(s: BusyView)
    ensures
        s.is_busy() <==> s.outstanding != 0,
        s.begun().outstanding == s.outstanding + 1,
        s.outstanding > 0 ==> s.ended().outstanding == s.outstanding - 1,
        s.outstanding == 0 ==> s.ended().outstanding == 0,
        s.outstanding > 0 ==> s.begun().ended() == s,
        s.begun().showing == s.showing,
        s.delayed().outstanding == s.outstanding,
        s.delayed().controls == s.controls,
        !s.delayed().timer_armed,
        s.outstanding > 0 ==> s.delayed().showing,
        s.outstanding == 0 ==> s.delayed().showing == s.showing,
        BusyView::idle().outstanding == 0,
        BusyView::idle().controls.len() == 0,
        !BusyView::idle().showing,
        !BusyView::idle().timer_armed,
{
    if s.outstanding > 0 {
        assert(s.begun().ended() =~= s);
    }
}

/// A control can be pressed exactly when its own form asks for it and nothing
/// is outstanding; the last operation to end gives every control back; and no
/// control's condition touches another's.
pub proof fn a_control_follows_its_form_and_the_count(
    s: BusyView,
    control: int,
    other: int,
    wanted: bool,
)
    requires
        0 <= control < s.controls.len(),
        0 <= other < s.controls.len(),
    ensures
        s.with_control(control, wanted).controls[control] <==> wanted && s.outstanding == 0,
        other != control ==> s.with_control(control, wanted).controls[other] == s.controls[other],
        s.with_control(control, wanted).controls.len() == s.controls.len(),
        s.holding(wanted).controls[s.controls.len() as int] <==> wanted && s.outstanding == 0,
        s.holding(wanted).controls.len() == s.controls.len() + 1,
        s.holding(wanted).controls[control] == s.controls[control],
        s.outstanding <= 1 ==> s.ended().controls[control],
        s.outstanding <= 1 ==> !s.ended().showing && !s.ended().timer_armed,
        s.outstanding > 1 ==> s.ended().controls == s.controls && s.ended().showing == s.showing,
        s.outstanding == 0 ==> !s.begun().controls[control] && s.begun().timer_armed,
        s.outstanding > 0 ==> s.begun().controls == s.controls && s.begun().timer_armed
            == s.timer_armed,
        s.with_control(control, wanted).outstanding == s.outstanding,
        s.with_control(control, wanted).showing == s.showing,
        s.with_control(control, wanted).timer_armed == s.timer_armed,
        s.holding(wanted).outstanding == s.outstanding,
        s.holding(wanted).showing == s.showing,
        s.holding(wanted).timer_armed == s.timer_armed,
{
}

} // verus!
