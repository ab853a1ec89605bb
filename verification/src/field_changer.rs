use vstd::prelude::*;

use crate::general_types::{IncDec, OptionCursor};

verus! {

/// How a setting is to be changed: the increase and decrease inputs of the frame, a value
/// that an event sets, the step of one change and the limits, and whether a handler is
/// told of the change.
pub struct FieldChanger<T> {
    pub incdec: IncDec<bool>,
    pub trigger_handler: bool,
    pub event_value: Option<T>,
    pub velocity: Option<T>,
    pub min: Option<T>,
    pub max: Option<T>,
}

/// What a change of a setting asks of its caller besides the new value: to report a
/// limit that was hit, and to call the trigger handler with the new value.
#[derive(Copy, Clone, Debug, PartialEq, Eq)]
pub struct FieldChange {
    pub minimum_notice: bool,
    pub maximum_notice: bool,
    pub triggered: bool,
}

impl<T> FieldChanger<T> {
    pub fn new(incdec: IncDec<bool>) -> (r: FieldChanger<T>)
        ensures
            r.incdec == incdec,
            !r.trigger_handler,
            r.event_value is None,
            r.velocity is None,
            r.min is None,
            r.max is None,
    {
        FieldChanger {
            incdec,
            trigger_handler: false,
            event_value: None,
            velocity: None,
            min: None,
            max: None,
        }
    }

    pub fn set_event_value(self, event_value: Option<T>) -> (r: FieldChanger<T>)
        ensures
            r == (FieldChanger { event_value, ..self }),
    {
        FieldChanger { event_value, ..self }
    }

    /// The change is to be reported to a handler.
    pub fn set_trigger_handler(self) -> (r: FieldChanger<T>)
        ensures
            r == (FieldChanger { trigger_handler: true, ..self }),
    {
        FieldChanger { trigger_handler: true, ..self }
    }

    pub fn set_progression(self, velocity: T) -> (r: FieldChanger<T>)
        ensures
            r == (FieldChanger { velocity: Some(velocity), ..self }),
    {
        FieldChanger { velocity: Some(velocity), ..self }
    }

    pub fn set_min(self, min: T) -> (r: FieldChanger<T>)
        ensures
            r == (FieldChanger { min: Some(min), ..self }),
    {
        FieldChanger { min: Some(min), ..self }
    }

    pub fn set_max(self, max: T) -> (r: FieldChanger<T>)
        ensures
            r == (FieldChanger { max: Some(max), ..self }),
    {
        FieldChanger { max: Some(max), ..self }
    }
}

/// Something asked to change a setting: an input or an event.
pub open spec fn asked_to_change<T>(c: FieldChanger<T>) -> bool {
    c.incdec.increase || c.incdec.decrease || c.event_value is Some
}

/// The option after the increase input (one step forward).
pub open spec fn option_after_increase<T: OptionCursor>(v: T, c: FieldChanger<T>) -> T {
    if c.incdec.increase {
        v.next_spec()
    } else {
        v
    }
}

/// The option after the increase input, the decrease input (one step back) and the event.
pub open spec fn option_after<T: OptionCursor>(v: T, c: FieldChanger<T>) -> T {
    let v1 = option_after_increase(v, c);
    let v2 = if c.incdec.decrease {
        v1.previous_spec()
    } else {
        v1
    };
    match c.event_value {
        Some(e) => e,
        None => v2,
    }
}

/// The steps that the inputs ask for can be taken.
pub open spec fn options_can_step<T: OptionCursor>(v: T, c: FieldChanger<T>) -> bool {
    &&& c.incdec.increase ==> v.can_step()
    &&& c.incdec.decrease ==> option_after_increase(v, c).can_step()
}

/// What changing the option `v` into `n` asks of the caller: a changed option that hit
/// the bottom or the top of its list is reported as such; any other change goes to the
/// handler.
pub open spec fn options_change<T: OptionCursor>(n: T, c: FieldChanger<T>) -> FieldChange {
    let changed = asked_to_change(c);
    FieldChange {
        minimum_notice: changed && n.minimum_reached_spec(),
        maximum_notice: changed && !n.minimum_reached_spec() && n.maximum_reached_spec(),
        triggered: changed && !n.minimum_reached_spec() && !n.maximum_reached_spec()
            && c.trigger_handler,
    }
}

impl<T: OptionCursor> FieldChanger<T> {
    /// Steps the option forward for the increase input, back for the decrease input, and
    /// sets it to the event's value.
    pub fn process_options(self, var: &mut T) -> (r: FieldChange)
        requires
            options_can_step(*old(var), self),
        ensures
            *final(var) == option_after(*old(var), self),
            r == options_change(*final(var), self),
    {
        let ghost c = self;
        let mut changed = false;
        if self.incdec.increase {
            var.next_option();
            changed = true;
        }
        if self.incdec.decrease {
            var.previous_option();
            changed = true;
        }
        if let Some(val) = self.event_value {
            *var = val;
            changed = true;
        }
        let mut r = FieldChange { minimum_notice: false, maximum_notice: false, triggered: false };
        if changed {
            if var.has_reached_minimum_limit() {
                r.minimum_notice = true;
            } else if var.has_reached_maximum_limit() {
                r.maximum_notice = true;
            } else if self.trigger_handler {
                r.triggered = true;
            }
        }
        r
    }
}

/// Integer settings that a change adds to, subtracts from, multiplies or divides.
pub trait FieldNumber: Sized + Copy {
    spec fn value(self) -> int;

    /// The integers that the type holds.
    spec fn holds(i: int) -> bool;

    proof fn lemma_holds(self)
        ensures
            Self::holds(self.value()),
    ;

    fn zero() -> (r: Self)
        ensures
            r.value() == 0,
    ;

    fn less_than(&self, other: &Self) -> (r: bool)
        ensures
            r == (self.value() < other.value()),
    ;

    fn plus(self, other: Self) -> (r: Self)
        requires
            Self::holds(self.value() + other.value()),
        ensures
            r.value() == self.value() + other.value(),
    ;

    fn minus(self, other: Self) -> (r: Self)
        requires
            Self::holds(self.value() - other.value()),
        ensures
            r.value() == self.value() - other.value(),
    ;

    fn times(self, other: Self) -> (r: Self)
        requires
            Self::holds(self.value() * other.value()),
        ensures
            r.value() == self.value() * other.value(),
    ;

    fn divided_by(self, other: Self) -> (r: Self)
        requires
            other.value() != 0,
            Self::holds(truncated_quotient(self.value(), other.value())),
        ensures
            r.value() == truncated_quotient(self.value(), other.value()),
    ;
}

/// Integer division rounded toward zero.
pub open spec fn truncated_quotient(a: int, b: int) -> int {
    let q = (if a < 0 { -a } else { a }) / (if b < 0 { -b } else { b });
    if (a < 0) != (b < 0) {
        -q
    } else {
        q
    }
}

impl FieldNumber for i32 {
    open spec fn value(self) -> int {
        self as int
    }

    open spec fn holds(i: int) -> bool {
        i32::MIN <= i <= i32::MAX
    }

    proof fn lemma_holds(self) {
    }

    fn zero() -> (r: i32) {
        0
    }

    fn less_than(&self, other: &i32) -> (r: bool) {
        *self < *other
    }

    fn plus(self, other: i32) -> (r: i32) {
        self + other
    }

    fn minus(self, other: i32) -> (r: i32) {
        self - other
    }

    fn times(self, other: i32) -> (r: i32) {
        self * other
    }

    fn divided_by(self, other: i32) -> (r: i32) {
        let a: i64 = self as i64;
        let b: i64 = other as i64;
        let abs_a: i64 = if a < 0 {
            -a
        } else {
            a
        };
        let abs_b: i64 = if b < 0 {
            -b
        } else {
            b
        };
        let q: i64 = abs_a / abs_b;
        if (a < 0) != (b < 0) {
            (-q) as i32
        } else {
            q as i32
        }
    }
}

impl FieldNumber for usize {
    open spec fn value(self) -> int {
        self as int
    }

    open spec fn holds(i: int) -> bool {
        0 <= i <= usize::MAX
    }

    proof fn lemma_holds(self) {
    }

    fn zero() -> (r: usize) {
        0
    }

    fn less_than(&self, other: &usize) -> (r: bool) {
        *self < *other
    }

    fn plus(self, other: usize) -> (r: usize) {
        self + other
    }

    fn minus(self, other: usize) -> (r: usize) {
        self - other
    }

    fn times(self, other: usize) -> (r: usize) {
        self * other
    }

    fn divided_by(self, other: usize) -> (r: usize) {
        self / other
    }
}

/// How the increase and decrease inputs change a numeric setting.
#[derive(Copy, Clone, Debug, PartialEq, Eq)]
pub enum FieldOperation {
    /// Increase adds the step, decrease subtracts it.
    Sums,
    /// Increase multiplies by the step, decrease divides by it.
    Multiplications,
}

/// The value after the increase input applies the step to `v`.
pub open spec fn increased(op: FieldOperation, v: int, step: int) -> int {
    match op {
        FieldOperation::Sums => v + step,
        FieldOperation::Multiplications => v * step,
    }
}

/// The value after the decrease input applies the step to `v`.
pub open spec fn decreased(op: FieldOperation, v: int, step: int) -> int {
    match op {
        FieldOperation::Sums => v - step,
        FieldOperation::Multiplications => truncated_quotient(v, step),
    }
}

/// The value of an optional setting, or a default.
pub open spec fn value_or<T: FieldNumber>(o: Option<T>, d: int) -> int {
    match o {
        Some(x) => x.value(),
        None => d,
    }
}

/// The setting already sits at (or below) its minimum.
pub open spec fn at_min<T: FieldNumber>(v: int, c: FieldChanger<T>) -> bool {
    c.min matches Some(m) && v <= m.value()
}

/// The setting already sits at (or above) its maximum.
pub open spec fn at_max<T: FieldNumber>(v: int, c: FieldChanger<T>) -> bool {
    c.max matches Some(m) && v >= m.value()
}

/// The value after the increase input, unless already at the maximum.
pub open spec fn number_after_increase<T: FieldNumber>(op: FieldOperation, v: int, c: FieldChanger<T>) -> int {
    if !at_max(v, c) && c.incdec.increase {
        increased(op, v, value_or(c.velocity, 0))
    } else {
        v
    }
}

/// The value after the decrease input too, unless already at the minimum.
pub open spec fn number_after_decrease<T: FieldNumber>(op: FieldOperation, v: int, c: FieldChanger<T>) -> int {
    let v1 = number_after_increase(op, v, c);
    if !at_min(v, c) && c.incdec.decrease {
        decreased(op, v1, value_or(c.velocity, 0))
    } else {
        v1
    }
}

/// The value after the inputs and the event, before the limits.
pub open spec fn number_before_limits<T: FieldNumber>(op: FieldOperation, v: int, c: FieldChanger<T>) -> int {
    match c.event_value {
        Some(e) => e.value(),
        None => number_after_decrease(op, v, c),
    }
}

/// The minimum is hit: the value went under it, or a decrease pushed against it.
pub open spec fn hits_min<T: FieldNumber>(op: FieldOperation, v: int, c: FieldChanger<T>) -> bool {
    c.min matches Some(m) && (number_before_limits(op, v, c) < m.value() || (at_min(v, c)
        && c.incdec.decrease))
}

/// The value once the minimum is applied.
pub open spec fn number_after_min<T: FieldNumber>(op: FieldOperation, v: int, c: FieldChanger<T>) -> int {
    if hits_min(op, v, c) {
        c.min->0.value()
    } else {
        number_before_limits(op, v, c)
    }
}

/// The maximum is hit: the value went over it, or an increase pushed against it.
pub open spec fn hits_max<T: FieldNumber>(op: FieldOperation, v: int, c: FieldChanger<T>) -> bool {
    c.max matches Some(m) && (number_after_min(op, v, c) > m.value() || (at_max(v, c)
        && c.incdec.increase))
}

/// The value of the setting after the change.
pub open spec fn number_after<T: FieldNumber>(op: FieldOperation, v: int, c: FieldChanger<T>) -> int {
    if hits_max(op, v, c) {
        c.max->0.value()
    } else {
        number_after_min(op, v, c)
    }
}

/// The steps that the inputs ask for stay inside the type and divide by no zero.
pub open spec fn number_steps_hold<T: FieldNumber>(op: FieldOperation, v: int, c: FieldChanger<T>) -> bool {
    let step = value_or(c.velocity, 0);
    let v1 = number_after_increase(op, v, c);
    &&& (!at_max(v, c) && c.incdec.increase) ==> T::holds(increased(op, v, step))
    &&& (!at_min(v, c) && c.incdec.decrease) ==> (op == FieldOperation::Multiplications ==> step
        != 0) && T::holds(decreased(op, v1, step))
}

/// Changes a numeric setting: the increase and decrease inputs apply the step (unless the
/// setting already sits at the limit they push toward), the event sets a value, and the
/// limits clamp it, each limit that is hit or pushed against being reported. A changed
/// value goes to the handler.
pub fn operate_filter<T: FieldNumber>(params: FieldChanger<T>, var: &mut T, op: FieldOperation) -> (r: FieldChange)
    requires
        number_steps_hold(op, old(var).value(), params),
    ensures
        final(var).value() == number_after(op, old(var).value(), params),
        r == (FieldChange {
            minimum_notice: hits_min(op, old(var).value(), params),
            maximum_notice: hits_max(op, old(var).value(), params),
            triggered: params.trigger_handler && old(var).value() != final(var).value(),
        }),
{
    let ghost v0 = var.value();
    let last_value = *var;
    let is_min = match params.min {
        Some(min) => !min.less_than(var),
        None => false,
    };
    let is_max = match params.max {
        Some(max) => !var.less_than(&max),
        None => false,
    };
    let velocity = match params.velocity {
        Some(velocity) => velocity,
        None => T::zero(),
    };
    if !is_max && params.incdec.increase {
        *var = match op {
            FieldOperation::Sums => var.plus(velocity),
            FieldOperation::Multiplications => var.times(velocity),
        };
    }
    if !is_min && params.incdec.decrease {
        *var = match op {
            FieldOperation::Sums => var.minus(velocity),
            FieldOperation::Multiplications => var.divided_by(velocity),
        };
    }
    if let Some(val) = params.event_value {
        *var = val;
    }
    let mut r = FieldChange { minimum_notice: false, maximum_notice: false, triggered: false };
    if let Some(min) = params.min {
        if var.less_than(&min) || (is_min && params.incdec.decrease) {
            *var = min;
            r.minimum_notice = true;
        }
    }
    if let Some(max) = params.max {
        if max.less_than(var) || (is_max && params.incdec.increase) {
            *var = max;
            r.maximum_notice = true;
        }
    }
    if last_value.less_than(var) || var.less_than(&last_value) {
        if params.trigger_handler {
            r.triggered = true;
        }
    }
    r
}

impl<T: FieldNumber> FieldChanger<T> {
    /// The increase input adds the step, the decrease input subtracts it.
    pub fn process_with_sums(self, var: &mut T) -> (r: FieldChange)
        requires
            number_steps_hold(FieldOperation::Sums, old(var).value(), self),
        ensures
            final(var).value() == number_after(FieldOperation::Sums, old(var).value(), self),
            r == (FieldChange {
                minimum_notice: hits_min(FieldOperation::Sums, old(var).value(), self),
                maximum_notice: hits_max(FieldOperation::Sums, old(var).value(), self),
                triggered: self.trigger_handler && old(var).value() != final(var).value(),
            }),
    {
        operate_filter(self, var, FieldOperation::Sums)
    }

    /// The increase input multiplies by the step, the decrease input divides by it.
    pub fn process_with_multiplications(self, var: &mut T) -> (r: FieldChange)
        requires
            number_steps_hold(FieldOperation::Multiplications, old(var).value(), self),
        ensures
            final(var).value() == number_after(
                FieldOperation::Multiplications,
                old(var).value(),
                self,
            ),
            r == (FieldChange {
                minimum_notice: hits_min(FieldOperation::Multiplications, old(var).value(), self),
                maximum_notice: hits_max(FieldOperation::Multiplications, old(var).value(), self),
                triggered: self.trigger_handler && old(var).value() != final(var).value(),
            }),
    {
        operate_filter(self, var, FieldOperation::Multiplications)
    }
}

/// A setting with both limits ends inside them, whatever the inputs and the event, where
/// the minimum is not above the maximum.
pub proof fn lemma_limits_hold<T: FieldNumber>(op: FieldOperation, v: int, c: FieldChanger<T>)
    requires
        c.min is Some,
        c.max is Some,
        c.min->0.value() <= c.max->0.value(),
    ensures
        c.min->0.value() <= number_after(op, v, c) <= c.max->0.value(),
{
}

/// With no input and no event, a setting is left as it is and nothing is reported, where
/// it already sits inside its limits.
pub proof fn lemma_idle_change_keeps_value<T: FieldNumber>(op: FieldOperation, v: int, c: FieldChanger<T>)
    requires
        !c.incdec.increase,
        !c.incdec.decrease,
        c.event_value is None,
        c.min matches Some(m) ==> m.value() <= v,
        c.max matches Some(m) ==> v <= m.value(),
    ensures
        number_after(op, v, c) == v,
        !hits_min(op, v, c),
        !hits_max(op, v, c),
{
}

} // verus!
