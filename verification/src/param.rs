//! The parameter store: host-automatable controls with a declared range and a
//! smoothed value that follows the host's automation target block by block.

use crate::text::str_eq;
use crate::value::{clamp_to, from_int, ValueRange, ONE};
use vstd::prelude::*;

verus! {

/// The value that a ramp takes next, on its way from `current` to `target`
/// with `steps_left` steps to go: an equal share of what is left of the way,
/// rounded towards `current`, and the target itself at the last step.
pub open spec fn ramp_next(current: int, target: int, steps_left: int) -> int {
    if steps_left <= 1 {
        target
    } else if target >= current {
        current + (target - current) / steps_left
    } else {
        current - (current - target) / steps_left
    }
}

/// A smoother as mathematics.
pub struct SmootherModel {
    /// Lower bound of the declared range.
    pub min: i64,
    /// Upper bound of the declared range.
    pub max: i64,
    /// The smoothed value as of the last block.
    pub current: i64,
    /// The host's most recent automation target, inside the range.
    pub target: i64,
    /// Over how many blocks a change of target is spread; 0 for none.
    pub ramp: u32,
    /// How many blocks are left until the target is reached.
    pub steps_left: u32,
}

impl SmootherModel {
    /// Both the value and the target lie in the range, and a smoother that
    /// has no steps left stands on its target.
    pub open spec fn wf(self) -> bool {
        &&& self.min <= self.current <= self.max
        &&& self.min <= self.target <= self.max
        &&& self.steps_left <= self.ramp
        &&& self.steps_left == 0 ==> self.current == self.target
    }

    /// An automation event: the target moves to the scalar of the range that
    /// is nearest to `target`; without a ramp the value follows at once.
    pub open spec fn automate(self, target: i64) -> SmootherModel {
        let aim = clamp_to(target, self.min, self.max);
        SmootherModel {
            target: aim,
            current: if self.ramp == 0 {
                aim
            } else {
                self.current
            },
            steps_left: self.ramp,
            ..self
        }
    }

    /// One block passes.
    pub open spec fn step(self) -> SmootherModel {
        if self.steps_left == 0 {
            self
        } else {
            SmootherModel {
                current: ramp_next(
                    self.current as int,
                    self.target as int,
                    self.steps_left as int,
                ) as i64,
                steps_left: (self.steps_left - 1) as u32,
                ..self
            }
        }
    }
}

/// Turns the discrete automation targets of the host into a value that
/// changes by bounded steps, one step per block.
#[derive(Clone, Copy, Debug, PartialEq, Eq)]
pub struct Smoother {
    range: ValueRange,
    current: i64,
    target: i64,
    ramp: u32,
    steps_left: u32,
}

impl View for Smoother {
    type V = SmootherModel;

    closed spec fn view(&self) -> SmootherModel {
        SmootherModel {
            min: self.range.lo(),
            max: self.range.hi(),
            current: self.current,
            target: self.target,
            ramp: self.ramp,
            steps_left: self.steps_left,
        }
    }
}

/// One step of a ramp, in machine arithmetic.
fn ramp_step(current: i64, target: i64, steps_left: u32) -> (next: i64)
    requires
        steps_left >= 1,
    ensures
        next == ramp_next(current as int, target as int, steps_left as int),
        current <= target ==> current <= next <= target,
        target <= current ==> target <= next <= current,
{
    proof {
        lemma_ramp_next_between(current as int, target as int, steps_left as int);
    }
    if steps_left == 1 {
        target
    } else if target >= current {
        let gap: u64 = (target as i128 - current as i128) as u64;
        let share: u64 = gap / (steps_left as u64);
        (current as i128 + share as i128) as i64
    } else {
        let gap: u64 = (current as i128 - target as i128) as u64;
        let share: u64 = gap / (steps_left as u64);
        (current as i128 - share as i128) as i64
    }
}

/// A ramp never leaves the way between where it stands and its target.
pub proof fn lemma_ramp_next_between(current: int, target: int, steps_left: int)
    requires
        steps_left >= 1,
    ensures
        current <= target ==> current <= ramp_next(current, target, steps_left) <= target,
        target <= current ==> target <= ramp_next(current, target, steps_left) <= current,
{
    if steps_left > 1 {
        if target >= current {
            let gap = target - current;
            assert(0 <= gap / steps_left <= gap) by (nonlinear_arith)
                requires
                    gap >= 0,
                    steps_left > 1,
            ;
        } else {
            let gap = current - target;
            assert(0 <= gap / steps_left <= gap) by (nonlinear_arith)
                requires
                    gap >= 0,
                    steps_left > 1,
            ;
        }
    }
}

impl Smoother {
    #[verifier::type_invariant]
    spec fn inv(&self) -> bool {
        self@.wf()
    }

    /// A smoother that rests on `start`, or nothing where `start` lies
    /// outside `range`. A change of target is spread over `ramp` blocks.
    pub fn new(range: ValueRange, start: i64, ramp: u32) -> (smoother: Option<Smoother>)
        ensures
            smoother.is_some() == range.holds(start),
            smoother matches Some(s) ==> s@ == (SmootherModel {
                min: range.lo(),
                max: range.hi(),
                current: start,
                target: start,
                ramp: ramp,
                steps_left: 0,
            }),
    {
        if range.contains(start) {
            Some(Smoother { range, current: start, target: start, ramp, steps_left: 0 })
        } else {
            None
        }
    }

    /// Takes an automation event of the host: the new target is `target`,
    /// brought into the declared range.
    pub fn automate(&mut self, target: i64)
        ensures
            final(self)@.wf(),
            final(self)@ == old(self)@.automate(target),
    {
        proof {
            use_type_invariant(&*self);
        }
        let aim = self.range.clamp(target);
        let current = if self.ramp == 0 {
            aim
        } else {
            self.current
        };
        *self = Smoother {
            range: self.range,
            current,
            target: aim,
            ramp: self.ramp,
            steps_left: self.ramp,
        };
    }

    /// Advances by one block and returns the smoothed value.
    pub fn next(&mut self) -> (value: i64)
        ensures
            final(self)@.wf(),
            final(self)@ == old(self)@.step(),
            value == final(self)@.current,
    {
        proof {
            use_type_invariant(&*self);
        }
        if self.steps_left > 0 {
            let next = ramp_step(self.current, self.target, self.steps_left);
            *self = Smoother {
                range: self.range,
                current: next,
                target: self.target,
                ramp: self.ramp,
                steps_left: self.steps_left - 1,
            };
        }
        self.current
    }

    /// The smoothed value as of the last block.
    pub fn current(&self) -> (value: i64)
        ensures
            self@.wf(),
            value == self@.current,
    {
        proof {
            use_type_invariant(self);
        }
        self.current
    }

    /// The automation target that the value is heading for.
    pub fn target(&self) -> (value: i64)
        ensures
            self@.wf(),
            value == self@.target,
    {
        proof {
            use_type_invariant(self);
        }
        self.target
    }

    /// Whether the value still has to move to reach its target.
    pub fn is_smoothing(&self) -> (moving: bool)
        ensures
            moving == (self@.steps_left > 0),
    {
        self.steps_left > 0
    }
}

impl Smoother {
    /// The same smoother at rest on its target, with later changes of target
    /// spread over `ramp` blocks.
    pub fn with_ramp(self, ramp: u32) -> (smoother: Smoother)
        ensures
            smoother@.wf(),
            smoother@ == (SmootherModel {
                current: self@.target,
                ramp: ramp,
                steps_left: 0,
                ..self@
            }),
    {
        proof {
            use_type_invariant(&self);
        }
        Smoother {
            range: self.range,
            current: self.target,
            target: self.target,
            ramp,
            steps_left: 0,
        }
    }

    /// The declared range.
    pub fn range(&self) -> (range: ValueRange)
        ensures
            range.lo() == self@.min,
            range.hi() == self@.max,
    {
        self.range
    }
}

/// A parameter as mathematics.
pub struct ParamModel {
    /// The stable identity that host automation addresses.
    pub id: Seq<char>,
    /// The display name.
    pub name: Seq<char>,
    /// The unit label.
    pub unit: Seq<char>,
    /// The control path of the graph that the parameter drives.
    pub path: Seq<char>,
    /// The value that the parameter is declared with.
    pub default: i64,
    /// Range, target and smoothed value.
    pub smoothed: SmootherModel,
}

impl ParamModel {
    /// The smoother is in order and the default lies in the declared range.
    pub open spec fn wf(self) -> bool {
        &&& self.smoothed.wf()
        &&& self.smoothed.min <= self.default <= self.smoothed.max
    }

    /// An automation event of the host.
    pub open spec fn automate(self, target: i64) -> ParamModel {
        ParamModel { smoothed: self.smoothed.automate(target), ..self }
    }

    /// One block passes.
    pub open spec fn step(self) -> ParamModel {
        ParamModel { smoothed: self.smoothed.step(), ..self }
    }
}

/// One host-automatable control: identity, display name, unit, linear range,
/// the control path it drives, and its smoothed value.
#[derive(Debug)]
pub struct Parameter {
    id: String,
    name: String,
    unit: String,
    path: String,
    default: i64,
    smoothed: Smoother,
}

impl View for Parameter {
    type V = ParamModel;

    closed spec fn view(&self) -> ParamModel {
        ParamModel {
            id: self.id@,
            name: self.name@,
            unit: self.unit@,
            path: self.path@,
            default: self.default,
            smoothed: self.smoothed@,
        }
    }
}

impl Parameter {
    #[verifier::type_invariant]
    spec fn inv(&self) -> bool {
        self@.wf()
    }

    /// Declares a parameter that drives the control input at `path`, or
    /// nothing where `default` lies outside `range`. The parameter starts at
    /// rest on its default, without a unit and without a ramp.
    pub fn new(id: &str, name: &str, path: &str, default: i64, range: ValueRange) -> (param:
        Option<Parameter>)
        ensures
            param.is_some() == range.holds(default),
            param matches Some(p) ==> p@.wf() && p@ == (ParamModel {
                id: id@,
                name: name@,
                unit: Seq::<char>::empty(),
                path: path@,
                default: default,
                smoothed: SmootherModel {
                    min: range.lo(),
                    max: range.hi(),
                    current: default,
                    target: default,
                    ramp: 0,
                    steps_left: 0,
                },
            }),
    {
        match Smoother::new(range, default, 0) {
            Some(smoothed) => Some(
                Parameter {
                    id: id.to_owned(),
                    name: name.to_owned(),
                    unit: String::new(),
                    path: path.to_owned(),
                    default,
                    smoothed,
                },
            ),
            None => None,
        }
    }

    /// The same parameter with the unit label `unit`.
    pub fn with_unit(self, unit: &str) -> (param: Parameter)
        ensures
            param@.wf(),
            param@ == (ParamModel { unit: unit@, ..self@ }),
    {
        proof {
            use_type_invariant(&self);
        }
        let mut param = self;
        param.unit = unit.to_owned();
        param
    }

    /// The same parameter at rest on its target, with every later change of
    /// target spread over `blocks` blocks.
    pub fn with_ramp(self, blocks: u32) -> (param: Parameter)
        ensures
            param@.wf(),
            param@ == (ParamModel {
                smoothed: SmootherModel {
                    current: self@.smoothed.target,
                    ramp: blocks,
                    steps_left: 0,
                    ..self@.smoothed
                },
                ..self@
            }),
    {
        proof {
            use_type_invariant(&self);
        }
        let mut param = self;
        param.smoothed = param.smoothed.with_ramp(blocks);
        param
    }

    /// Takes an automation event of the host.
    pub fn automate(&mut self, target: i64)
        ensures
            final(self)@.wf(),
            final(self)@ == old(self)@.automate(target),
    {
        proof {
            use_type_invariant(&*self);
        }
        let mut smoothed = self.smoothed;
        smoothed.automate(target);
        self.smoothed = smoothed;
    }

    /// Advances the smoothing by one block and returns the smoothed value,
    /// which lies in the declared range. To be called once per block.
    pub fn smoothed_value(&mut self) -> (value: i64)
        ensures
            final(self)@.wf(),
            final(self)@ == old(self)@.step(),
            value == final(self)@.smoothed.current,
            final(self)@.smoothed.min <= value <= final(self)@.smoothed.max,
    {
        proof {
            use_type_invariant(&*self);
        }
        let mut smoothed = self.smoothed;
        let value = smoothed.next();
        self.smoothed = smoothed;
        value
    }

    /// The stable identity.
    pub fn id(&self) -> (text: &str)
        ensures
            text@ == self@.id,
    {
        self.id.as_str()
    }

    /// The display name.
    pub fn name(&self) -> (text: &str)
        ensures
            text@ == self@.name,
    {
        self.name.as_str()
    }

    /// The unit label.
    pub fn unit(&self) -> (text: &str)
        ensures
            text@ == self@.unit,
    {
        self.unit.as_str()
    }

    /// The control path that the parameter drives.
    pub fn path(&self) -> (text: &str)
        ensures
            text@ == self@.path,
    {
        self.path.as_str()
    }

    /// The value that the parameter was declared with.
    pub fn default_value(&self) -> (value: i64)
        ensures
            self@.wf(),
            value == self@.default,
    {
        proof {
            use_type_invariant(self);
        }
        self.default
    }

    /// The declared range.
    pub fn range(&self) -> (range: ValueRange)
        ensures
            range.lo() == self@.smoothed.min,
            range.hi() == self@.smoothed.max,
    {
        self.smoothed.range()
    }

    /// The smoothed value as of the last block.
    pub fn value(&self) -> (value: i64)
        ensures
            self@.wf(),
            value == self@.smoothed.current,
    {
        proof {
            use_type_invariant(self);
        }
        self.smoothed.current()
    }

    /// The automation target that the value is heading for.
    pub fn target(&self) -> (value: i64)
        ensures
            self@.wf(),
            value == self@.smoothed.target,
    {
        proof {
            use_type_invariant(self);
        }
        self.smoothed.target()
    }
}

/// The identity of the one parameter of the effect.
pub const SLAPBACK_DELAY_ID: &'static str = "slapback_delay";

/// Its display name.
pub const SLAPBACK_DELAY_NAME: &'static str = "Slapback Delay";

/// Its unit label.
pub const SLAPBACK_DELAY_UNIT: &'static str = "ms";

/// The control path of the graph that it drives.
pub const SLAPBACK_DELAY_PATH: &'static str = "3. Slapback/Time";

/// The slapback delay as declared: 100 ms in a linear range from 10 ms to
/// 500 ms, without a ramp.
pub open spec fn slapback_delay() -> ParamModel {
    ParamModel {
        id: SLAPBACK_DELAY_ID@,
        name: SLAPBACK_DELAY_NAME@,
        unit: SLAPBACK_DELAY_UNIT@,
        path: SLAPBACK_DELAY_PATH@,
        default: (100 * ONE) as i64,
        smoothed: SmootherModel {
            min: (10 * ONE) as i64,
            max: (500 * ONE) as i64,
            current: (100 * ONE) as i64,
            target: (100 * ONE) as i64,
            ramp: 0,
            steps_left: 0,
        },
    }
}

/// The models of the parameters in `list`, in order.
pub open spec fn param_models(list: Seq<Parameter>) -> Seq<ParamModel> {
    list.map_values(|p: Parameter| p@)
}

/// Every parameter of `params` is in order.
pub open spec fn all_in_order(params: Seq<ParamModel>) -> bool {
    forall|i: int| 0 <= i < params.len() ==> (#[trigger] params[i]).wf()
}

/// The parameters of the effect, in the order in which they were declared.
#[derive(Debug)]
pub struct FaustIntegrationParams {
    params: Vec<Parameter>,
}

impl View for FaustIntegrationParams {
    type V = Seq<ParamModel>;

    closed spec fn view(&self) -> Seq<ParamModel> {
        param_models(self.params@)
    }
}

impl Default for FaustIntegrationParams {
    /// The parameters of the effect: the slapback delay alone.
    fn default() -> (params: FaustIntegrationParams)
        ensures
            params@ == seq![slapback_delay()],
            all_in_order(params@),
    {
        let range = ValueRange::new(from_int(10), from_int(500)).unwrap();
        let delay = Parameter::new(
            SLAPBACK_DELAY_ID,
            SLAPBACK_DELAY_NAME,
            SLAPBACK_DELAY_PATH,
            from_int(100),
            range,
        ).unwrap().with_unit(SLAPBACK_DELAY_UNIT);
        let mut params = FaustIntegrationParams::new();
        params.declare(delay);
        params
    }
}

impl FaustIntegrationParams {
    #[verifier::type_invariant]
    spec fn inv(&self) -> bool {
        all_in_order(self@)
    }

    /// A store without parameters.
    pub fn new() -> (params: FaustIntegrationParams)
        ensures
            params@ == Seq::<ParamModel>::empty(),
    {
        let list: Vec<Parameter> = Vec::new();
        assert(param_models(list@) =~= Seq::<ParamModel>::empty());
        FaustIntegrationParams { params: list }
    }

    /// Declares one more parameter, behind those declared before.
    pub fn declare(&mut self, param: Parameter)
        ensures
            final(self)@ == old(self)@.push(param@),
            all_in_order(final(self)@),
    {
        proof {
            use_type_invariant(&*self);
            use_type_invariant(&param);
        }
        let mut list: Vec<Parameter> = Vec::new();
        assert(param_models(list@) =~= Seq::<ParamModel>::empty());
        std::mem::swap(&mut list, &mut self.params);
        list.push(param);
        assert(param_models(list@) =~= old(self)@.push(param@));
        self.params = list;
    }

    /// Number of declared parameters, each of which is in order.
    pub fn len(&self) -> (n: usize)
        ensures
            n == self@.len(),
            all_in_order(self@),
    {
        proof {
            use_type_invariant(self);
        }
        self.params.len()
    }

    /// The parameter at `index`, in declaration order.
    pub fn get(&self, index: usize) -> (param: Option<&Parameter>)
        ensures
            param.is_some() == (index < self@.len()),
            param matches Some(p) ==> p@ == self@[index as int] && p@.wf(),
    {
        if index < self.params.len() {
            let param = &self.params[index];
            proof {
                use_type_invariant(param);
            }
            Some(param)
        } else {
            None
        }
    }

    /// The position of the first parameter whose identity is `id`.
    pub fn index_of(&self, id: &str) -> (index: Option<usize>)
        ensures
            match index {
                Some(i) => {
                    &&& i < self@.len()
                    &&& self@[i as int].id == id@
                    &&& forall|j: int| 0 <= j < i ==> self@[j].id != id@
                },
                None => forall|j: int| 0 <= j < self@.len() ==> self@[j].id != id@,
            },
    {
        let mut i: usize = 0;
        while i < self.params.len()
            invariant
                i <= self.params.len(),
                forall|j: int| 0 <= j < i ==> self@[j].id != id@,
            decreases self.params.len() - i,
        {
            if str_eq(self.params[i].id(), id) {
                return Some(i);
            }
            i += 1;
        }
        None
    }

    /// Hands an automation event of the host to the parameter at `index`, and
    /// says whether there is such a parameter. Without one, nothing changes.
    pub fn automate(&mut self, index: usize, target: i64) -> (found: bool)
        ensures
            found == (index < old(self)@.len()),
            found ==> final(self)@ == old(self)@.update(
                index as int,
                old(self)@[index as int].automate(target),
            ),
            !found ==> final(self)@ == old(self)@,
            all_in_order(final(self)@),
    {
        proof {
            use_type_invariant(&*self);
        }
        if index < self.params.len() {
            let mut list: Vec<Parameter> = Vec::new();
            assert(param_models(list@) =~= Seq::<ParamModel>::empty());
            std::mem::swap(&mut list, &mut self.params);
            list[index].automate(target);
            assert(param_models(list@) =~= old(self)@.update(
                index as int,
                old(self)@[index as int].automate(target),
            ));
            self.params = list;
            true
        } else {
            false
        }
    }

    /// Advances the parameter at `index` by one block and returns its
    /// smoothed value, which lies in its declared range. Without such a
    /// parameter, nothing changes.
    pub fn smoothed_value(&mut self, index: usize) -> (value: Option<i64>)
        ensures
            value.is_some() == (index < old(self)@.len()),
            value matches Some(v) ==> {
                &&& final(self)@ == old(self)@.update(index as int, old(self)@[index as int].step())
                &&& v == final(self)@[index as int].smoothed.current
                &&& final(self)@[index as int].smoothed.min <= v
                    <= final(self)@[index as int].smoothed.max
            },
            value is None ==> final(self)@ == old(self)@,
            all_in_order(final(self)@),
    {
        proof {
            use_type_invariant(&*self);
        }
        if index < self.params.len() {
            let mut list: Vec<Parameter> = Vec::new();
            assert(param_models(list@) =~= Seq::<ParamModel>::empty());
            std::mem::swap(&mut list, &mut self.params);
            let v = list[index].smoothed_value();
            assert(param_models(list@) =~= old(self)@.update(
                index as int,
                old(self)@[index as int].step(),
            ));
            self.params = list;
            Some(v)
        } else {
            None
        }
    }
}

/// What can happen to a smoother: an automation event of the host, or the
/// passing of one block.
pub enum SmootherEvent {
    /// The host moves the target.
    Automate(i64),
    /// The audio context reads the smoothed value for one block.
    Block,
}

/// The smoother after `events`, in order.
pub open spec fn run(s: SmootherModel, events: Seq<SmootherEvent>) -> SmootherModel
    decreases events.len(),
{
    if events.len() == 0 {
        s
    } else {
        let before = run(s, events.drop_last());
        match events.last() {
            SmootherEvent::Automate(target) => before.automate(target),
            SmootherEvent::Block => before.step(),
        }
    }
}

/// The smoother after `blocks` blocks without an automation event.
pub open spec fn steps(s: SmootherModel, blocks: nat) -> SmootherModel
    decreases blocks,
{
    if blocks == 0 {
        s
    } else {
        steps(s.step(), (blocks - 1) as nat)
    }
}

/// Whatever automation events arrive, however far outside the
/// range their targets lie, and however many blocks pass in between, the
/// smoothed value stays within the declared range.
pub proof fn law_smoothed_value_stays_in_range(s: SmootherModel, events: Seq<SmootherEvent>)
    requires
        s.wf(),
    ensures
        run(s, events).wf(),
        run(s, events).min == s.min,
        run(s, events).max == s.max,
        s.min <= run(s, events).current <= s.max,
    decreases events.len(),
{
    if events.len() > 0 {
        law_smoothed_value_stays_in_range(s, events.drop_last());
        let before = run(s, events.drop_last());
        match events.last() {
            SmootherEvent::Automate(target) => {},
            SmootherEvent::Block => {
                if before.steps_left > 0 {
                    lemma_ramp_next_between(
                        before.current as int,
                        before.target as int,
                        before.steps_left as int,
                    );
                }
            },
        }
    }
}

/// Each block moves the smoothed value towards the target and never past it.
pub proof fn law_step_moves_towards_target(s: SmootherModel)
    requires
        s.wf(),
    ensures
        s.step().wf(),
        s.step().target == s.target,
        s.current <= s.target ==> s.current <= s.step().current <= s.target,
        s.target <= s.current ==> s.target <= s.step().current <= s.current,
{
    if s.steps_left > 0 {
        lemma_ramp_next_between(s.current as int, s.target as int, s.steps_left as int);
    }
}

/// A ramp arrives: once as many blocks have passed as the ramp had steps
/// left, the smoothed value is the target, and it stays there.
pub proof fn law_ramp_reaches_target(s: SmootherModel, blocks: nat)
    requires
        s.wf(),
        blocks >= s.steps_left,
    ensures
        steps(s, blocks).current == s.target,
        steps(s, blocks).steps_left == 0,
    decreases blocks,
{
    if blocks > 0 {
        law_step_moves_towards_target(s);
        law_ramp_reaches_target(s.step(), (blocks - 1) as nat);
    }
}

/// Without a ramp the smoothed value is the most recent target, brought into
/// the range, from the first block after the event on.
pub proof fn law_without_ramp_value_is_target(s: SmootherModel, target: i64)
    requires
        s.wf(),
        s.ramp == 0,
    ensures
        s.automate(target).step().current == clamp_to(target, s.min, s.max),
{
}

} // verus!
