//! The plugin instance and its process loop.
//!
//! Once per block, in this order: every declared parameter is read and its
//! smoothed value staged at its control path, all of them are published as
//! one snapshot, the snapshot is applied to the control inputs of the graph,
//! and the caller is told to let the graph compute.

use crate::bridge::{path_views, BridgeModel, GraphControls, StateBridge, UnknownPathError};
use crate::engine::{AudioLayout, BlockAction, BufferConfig, Engine, EngineModel, InitError};
use crate::param::{
    all_in_order, law_step_moves_towards_target, FaustIntegrationParams, ParamModel,
};
use vstd::prelude::*;

verus! {

/// The parameters after each of them has advanced by one block.
pub open spec fn stepped(params: Seq<ParamModel>) -> Seq<ParamModel> {
    params.map_values(|p: ParamModel| p.step())
}

/// The bridge after the writer has staged, in declaration order, the value of
/// each of the first `count` parameters at that parameter's control path.
pub open spec fn stage_all(bridge: BridgeModel, params: Seq<ParamModel>, count: int) -> BridgeModel
    decreases count,
{
    if count <= 0 {
        bridge
    } else {
        stage_all(bridge, params, count - 1).set_by_path(
            params[count - 1].path,
            params[count - 1].smoothed.current,
        )
    }
}

/// A plugin instance as mathematics.
pub struct PluginModel {
    /// The declared parameters.
    pub params: Seq<ParamModel>,
    /// The bridge from the parameters to the graph.
    pub bridge: BridgeModel,
    /// The control inputs of the graph.
    pub controls: Seq<Option<i64>>,
    /// What the graph was initialized with.
    pub engine: EngineModel,
}

impl PluginModel {
    /// Every parameter drives a control path that the graph has.
    pub open spec fn paths_known(self) -> bool {
        forall|i: int|
            0 <= i < self.params.len() ==> self.bridge.knows(#[trigger] self.params[i].path)
    }

    /// Whether no parameter declared after the one at `i` drives the same
    /// control path, so that the value of this one is what a block leaves
    /// there.
    pub open spec fn last_on_its_path(self, i: int) -> bool {
        forall|k: int|
            i < k < self.params.len() ==> (#[trigger] self.params[k]).path != self.params[i].path
    }

    /// Whether the graph's control input at the path of the parameter at `i`
    /// reads that parameter's smoothed value, and that value lies in the
    /// parameter's declared range.
    pub open spec fn reads_parameter(self, i: int) -> bool {
        &&& self.bridge.slot_of(self.params[i].path) matches Some(slot)
        &&& 0 <= slot < self.controls.len()
        &&& self.controls[slot] == Some(self.params[i].smoothed.current)
        &&& self.params[i].smoothed.min <= self.params[i].smoothed.current
            <= self.params[i].smoothed.max
    }

    /// The bridge and every parameter are in order, the graph has one control
    /// input per path, and every parameter drives a control path that the
    /// graph has.
    pub open spec fn wf(self) -> bool {
        &&& self.bridge.wf()
        &&& self.controls.len() == self.bridge.paths.len()
        &&& all_in_order(self.params)
        &&& self.paths_known()
    }

    /// The instance as constructed: nothing staged, nothing published, no
    /// control input written, the graph not initialized.
    pub open spec fn fresh(
        params: Seq<ParamModel>,
        paths: Seq<Seq<char>>,
        layout: AudioLayout,
    ) -> PluginModel {
        PluginModel {
            params: params,
            bridge: BridgeModel {
                paths: paths,
                staged: Seq::new(paths.len(), |i: int| None::<i64>),
                published: Seq::new(paths.len(), |i: int| None::<i64>),
                pending: false,
            },
            controls: Seq::new(paths.len(), |i: int| None::<i64>),
            engine: EngineModel {
                layout: layout,
                lifecycle: crate::engine::Lifecycle::Uninitialized,
                max_buffer_size: 0,
            },
        }
    }

    /// An automation event of the host for the parameter at `index`.
    pub open spec fn automate(self, index: int, target: i64) -> PluginModel {
        if 0 <= index < self.params.len() {
            PluginModel {
                params: self.params.update(index, self.params[index].automate(target)),
                ..self
            }
        } else {
            self
        }
    }

    /// The host's configuration arrives.
    pub open spec fn initialize(self, layout: AudioLayout, config: BufferConfig) -> PluginModel {
        PluginModel { engine: self.engine.initialize(layout, config), ..self }
    }

    /// One block that the graph computes: the parameters advance, their
    /// values are staged and published together, and the snapshot is applied.
    pub open spec fn block(self) -> PluginModel {
        let params = stepped(self.params);
        let staged = stage_all(self.bridge, params, params.len() as int);
        let (bridge, controls) = staged.publish().apply(self.controls);
        PluginModel { params, bridge, controls, engine: self.engine.after_block() }
    }

    /// One call of the process loop: a block that the graph may compute is
    /// processed, any other block changes nothing.
    pub open spec fn process(self, inputs: int, outputs: int, frames: int) -> PluginModel {
        if self.engine.accepts(inputs, outputs, frames) {
            self.block()
        } else {
            self
        }
    }
}

/// Staging parameter values touches nothing but the staged slots.
pub proof fn lemma_stage_all_frame(bridge: BridgeModel, params: Seq<ParamModel>, count: int)
    requires
        bridge.wf(),
    ensures
        stage_all(bridge, params, count).wf(),
        stage_all(bridge, params, count).paths == bridge.paths,
        stage_all(bridge, params, count).published == bridge.published,
        stage_all(bridge, params, count).pending == bridge.pending,
    decreases count,
{
    if count > 0 {
        lemma_stage_all_frame(bridge, params, count - 1);
        let before = stage_all(bridge, params, count - 1);
        before.paths.index_of_first_ensures(params[count - 1].path);
    }
}

/// A block keeps an instance in order.
pub proof fn lemma_block_keeps_order(p: PluginModel)
    requires
        p.wf(),
    ensures
        p.block().wf(),
        p.block().bridge.paths == p.bridge.paths,
        p.block().params == stepped(p.params),
        !p.block().bridge.pending,
{
    let aims = stepped(p.params);
    lemma_stage_all_frame(p.bridge, aims, aims.len() as int);
    assert forall|j: int| 0 <= j < aims.len() implies (#[trigger] aims[j]).wf()
        && p.block().bridge.knows(aims[j].path) by {
        assert(p.params[j].wf());
        assert(p.bridge.knows(p.params[j].path));
        law_step_moves_towards_target(p.params[j].smoothed);
    }
}

/// An automation event keeps an instance in order and touches nothing but
/// the parameter it is for.
pub proof fn lemma_automate_keeps_order(p: PluginModel, index: int, target: i64)
    requires
        p.wf(),
    ensures
        p.automate(index, target).wf(),
        p.automate(index, target).bridge == p.bridge,
        p.automate(index, target).controls == p.controls,
        p.automate(index, target).engine == p.engine,
        p.automate(index, target).params.len() == p.params.len(),
        forall|j: int|
            0 <= j < p.params.len() ==> (#[trigger] p.automate(index, target).params[j]).path
                == p.params[j].path,
{
    let q = p.automate(index, target);
    assert forall|j: int| 0 <= j < q.params.len() implies (#[trigger] q.params[j]).wf()
        && q.params[j].path == p.params[j].path && q.bridge.knows(q.params[j].path) by {
        assert(p.params[j].wf());
        assert(p.bridge.knows(p.params[j].path));
    }
}

/// One plugin instance: the parameter store, the bridge, the control inputs
/// of the graph, and the record of what the graph was initialized with.
#[derive(Debug)]
pub struct FaustIntegration {
    params: FaustIntegrationParams,
    state: StateBridge,
    controls: GraphControls,
    engine: Engine,
}

impl View for FaustIntegration {
    type V = PluginModel;

    closed spec fn view(&self) -> PluginModel {
        PluginModel {
            params: self.params@,
            bridge: self.state@,
            controls: self.controls@,
            engine: self.engine@,
        }
    }
}

/// The process loop on the parts of an instance: every parameter advances
/// and its smoothed value is staged at its control path, all of them are
/// published as one snapshot, and the snapshot is applied to the graph's
/// control inputs.
fn run_block(
    params: &mut FaustIntegrationParams,
    state: &mut StateBridge,
    controls: &mut GraphControls,
)
    requires
        forall|i: int|
            0 <= i < old(params)@.len() ==> old(state)@.knows(#[trigger] old(params)@[i].path),
    ensures
        final(params)@ == stepped(old(params)@),
        (final(state)@, final(controls)@) == stage_all(
            old(state)@,
            stepped(old(params)@),
            old(params)@.len() as int,
        ).publish().apply(old(controls)@),
{
    let ghost aims = stepped(old(params)@);
    let count = params.len();
    let mut i: usize = 0;
    while i < count
        invariant
            i <= count,
            count == old(params)@.len(),
            params@.len() == count,
            aims == stepped(old(params)@),
            forall|j: int| 0 <= j < i ==> params@[j] == aims[j],
            forall|j: int| i <= j < count ==> params@[j] == old(params)@[j],
            forall|j: int| 0 <= j < count ==> old(state)@.knows(#[trigger] old(params)@[j].path),
            state@ == stage_all(old(state)@, aims, i as int),
            state@.paths == old(state)@.paths,
            controls@ == old(controls)@,
        decreases count - i,
    {
        let value = params.smoothed_value(i).unwrap();
        let path = params.get(i).unwrap().path();
        assert(path@ == old(params)@[i as int].path);
        state.set_by_path(path, value).unwrap();
        i += 1;
    }
    assert(params@ =~= aims);
    state.publish();
    state.apply_pending(controls);
}

impl FaustIntegration {
    #[verifier::type_invariant]
    spec fn inv(&self) -> bool {
        self@.wf()
    }

    /// The effect as shipped: its own parameters on a stereo layout, for the
    /// graph whose control paths are `paths`. A parameter that drives a path
    /// which the graph does not have is a configuration error.
    pub fn new(paths: Vec<String>) -> (plugin: Result<FaustIntegration, UnknownPathError>)
        ensures
            plugin.is_ok() == path_views(paths@).contains(
                crate::param::slapback_delay().path,
            ),
            plugin matches Ok(p) ==> p@.wf() && p@ == PluginModel::fresh(
                seq![crate::param::slapback_delay()],
                path_views(paths@),
                AudioLayout { inputs: 2, outputs: 2 },
            ),
            plugin matches Err(e) ==> e@ == crate::param::slapback_delay().path,
    {
        let plugin = FaustIntegration::with_params(
            FaustIntegrationParams::default(),
            paths,
            AudioLayout::stereo(),
        );
        proof {
            let all = path_views(paths@);
            let params = seq![crate::param::slapback_delay()];
            assert(params[0] == crate::param::slapback_delay());
            if all.contains(crate::param::slapback_delay().path) {
                assert forall|i: int| 0 <= i < params.len() implies all.contains(
                    #[trigger] params[i].path,
                ) by {}
            }
        }
        plugin
    }

    /// An instance with the parameters `params` on `layout`, for the graph
    /// whose control paths are `paths`. It is refused with the first
    /// parameter, in declaration order, whose control path the graph does not
    /// have.
    pub fn with_params(
        params: FaustIntegrationParams,
        paths: Vec<String>,
        layout: AudioLayout,
    ) -> (plugin: Result<FaustIntegration, UnknownPathError>)
        ensures
            plugin.is_ok() == (forall|i: int|
                0 <= i < params@.len() ==> path_views(paths@).contains(
                    #[trigger] params@[i].path,
                )),
            plugin matches Ok(p) ==> p@.wf() && p@ == PluginModel::fresh(
                params@,
                path_views(paths@),
                layout,
            ),
            plugin matches Err(e) ==> exists|i: int|
                {
                    &&& 0 <= i < params@.len()
                    &&& e@ == (#[trigger] params@[i]).path
                    &&& !path_views(paths@).contains(e@)
                    &&& forall|j: int|
                        0 <= j < i ==> path_views(paths@).contains(
                            #[trigger] params@[j].path,
                        )
                },
    {
        let ghost all = path_views(paths@);
        let state = StateBridge::new(paths);
        let controls = GraphControls::new(state.len());
        let count = params.len();
        let mut i: usize = 0;
        while i < count
            invariant
                i <= count,
                count == params@.len(),
                all == path_views(paths@),
                state@.paths == all,
                forall|j: int| 0 <= j < i ==> all.contains(#[trigger] params@[j].path),
            decreases count - i,
        {
            let path = params.get(i).unwrap().path();
            if !state.knows(path) {
                assert(path@ == params@[i as int].path);
                return Err(UnknownPathError::new(path));
            }
            i += 1;
        }
        let engine = Engine::new(layout);
        assert(controls@ =~= PluginModel::fresh(params@, all, layout).controls);
        Ok(FaustIntegration { params, state, controls, engine })
    }

    /// The parameter store.
    pub fn params(&self) -> (params: &FaustIntegrationParams)
        ensures
            self@.wf(),
            params@ == self@.params,
    {
        proof {
            use_type_invariant(self);
        }
        &self.params
    }

    /// The bridge.
    pub fn state(&self) -> (state: &StateBridge)
        ensures
            state@ == self@.bridge,
    {
        &self.state
    }

    /// The control inputs of the graph as the reader last left them.
    pub fn controls(&self) -> (controls: &GraphControls)
        ensures
            controls@ == self@.controls,
    {
        &self.controls
    }

    /// The record of what the graph was initialized with.
    pub fn engine(&self) -> (engine: &Engine)
        ensures
            engine@ == self@.engine,
    {
        &self.engine
    }

    /// What the graph's control input at `path` reads, if the graph has such
    /// an input and the bridge has written it.
    pub fn control(&self, path: &str) -> (value: Option<i64>)
        ensures
            self@.wf(),
            value == match self@.bridge.slot_of(path@) {
                Some(slot) => self@.controls[slot],
                None => None,
            },
    {
        proof {
            use_type_invariant(self);
        }
        match self.state.slot_of(path) {
            Some(slot) => self.controls.get(slot),
            None => None,
        }
    }

    /// Hands an automation event of the host to the parameter at `index`,
    /// and says whether there is such a parameter.
    pub fn automate(&mut self, index: usize, target: i64) -> (found: bool)
        ensures
            final(self)@.wf(),
            found == (index < old(self)@.params.len()),
            final(self)@ == old(self)@.automate(index as int, target),
    {
        proof {
            use_type_invariant(&*self);
            lemma_automate_keeps_order(self@, index as int, target);
        }
        let mut params = FaustIntegrationParams::new();
        std::mem::swap(&mut params, &mut self.params);
        let found = params.automate(index, target);
        self.params = params;
        found
    }

    /// Takes the host's configuration before processing starts, and again
    /// whenever the sample rate changes. On success the answer is the sample
    /// rate to initialize the graph with. A refused configuration leaves the
    /// instance as it was.
    pub fn initialize(&mut self, layout: &AudioLayout, config: &BufferConfig) -> (outcome: Result<
        i32,
        InitError,
    >)
        ensures
            final(self)@.wf(),
            outcome == old(self)@.engine.init_outcome(*layout, *config),
            final(self)@ == old(self)@.initialize(*layout, *config),
    {
        proof {
            use_type_invariant(&*self);
        }
        let mut engine = self.engine;
        let outcome = engine.initialize(layout, config);
        self.engine = engine;
        outcome
    }

    /// The host asks to clear the state. The graph offers no clearing of its
    /// internal state, so nothing changes.
    pub fn reset(&mut self)
        ensures
            *final(self) == *old(self),
    {
    }

    /// The process loop for one block of `frames` frames on `inputs` input
    /// and `outputs` output channels. Where the graph may compute the block,
    /// every parameter advances and its smoothed value is staged at its
    /// control path, all of them are published as one snapshot, the snapshot
    /// is applied to the graph's control inputs, and the answer is to let the
    /// graph compute. Any other block changes nothing and is passed through.
    /// No write is ever refused: every parameter's path was found in the
    /// graph when the instance was built.
    pub fn process(&mut self, inputs: usize, outputs: usize, frames: usize) -> (action: BlockAction)
        ensures
            final(self)@.wf(),
            final(self)@ == old(self)@.process(inputs as int, outputs as int, frames as int),
            action == if old(self)@.engine.accepts(inputs as int, outputs as int, frames as int) {
                BlockAction::Compute { frames: frames as i32 }
            } else {
                BlockAction::PassThrough
            },
            final(self)@.bridge.paths == old(self)@.bridge.paths,
            old(self)@.engine.accepts(inputs as int, outputs as int, frames as int) ==> forall|i: int|
                0 <= i < old(self)@.params.len() && old(self)@.last_on_its_path(i)
                    ==> #[trigger] final(self)@.reads_parameter(i),
    {
        proof {
            use_type_invariant(&*self);
            lemma_block_keeps_order(self@);
            assert forall|i: int| 0 <= i < self@.params.len() && self@.last_on_its_path(
                i,
            ) implies #[trigger] self@.block().reads_parameter(i) by {
                law_block_delivers_every_parameter(self@, i);
            }
        }
        let mut engine = self.engine;
        let action = engine.offer(inputs, outputs, frames);
        match action {
            BlockAction::PassThrough => {
                return action;
            },
            BlockAction::Compute { frames: _ } => {},
        }
        // The parts are taken out, worked on and put back together, so that
        // the instance is whole whenever it can be seen.
        let mut taken = FaustIntegration {
            params: FaustIntegrationParams::new(),
            state: StateBridge::new(Vec::new()),
            controls: GraphControls::new(0),
            engine,
        };
        std::mem::swap(self, &mut taken);
        let FaustIntegration { params, state, controls, engine: _ } = taken;
        let mut params = params;
        let mut state = state;
        let mut controls = controls;
        run_block(&mut params, &mut state, &mut controls);
        *self = FaustIntegration { params, state, controls, engine };
        action
    }
}

/// Each of the first `count` parameters whose path no later one of them
/// drives finds its own value staged at its path's slot.
proof fn lemma_stage_all_holds_each(
    bridge: BridgeModel,
    params: Seq<ParamModel>,
    count: int,
    i: int,
)
    requires
        bridge.wf(),
        0 <= i < count <= params.len(),
        forall|j: int| 0 <= j < params.len() ==> bridge.knows(#[trigger] params[j].path),
        forall|k: int| i < k < count ==> (#[trigger] params[k]).path != params[i].path,
    ensures
        bridge.slot_of(params[i].path) is Some,
        0 <= bridge.slot_of(params[i].path).unwrap() < bridge.paths.len(),
        stage_all(bridge, params, count).staged[bridge.slot_of(params[i].path).unwrap()] == Some(
            params[i].smoothed.current,
        ),
    decreases count,
{
    lemma_stage_all_frame(bridge, params, count - 1);
    let last = params[count - 1];
    assert(bridge.knows(last.path));
    assert(bridge.knows(params[i].path));
    bridge.paths.index_of_first_ensures(last.path);
    bridge.paths.index_of_first_ensures(params[i].path);
    if i < count - 1 {
        lemma_stage_all_holds_each(bridge, params, count - 1, i);
        assert(params[count - 1].path != params[i].path);
    }
}

/// What the process loop is for. A block that the graph computes leaves, at
/// the control input of a parameter's path, that parameter's smoothed value
/// for the block, and that value lies in the parameter's declared range. Where
/// several parameters drive one path, this holds of the last of them.
pub proof fn law_block_delivers_every_parameter(p: PluginModel, i: int)
    requires
        p.wf(),
        0 <= i < p.params.len(),
        p.last_on_its_path(i),
    ensures
        p.block().wf(),
        p.block().bridge.paths == p.bridge.paths,
        !p.block().bridge.pending,
        p.block().params[i] == p.params[i].step(),
        p.block().reads_parameter(i),
{
    let aims = stepped(p.params);
    lemma_block_keeps_order(p);
    assert forall|j: int| 0 <= j < aims.len() implies p.bridge.knows(#[trigger] aims[j].path) by {
        assert(p.bridge.knows(p.params[j].path));
    }
    assert forall|k: int| i < k < aims.len() implies (#[trigger] aims[k]).path != aims[i].path by {
        assert(p.params[k].path != p.params[i].path);
    }
    lemma_stage_all_frame(p.bridge, aims, aims.len() as int);
    lemma_stage_all_holds_each(p.bridge, aims, aims.len() as int, i);
    assert(p.block().params[i].wf());
    assert(p.block().bridge.slot_of(p.block().params[i].path) == p.bridge.slot_of(
        p.params[i].path,
    ));
}

/// The same of the process loop as a whole, whatever automation event came
/// just before the block: where the engine accepts the block, the control
/// input at the parameter's path reads the parameter's smoothed value for
/// this block, which lies in the declared range however far outside it the
/// event's target was.
pub proof fn law_process_delivers_in_range(
    p: PluginModel,
    i: int,
    target: i64,
    inputs: int,
    outputs: int,
    frames: int,
)
    requires
        p.wf(),
        0 <= i < p.params.len(),
        p.engine.accepts(inputs, outputs, frames),
        p.last_on_its_path(i),
    ensures
        p.process(inputs, outputs, frames).wf(),
        p.process(inputs, outputs, frames).reads_parameter(i),
        p.automate(i, target).process(inputs, outputs, frames).wf(),
        p.automate(i, target).process(inputs, outputs, frames).reads_parameter(i),
        p.automate(i, target).process(inputs, outputs, frames).params[i].smoothed.min
            == p.params[i].smoothed.min,
        p.automate(i, target).process(inputs, outputs, frames).params[i].smoothed.max
            == p.params[i].smoothed.max,
{
    law_block_delivers_every_parameter(p, i);
    let q = p.automate(i, target);
    lemma_automate_keeps_order(p, i, target);
    assert forall|k: int| i < k < q.params.len() implies (#[trigger] q.params[k]).path
        != q.params[i].path by {
        assert(p.params[k].path != p.params[i].path);
    }
    law_block_delivers_every_parameter(q, i);
}

/// A block that the graph does not compute changes nothing at all, and a
/// block that it computes keeps the instance in order and every path at its
/// slot.
pub proof fn law_process_keeps_order(p: PluginModel, inputs: int, outputs: int, frames: int)
    requires
        p.wf(),
    ensures
        p.process(inputs, outputs, frames).wf(),
        p.process(inputs, outputs, frames).bridge.paths == p.bridge.paths,
        !p.engine.accepts(inputs, outputs, frames) ==> p.process(inputs, outputs, frames) == p,
{
    lemma_block_keeps_order(p);
}

} // verus!
