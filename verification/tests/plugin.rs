use faust_types::{FaustDsp, ParamIndex, UI};
use slapjack::bridge::UnknownPathError;
use slapjack::engine::{AudioLayout, BlockAction, BufferConfig, Engine, InitError, Lifecycle};
use slapjack::param::{FaustIntegrationParams, Parameter};
use slapjack::paths::PathReader;
use slapjack::plugin::FaustIntegration;
use slapjack::value::{from_int, ValueRange};

fn fx(x: f64) -> i64 {
    (x * 65536.0).round() as i64
}

fn graph_paths() -> Vec<String> {
    vec![
        "1. Input/Gain".to_string(),
        "2. Tone/Cutoff".to_string(),
        "3. Slapback/Time".to_string(),
        "3. Slapback/Feedback".to_string(),
    ]
}

fn config(sample_rate: i32, max_buffer_size: u32) -> BufferConfig {
    BufferConfig { sample_rate, max_buffer_size }
}

#[test]
fn a_second_initialize_supersedes_the_first() {
    let mut plugin = FaustIntegration::new(graph_paths()).unwrap();
    assert_eq!(plugin.initialize(&AudioLayout::stereo(), &config(44100, 512)), Ok(44100));
    assert_eq!(plugin.initialize(&AudioLayout::stereo(), &config(48000, 64)), Ok(48000));
    assert_eq!(plugin.engine().lifecycle(), Lifecycle::Initialized { sample_rate: 48000 });
    assert_eq!(plugin.engine().sample_rate(), Some(48000));
    assert_eq!(plugin.engine().max_buffer_size(), 64);

    let mut once = FaustIntegration::new(graph_paths()).unwrap();
    assert_eq!(once.initialize(&AudioLayout::stereo(), &config(48000, 64)), Ok(48000));
    assert_eq!(plugin.engine(), once.engine());
    assert_eq!(plugin.process(2, 2, 65), BlockAction::PassThrough);
    assert_eq!(plugin.process(2, 2, 64), BlockAction::Compute { frames: 64 });
}

#[test]
fn a_fresh_instance_is_not_initialized() {
    let plugin = FaustIntegration::new(graph_paths()).unwrap();
    assert_eq!(plugin.engine().lifecycle(), Lifecycle::Uninitialized);
    assert_eq!(plugin.engine().sample_rate(), None);
    assert_eq!(plugin.engine().layout(), AudioLayout { inputs: 2, outputs: 2 });
    assert_eq!(plugin.engine().max_buffer_size(), 0);
    assert_eq!(plugin.params().len(), 1);
    assert_eq!(plugin.state().len(), 4);
    assert_eq!(plugin.controls().len(), 4);
    assert!(!plugin.state().has_pending());
    assert_eq!(plugin.control("3. Slapback/Time"), None);
}

#[test]
fn a_graph_without_the_parameter_path_is_refused() {
    let outcome = FaustIntegration::new(vec!["1. Input/Gain".to_string()]);
    assert_eq!(outcome.unwrap_err(), UnknownPathError::new("3. Slapback/Time"));
    assert!(FaustIntegration::new(Vec::new()).is_err());
    assert!(FaustIntegration::new(vec!["3. Slapback/Time".to_string()]).is_ok());
}

#[test]
fn the_first_unknown_parameter_path_is_reported() {
    let range = ValueRange::new(0, from_int(1)).unwrap();
    let mut params = FaustIntegrationParams::new();
    params.declare(Parameter::new("a", "A", "1. Input/Gain", 0, range).unwrap());
    params.declare(Parameter::new("b", "B", "missing/one", 0, range).unwrap());
    params.declare(Parameter::new("c", "C", "missing/two", 0, range).unwrap());
    let outcome = FaustIntegration::with_params(params, graph_paths(), AudioLayout::mono());
    assert_eq!(outcome.unwrap_err().path(), "missing/one");

    let empty = FaustIntegration::with_params(
        FaustIntegrationParams::new(),
        Vec::new(),
        AudioLayout::mono(),
    )
    .unwrap();
    assert_eq!(empty.params().len(), 0);
    assert_eq!(empty.engine().layout(), AudioLayout { inputs: 1, outputs: 1 });
}

#[test]
fn initialize_refuses_another_layout() {
    let mut plugin = FaustIntegration::new(graph_paths()).unwrap();
    assert_eq!(
        plugin.initialize(&AudioLayout::mono(), &config(48000, 64)),
        Err(InitError::LayoutMismatch)
    );
    assert_eq!(
        plugin.initialize(&AudioLayout { inputs: 2, outputs: 1 }, &config(48000, 64)),
        Err(InitError::LayoutMismatch)
    );
    assert_eq!(
        plugin.initialize(&AudioLayout { inputs: 1, outputs: 2 }, &config(0, 64)),
        Err(InitError::LayoutMismatch)
    );
    assert_eq!(plugin.engine().lifecycle(), Lifecycle::Uninitialized);
    assert_eq!(plugin.process(2, 2, 1), BlockAction::PassThrough);
}

#[test]
fn initialize_refuses_a_sample_rate_that_is_not_positive() {
    let mut plugin = FaustIntegration::new(graph_paths()).unwrap();
    assert_eq!(
        plugin.initialize(&AudioLayout::stereo(), &config(0, 64)),
        Err(InitError::InvalidSampleRate)
    );
    assert_eq!(
        plugin.initialize(&AudioLayout::stereo(), &config(-44100, 64)),
        Err(InitError::InvalidSampleRate)
    );
    assert_eq!(
        plugin.initialize(&AudioLayout::stereo(), &config(i32::MIN, 64)),
        Err(InitError::InvalidSampleRate)
    );
    assert_eq!(plugin.engine().lifecycle(), Lifecycle::Uninitialized);
    assert_eq!(plugin.initialize(&AudioLayout::stereo(), &config(1, 64)), Ok(1));
    assert_eq!(plugin.initialize(&AudioLayout::stereo(), &config(i32::MAX, 64)), Ok(i32::MAX));
}

#[test]
fn a_refused_initialize_keeps_the_earlier_configuration() {
    let mut plugin = FaustIntegration::new(graph_paths()).unwrap();
    plugin.initialize(&AudioLayout::stereo(), &config(44100, 256)).unwrap();
    assert_eq!(plugin.process(2, 2, 256), BlockAction::Compute { frames: 256 });
    assert!(plugin.initialize(&AudioLayout::stereo(), &config(0, 16)).is_err());
    assert!(plugin.initialize(&AudioLayout::mono(), &config(48000, 16)).is_err());
    assert_eq!(plugin.engine().lifecycle(), Lifecycle::Processing { sample_rate: 44100 });
    assert_eq!(plugin.engine().max_buffer_size(), 256);
    assert_eq!(plugin.process(2, 2, 256), BlockAction::Compute { frames: 256 });
}

#[test]
fn nothing_is_computed_before_initialize() {
    let mut plugin = FaustIntegration::new(graph_paths()).unwrap();
    assert_eq!(plugin.process(2, 2, 0), BlockAction::PassThrough);
    assert_eq!(plugin.process(2, 2, 64), BlockAction::PassThrough);
    assert_eq!(plugin.engine().lifecycle(), Lifecycle::Uninitialized);
    assert!(!plugin.state().has_pending());
    assert_eq!(plugin.control("3. Slapback/Time"), None);
}

#[test]
fn a_block_delivers_the_parameter_to_the_graph() {
    let mut plugin = FaustIntegration::new(graph_paths()).unwrap();
    plugin.initialize(&AudioLayout::stereo(), &config(48000, 512)).unwrap();
    assert_eq!(plugin.process(2, 2, 64), BlockAction::Compute { frames: 64 });
    assert_eq!(plugin.engine().lifecycle(), Lifecycle::Processing { sample_rate: 48000 });
    assert_eq!(plugin.control("3. Slapback/Time"), Some(fx(100.0)));
    assert_eq!(plugin.control("3. Slapback/Feedback"), None);
    assert_eq!(plugin.control("1. Input/Gain"), None);
    assert_eq!(plugin.control("no/such"), None);
    assert_eq!(plugin.controls().get(2), Some(fx(100.0)));
    assert!(!plugin.state().has_pending());

    assert!(plugin.automate(0, fx(250.0)));
    assert!(!plugin.automate(1, fx(250.0)));
    assert_eq!(plugin.control("3. Slapback/Time"), Some(fx(100.0)));
    assert_eq!(plugin.process(2, 2, 512), BlockAction::Compute { frames: 512 });
    assert_eq!(plugin.control("3. Slapback/Time"), Some(fx(250.0)));

    assert!(plugin.automate(0, fx(9000.0)));
    assert_eq!(plugin.process(2, 2, 0), BlockAction::Compute { frames: 0 });
    assert_eq!(plugin.control("3. Slapback/Time"), Some(fx(500.0)));
}

#[test]
fn a_block_of_another_shape_is_passed_through_untouched() {
    let mut plugin = FaustIntegration::new(graph_paths()).unwrap();
    plugin.initialize(&AudioLayout::stereo(), &config(48000, 128)).unwrap();
    plugin.automate(0, fx(250.0));
    assert_eq!(plugin.process(1, 2, 64), BlockAction::PassThrough);
    assert_eq!(plugin.process(2, 1, 64), BlockAction::PassThrough);
    assert_eq!(plugin.process(2, 2, 129), BlockAction::PassThrough);
    assert_eq!(plugin.process(0, 0, 0), BlockAction::PassThrough);
    assert_eq!(plugin.process(2, 2, usize::MAX), BlockAction::PassThrough);
    assert_eq!(plugin.engine().lifecycle(), Lifecycle::Initialized { sample_rate: 48000 });
    assert_eq!(plugin.control("3. Slapback/Time"), None);
    assert!(!plugin.state().has_pending());
    assert_eq!(plugin.process(2, 2, 128), BlockAction::Compute { frames: 128 });
    assert_eq!(plugin.control("3. Slapback/Time"), Some(fx(250.0)));
}

#[test]
fn a_block_is_never_longer_than_the_graph_can_be_told() {
    let mut engine = Engine::new(AudioLayout::mono());
    engine.initialize(&AudioLayout::mono(), &config(48000, u32::MAX)).unwrap();
    assert_eq!(engine.offer(1, 1, i32::MAX as usize), BlockAction::Compute { frames: i32::MAX });
    assert_eq!(engine.offer(1, 1, i32::MAX as usize + 1), BlockAction::PassThrough);
    assert_eq!(engine.lifecycle(), Lifecycle::Processing { sample_rate: 48000 });
}

#[test]
fn every_parameter_of_a_block_arrives_together() {
    let range = ValueRange::new(0, from_int(1000)).unwrap();
    let mut params = FaustIntegrationParams::new();
    params.declare(Parameter::new("gain", "Gain", "1. Input/Gain", from_int(1), range).unwrap());
    params.declare(
        Parameter::new("time", "Time", "3. Slapback/Time", from_int(100), range)
            .unwrap()
            .with_ramp(2),
    );
    let mut plugin =
        FaustIntegration::with_params(params, graph_paths(), AudioLayout::mono()).unwrap();
    plugin.initialize(&AudioLayout::mono(), &config(44100, 32)).unwrap();
    plugin.process(1, 1, 32);
    assert_eq!(plugin.control("1. Input/Gain"), Some(from_int(1)));
    assert_eq!(plugin.control("3. Slapback/Time"), Some(from_int(100)));

    plugin.automate(0, from_int(2));
    plugin.automate(1, from_int(200));
    assert_eq!(plugin.control("1. Input/Gain"), Some(from_int(1)));
    assert_eq!(plugin.control("3. Slapback/Time"), Some(from_int(100)));
    plugin.process(1, 1, 32);
    assert_eq!(plugin.control("1. Input/Gain"), Some(from_int(2)));
    assert_eq!(plugin.control("3. Slapback/Time"), Some(from_int(150)));
    plugin.process(1, 1, 32);
    assert_eq!(plugin.control("3. Slapback/Time"), Some(from_int(200)));
    assert_eq!(plugin.params().get(1).unwrap().value(), from_int(200));
}

#[test]
fn reset_changes_nothing() {
    let mut plugin = FaustIntegration::new(graph_paths()).unwrap();
    plugin.reset();
    assert_eq!(plugin.engine().lifecycle(), Lifecycle::Uninitialized);
    plugin.initialize(&AudioLayout::stereo(), &config(48000, 64)).unwrap();
    plugin.automate(0, fx(300.0));
    plugin.process(2, 2, 64);
    plugin.reset();
    assert_eq!(plugin.engine().lifecycle(), Lifecycle::Processing { sample_rate: 48000 });
    assert_eq!(plugin.control("3. Slapback/Time"), Some(fx(300.0)));
    assert_eq!(plugin.params().get(0).unwrap().value(), fx(300.0));
    assert_eq!(plugin.process(2, 2, 64), BlockAction::Compute { frames: 64 });
}

/// A graph with the control input "3. Slapback/Time" that scales its input
/// by that control.
struct ScaleGraph {
    sample_rate: i32,
    time: f32,
}

impl FaustDsp for ScaleGraph {
    type T = f32;

    fn new() -> Self {
        ScaleGraph { sample_rate: 0, time: 1.0 }
    }

    fn metadata(&self, m: &mut dyn faust_types::Meta) {
        m.declare("name", "scale");
    }

    fn get_sample_rate(&self) -> i32 {
        self.sample_rate
    }

    fn get_num_inputs(&self) -> i32 {
        2
    }

    fn get_num_outputs(&self) -> i32 {
        2
    }

    fn class_init(_sample_rate: i32) {}

    fn instance_reset_params(&mut self) {
        self.time = 1.0;
    }

    fn instance_clear(&mut self) {}

    fn instance_constants(&mut self, sample_rate: i32) {
        self.sample_rate = sample_rate;
    }

    fn instance_init(&mut self, sample_rate: i32) {
        self.instance_constants(sample_rate);
        self.instance_reset_params();
        self.instance_clear();
    }

    fn init(&mut self, sample_rate: i32) {
        Self::class_init(sample_rate);
        self.instance_init(sample_rate);
    }

    fn build_user_interface(&self, ui_interface: &mut dyn UI<Self::T>) {
        Self::build_user_interface_static(ui_interface);
    }

    fn build_user_interface_static(ui_interface: &mut dyn UI<Self::T>) {
        ui_interface.open_vertical_box("scale");
        ui_interface.open_horizontal_box("1. Meter");
        ui_interface.add_vertical_bargraph("Level", ParamIndex(7), 0.0, 1.0);
        ui_interface.close_box();
        ui_interface.open_vertical_box("3. Slapback");
        ui_interface.add_check_button("Hold", ParamIndex(5));
        ui_interface.add_horizontal_slider("Time", ParamIndex(0), 1.0, 0.0, 1000.0, 0.1);
        ui_interface.close_box();
        ui_interface.close_box();
    }

    fn get_param(&self, param: ParamIndex) -> Option<Self::T> {
        match param.0 {
            0 => Some(self.time),
            _ => None,
        }
    }

    fn set_param(&mut self, param: ParamIndex, value: Self::T) {
        if param.0 == 0 {
            self.time = value;
        }
    }

    fn compute(&mut self, count: i32, inputs: &[&[Self::T]], outputs: &mut [&mut [Self::T]]) {
        for (input, output) in inputs.iter().zip(outputs.iter_mut()) {
            for i in 0..count as usize {
                output[i] = input[i] * self.time;
            }
        }
    }
}


/// Walks a graph's interface description with the library's reader.
struct Stroll {
    reader: PathReader,
    indices: Vec<ParamIndex>,
}

impl UI<f32> for Stroll {
    fn open_tab_box(&mut self, label: &str) {
        self.reader.open_box(label);
    }

    fn open_horizontal_box(&mut self, label: &str) {
        self.reader.open_box(label);
    }

    fn open_vertical_box(&mut self, label: &str) {
        self.reader.open_box(label);
    }

    fn close_box(&mut self) {
        self.reader.close_box();
    }

    fn add_button(&mut self, label: &str, param: ParamIndex) {
        self.reader.add_control(label);
        self.indices.push(param);
    }

    fn add_check_button(&mut self, label: &str, param: ParamIndex) {
        self.reader.add_control(label);
        self.indices.push(param);
    }

    fn add_vertical_slider(&mut self, label: &str, param: ParamIndex, _: f32, _: f32, _: f32, _: f32) {
        self.reader.add_control(label);
        self.indices.push(param);
    }

    fn add_horizontal_slider(&mut self, label: &str, param: ParamIndex, _: f32, _: f32, _: f32, _: f32) {
        self.reader.add_control(label);
        self.indices.push(param);
    }

    fn add_num_entry(&mut self, label: &str, param: ParamIndex, _: f32, _: f32, _: f32, _: f32) {
        self.reader.add_control(label);
        self.indices.push(param);
    }

    fn add_horizontal_bargraph(&mut self, _: &str, _: ParamIndex, _: f32, _: f32) {}

    fn add_vertical_bargraph(&mut self, _: &str, _: ParamIndex, _: f32, _: f32) {}

    fn declare(&mut self, _: Option<ParamIndex>, _: &str, _: &str) {}
}

#[test]
fn the_process_loop_drives_a_graph() {
    let mut dsp = ScaleGraph::new();
    let mut walk = Stroll { reader: PathReader::new(), indices: Vec::new() };
    dsp.build_user_interface(&mut walk);
    let paths = walk.reader.into_paths();
    assert_eq!(paths, vec!["3. Slapback/Hold", "3. Slapback/Time"]);
    assert_eq!(walk.indices.iter().map(|index| index.0).collect::<Vec<i32>>(), vec![5, 0]);
    let mut plugin = FaustIntegration::new(paths).unwrap();
    let rate = plugin.initialize(&AudioLayout::stereo(), &config(48000, 64)).unwrap();
    dsp.init(rate);
    assert_eq!(dsp.get_sample_rate(), 48000);
    assert_eq!(dsp.get_param(ParamIndex(0)), Some(1.0));

    plugin.automate(0, fx(250.0));
    let ones = vec![1.0f32; 64];
    let inputs: [&[f32]; 2] = [&ones, &ones];
    let mut left = vec![-1.0f32; 64];
    let mut right = vec![-1.0f32; 64];
    let action = plugin.process(inputs.len(), 2, 64);
    assert_eq!(action, BlockAction::Compute { frames: 64 });
    if let BlockAction::Compute { frames } = action {
        for slot in 0..plugin.controls().len() {
            if let Some(value) = plugin.controls().get(slot) {
                dsp.set_param(walk.indices[slot], (value as f64 / 65536.0) as f32);
            }
        }
        let mut outputs: [&mut [f32]; 2] = [&mut left, &mut right];
        dsp.compute(frames, &inputs, &mut outputs);
    }
    assert_eq!(dsp.get_param(ParamIndex(0)), Some(250.0));
    assert_eq!(left, vec![250.0f32; 64]);
    assert_eq!(right, vec![250.0f32; 64]);
    assert_eq!(plugin.control("3. Slapback/Time"), Some(fx(250.0)));
}

#[test]
fn where_two_parameters_drive_one_path_the_later_one_is_read() {
    let range = ValueRange::new(0, from_int(1000)).unwrap();
    let mut params = FaustIntegrationParams::new();
    params.declare(Parameter::new("a", "A", "3. Slapback/Time", from_int(1), range).unwrap());
    params.declare(Parameter::new("b", "B", "1. Input/Gain", from_int(2), range).unwrap());
    params.declare(Parameter::new("c", "C", "3. Slapback/Time", from_int(3), range).unwrap());
    let mut plugin =
        FaustIntegration::with_params(params, graph_paths(), AudioLayout::stereo()).unwrap();
    plugin.initialize(&AudioLayout::stereo(), &config(48000, 16)).unwrap();
    assert_eq!(plugin.process(2, 2, 16), BlockAction::Compute { frames: 16 });
    assert_eq!(plugin.control("3. Slapback/Time"), Some(from_int(3)));
    assert_eq!(plugin.control("1. Input/Gain"), Some(from_int(2)));
    plugin.automate(0, from_int(500));
    plugin.automate(2, from_int(2000));
    assert_eq!(plugin.process(2, 2, 16), BlockAction::Compute { frames: 16 });
    assert_eq!(plugin.control("3. Slapback/Time"), Some(from_int(1000)));
    assert_eq!(plugin.params().get(0).unwrap().value(), from_int(500));
}

#[test]
fn a_value_read_in_a_block_is_the_value_at_the_control_and_in_range() {
    let mut plugin = FaustIntegration::new(graph_paths()).unwrap();
    plugin.initialize(&AudioLayout::stereo(), &config(48000, 64)).unwrap();
    let targets = [fx(10.0), fx(500.0), fx(9.0), fx(501.0), i64::MIN, i64::MAX, fx(250.5), 0];
    for target in targets {
        plugin.automate(0, target);
        assert_eq!(plugin.process(2, 2, 64), BlockAction::Compute { frames: 64 });
        let read = plugin.params().get(0).unwrap().value();
        assert!(fx(10.0) <= read && read <= fx(500.0));
        assert_eq!(read, target.clamp(fx(10.0), fx(500.0)));
        assert_eq!(plugin.control("3. Slapback/Time"), Some(read));
    }
}
