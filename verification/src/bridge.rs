//! The control-state bridge between the control context and the audio context.
//!
//! The bridge has two handles. The writer stages values for named control
//! paths and publishes everything staged as one snapshot. The reader holds the
//! snapshot that was published last and applies it, once per block, to the
//! control inputs of the signal-processing graph. A snapshot changes hands as
//! a whole, so the reader never sees part of one.
//!
//! `StateBridge` holds both handles for an embedding that drives them from
//! one context, which is what the process loop does. `StateBridge::split`
//! parts them for an embedding that carries each `Snapshot` from one context
//! to the other itself.
//!
//! Staging, publishing and applying reuse the storage that the handles were
//! built with.

use crate::text::str_eq;
use vstd::prelude::*;

verus! {

/// The control paths in `paths`, each as the sequence of its characters.
pub open spec fn path_views(paths: Seq<String>) -> Seq<Seq<char>> {
    paths.map_values(|p: String| p@)
}

/// The control inputs after a snapshot was written over them: every slot that
/// the snapshot defines takes the snapshot's value, every other slot keeps its own.
pub open spec fn overlay(controls: Seq<Option<i64>>, snapshot: Seq<Option<i64>>) -> Seq<
    Option<i64>,
> {
    Seq::new(
        controls.len(),
        |i: int|
            if 0 <= i < snapshot.len() && snapshot[i] is Some {
                snapshot[i]
            } else {
                controls[i]
            },
    )
}

/// The writer as mathematics: one slot per control path of the graph.
pub struct WriterModel {
    /// The control paths of the graph; a path's slot is its first position.
    pub paths: Seq<Seq<char>>,
    /// What has been staged so far, by slot.
    pub staged: Seq<Option<i64>>,
}

impl WriterModel {
    /// There is one staged slot per path.
    pub open spec fn wf(self) -> bool {
        self.staged.len() == self.paths.len()
    }

    /// Whether `path` names a control input of the graph.
    pub open spec fn knows(self, path: Seq<char>) -> bool {
        self.paths.contains(path)
    }

    /// The slot of `path`, if the graph has such a control input.
    pub open spec fn slot_of(self, path: Seq<char>) -> Option<int> {
        self.paths.index_of_first(path)
    }

    /// `value` is staged for `path`; an unknown path changes nothing.
    pub open spec fn set_by_path(self, path: Seq<char>, value: i64) -> WriterModel {
        match self.slot_of(path) {
            Some(slot) => WriterModel { staged: self.staged.update(slot, Some(value)), ..self },
            None => self,
        }
    }
}

/// The reader as mathematics.
pub struct ReaderModel {
    /// The snapshot that was published last, by slot.
    pub published: Seq<Option<i64>>,
    /// Whether that snapshot has not been applied yet.
    pub pending: bool,
}

impl ReaderModel {
    /// A snapshot arrives and supersedes the one held before.
    pub open spec fn receive(self, snapshot: Seq<Option<i64>>) -> ReaderModel {
        ReaderModel { published: snapshot, pending: true }
    }

    /// The snapshot held is written over `controls`, unless it was already.
    pub open spec fn apply(self, controls: Seq<Option<i64>>) -> (ReaderModel, Seq<Option<i64>>) {
        if self.pending {
            (ReaderModel { pending: false, ..self }, overlay(controls, self.published))
        } else {
            (self, controls)
        }
    }
}

/// Both handles as mathematics.
pub struct BridgeModel {
    /// The control paths of the graph; a path's slot is its first position.
    pub paths: Seq<Seq<char>>,
    /// What the writer has staged so far, by slot.
    pub staged: Seq<Option<i64>>,
    /// The snapshot that is live for the reader, by slot.
    pub published: Seq<Option<i64>>,
    /// Whether a snapshot was published that the reader has not applied yet.
    pub pending: bool,
}

impl BridgeModel {
    /// The two handles `writer` and `reader` taken together.
    pub open spec fn join(writer: WriterModel, reader: ReaderModel) -> BridgeModel {
        BridgeModel {
            paths: writer.paths,
            staged: writer.staged,
            published: reader.published,
            pending: reader.pending,
        }
    }

    /// The writer's part.
    pub open spec fn writer(self) -> WriterModel {
        WriterModel { paths: self.paths, staged: self.staged }
    }

    /// The reader's part.
    pub open spec fn reader(self) -> ReaderModel {
        ReaderModel { published: self.published, pending: self.pending }
    }

    /// There is one staged slot per path.
    pub open spec fn wf(self) -> bool {
        self.staged.len() == self.paths.len()
    }

    /// Whether `path` names a control input of the graph.
    pub open spec fn knows(self, path: Seq<char>) -> bool {
        self.paths.contains(path)
    }

    /// The slot of `path`, if the graph has such a control input.
    pub open spec fn slot_of(self, path: Seq<char>) -> Option<int> {
        self.paths.index_of_first(path)
    }

    /// The writer stages `value` for `slot`; nothing becomes visible to the reader.
    pub open spec fn stage(self, slot: int, value: i64) -> BridgeModel {
        BridgeModel { staged: self.staged.update(slot, Some(value)), ..self }
    }

    /// The writer stages `value` for `path`; an unknown path changes nothing.
    pub open spec fn set_by_path(self, path: Seq<char>, value: i64) -> BridgeModel {
        match self.slot_of(path) {
            Some(slot) => self.stage(slot, value),
            None => self,
        }
    }

    /// The writer makes everything staged so far the live snapshot.
    pub open spec fn publish(self) -> BridgeModel {
        BridgeModel { published: self.staged, pending: true, ..self }
    }

    /// The reader takes the live snapshot, if it has not done so already, and
    /// writes it over `controls`.
    pub open spec fn apply(self, controls: Seq<Option<i64>>) -> (BridgeModel, Seq<Option<i64>>) {
        if self.pending {
            (BridgeModel { pending: false, ..self }, overlay(controls, self.published))
        } else {
            (self, controls)
        }
    }
}

/// The failure of a write to a path that the graph does not have.
#[derive(Debug, Clone, PartialEq, Eq)]
pub struct UnknownPathError {
    path: String,
}

impl View for UnknownPathError {
    type V = Seq<char>;

    /// The path that was rejected.
    closed spec fn view(&self) -> Seq<char> {
        self.path@
    }
}

impl UnknownPathError {
    /// The failure to find `path` among the control paths of the graph.
    pub fn new(path: &str) -> (error: UnknownPathError)
        ensures
            error@ == path@,
    {
        UnknownPathError { path: path.to_owned() }
    }

    /// The path that was rejected.
    pub fn path(&self) -> (p: &str)
        ensures
            p@ == self@,
    {
        self.path.as_str()
    }
}

/// Makes `target` hold what `source` holds, in the storage that `target` has.
fn overwrite(target: &mut Vec<Option<i64>>, source: &Vec<Option<i64>>)
    ensures
        final(target)@ == source@,
{
    target.clear();
    let mut i: usize = 0;
    while i < source.len()
        invariant
            i <= source.len(),
            target@ == source@.take(i as int),
        decreases source.len() - i,
    {
        target.push(source[i]);
        i += 1;
        assert(target@ =~= source@.take(i as int));
    }
    assert(target@ =~= source@);
}

/// `slots` slots, none of which holds a value.
fn unset(slots: usize) -> (values: Vec<Option<i64>>)
    ensures
        values@ == Seq::new(slots as nat, |i: int| None::<i64>),
{
    let mut values: Vec<Option<i64>> = Vec::new();
    let mut i: usize = 0;
    while i < slots
        invariant
            i <= slots,
            values@ == Seq::new(i as nat, |j: int| None::<i64>),
        decreases slots - i,
    {
        values.push(None);
        i += 1;
        assert(values@ =~= Seq::new(i as nat, |j: int| None::<i64>));
    }
    values
}

/// What the graph's control inputs should be: a value for every slot that a
/// write has reached, taken from the writer at one instant.
#[derive(Debug, Clone, PartialEq, Eq)]
pub struct Snapshot {
    values: Vec<Option<i64>>,
}

impl View for Snapshot {
    type V = Seq<Option<i64>>;

    closed spec fn view(&self) -> Seq<Option<i64>> {
        self.values@
    }
}

impl Snapshot {
    /// Number of slots.
    pub fn len(&self) -> (n: usize)
        ensures
            n == self@.len(),
    {
        self.values.len()
    }

    /// The value that the snapshot holds for `slot`.
    pub fn get(&self, slot: usize) -> (value: Option<i64>)
        ensures
            value == if slot < self@.len() {
                self@[slot as int]
            } else {
                None
            },
    {
        if slot < self.values.len() {
            self.values[slot]
        } else {
            None
        }
    }
}

/// The scalar control inputs of one graph instance, by slot. A slot that was
/// never written still holds whatever the graph started with.
#[derive(Debug, Clone, PartialEq, Eq)]
pub struct GraphControls {
    values: Vec<Option<i64>>,
}

impl View for GraphControls {
    type V = Seq<Option<i64>>;

    closed spec fn view(&self) -> Seq<Option<i64>> {
        self.values@
    }
}

impl GraphControls {
    /// The control inputs of a graph with `slots` controls, none written yet.
    pub fn new(slots: usize) -> (controls: GraphControls)
        ensures
            controls@ == Seq::new(slots as nat, |i: int| None::<i64>),
    {
        GraphControls { values: unset(slots) }
    }

    /// Number of control inputs.
    pub fn len(&self) -> (n: usize)
        ensures
            n == self@.len(),
    {
        self.values.len()
    }

    /// The value last written to the control input at `slot`.
    pub fn get(&self, slot: usize) -> (value: Option<i64>)
        ensures
            value == if slot < self@.len() {
                self@[slot as int]
            } else {
                None
            },
    {
        if slot < self.values.len() {
            self.values[slot]
        } else {
            None
        }
    }
}

/// The writer handle, for the control context.
#[derive(Debug)]
pub struct StateWriter {
    paths: Vec<String>,
    staged: Vec<Option<i64>>,
}

impl View for StateWriter {
    type V = WriterModel;

    closed spec fn view(&self) -> WriterModel {
        WriterModel { paths: path_views(self.paths@), staged: self.staged@ }
    }
}

impl StateWriter {
    #[verifier::type_invariant]
    spec fn inv(&self) -> bool {
        self@.wf()
    }

    /// A writer for the graph whose control paths are `paths`, with nothing
    /// staged.
    pub fn new(paths: Vec<String>) -> (writer: StateWriter)
        ensures
            writer@.wf(),
            writer@.paths == path_views(paths@),
            writer@.staged == Seq::new(paths@.len(), |i: int| None::<i64>),
    {
        let staged = unset(paths.len());
        StateWriter { paths, staged }
    }

    /// Number of control paths.
    pub fn len(&self) -> (n: usize)
        ensures
            self@.wf(),
            n == self@.paths.len(),
    {
        proof {
            use_type_invariant(self);
        }
        self.paths.len()
    }

    /// The slot of `path`, if the graph has such a control input.
    pub fn slot_of(&self, path: &str) -> (slot: Option<usize>)
        ensures
            self@.wf(),
            slot.is_some() == self@.knows(path@),
            match slot {
                Some(i) => self@.slot_of(path@) == Some(i as int) && i < self@.paths.len(),
                None => self@.slot_of(path@) is None,
            },
    {
        proof {
            use_type_invariant(self);
            self@.paths.index_of_first_ensures(path@);
        }
        let mut i: usize = 0;
        while i < self.paths.len()
            invariant
                i <= self.paths.len(),
                self@.wf(),
                forall|j: int| 0 <= j < i ==> self@.paths[j] != path@,
            decreases self.paths.len() - i,
        {
            if str_eq(self.paths[i].as_str(), path) {
                proof {
                    assert(self@.paths[i as int] == path@);
                    self@.paths.index_of_first_ensures(path@);
                }
                return Some(i);
            }
            i += 1;
        }
        None
    }

    /// Whether `path` names a control input of the graph.
    pub fn knows(&self, path: &str) -> (known: bool)
        ensures
            known == self@.knows(path@),
    {
        self.slot_of(path).is_some()
    }

    /// Stages `value` for the control input at `path`. No reader sees it
    /// before it is published. A path that the graph does not have is
    /// rejected, and the writer stays as it was.
    pub fn set_by_path(&mut self, path: &str, value: i64) -> (outcome: Result<
        (),
        UnknownPathError,
    >)
        ensures
            final(self)@.wf(),
            outcome.is_ok() == old(self)@.knows(path@),
            final(self)@ == old(self)@.set_by_path(path@, value),
            outcome matches Err(e) ==> e@ == path@ && *final(self) == *old(self),
    {
        proof {
            use_type_invariant(&*self);
        }
        match self.slot_of(path) {
            Some(slot) => {
                self.staged[slot] = Some(value);
                Ok(())
            },
            None => Err(UnknownPathError::new(path)),
        }
    }

    /// Everything staged so far, as one snapshot to carry to the reader.
    pub fn snapshot(&self) -> (snapshot: Snapshot)
        ensures
            snapshot@ == self@.staged,
    {
        let mut values: Vec<Option<i64>> = Vec::new();
        overwrite(&mut values, &self.staged);
        Snapshot { values }
    }

    /// Publishes everything staged so far to `reader`, as one snapshot that
    /// supersedes the one it held.
    pub fn publish_to(&self, reader: &mut StateReader)
        ensures
            final(reader)@ == old(reader)@.receive(self@.staged),
    {
        overwrite(&mut reader.latest, &self.staged);
        reader.pending = true;
    }
}

/// The reader handle, for the audio context.
#[derive(Debug)]
pub struct StateReader {
    latest: Vec<Option<i64>>,
    pending: bool,
}

impl View for StateReader {
    type V = ReaderModel;

    closed spec fn view(&self) -> ReaderModel {
        ReaderModel { published: self.latest@, pending: self.pending }
    }
}

impl StateReader {
    /// A reader for a graph with `slots` control inputs, to which nothing was
    /// published yet.
    pub fn new(slots: usize) -> (reader: StateReader)
        ensures
            reader@ == (ReaderModel {
                published: Seq::new(slots as nat, |i: int| None::<i64>),
                pending: false,
            }),
    {
        StateReader { latest: unset(slots), pending: false }
    }

    /// Takes a snapshot that the writer published. It supersedes the one held
    /// before, applied or not.
    pub fn receive(&mut self, snapshot: &Snapshot)
        ensures
            final(self)@ == old(self)@.receive(snapshot@),
    {
        overwrite(&mut self.latest, &snapshot.values);
        self.pending = true;
    }

    /// Whether a snapshot is held that has not been applied yet.
    pub fn has_pending(&self) -> (pending: bool)
        ensures
            pending == self@.pending,
    {
        self.pending
    }

    /// Writes the snapshot that was published last into the control inputs of
    /// the graph, slot by slot, and reports whether there was one to write.
    /// Without a snapshot published since the last call, nothing is written.
    pub fn apply_pending(&mut self, graph: &mut GraphControls) -> (applied: bool)
        ensures
            applied == old(self)@.pending,
            (final(self)@, final(graph)@) == old(self)@.apply(old(graph)@),
    {
        if !self.pending {
            return false;
        }
        let slots = if graph.values.len() < self.latest.len() {
            graph.values.len()
        } else {
            self.latest.len()
        };
        let mut i: usize = 0;
        while i < slots
            invariant
                i <= slots,
                slots <= self.latest.len(),
                slots <= graph.values.len(),
                graph.values.len() == old(graph).values.len(),
                *self == *old(self),
                forall|j: int|
                    0 <= j < i ==> graph.values@[j] == overlay(old(graph).values@, self.latest@)[j],
                forall|j: int|
                    i <= j < graph.values.len() ==> graph.values@[j] == old(graph).values@[j],
            decreases slots - i,
        {
            match self.latest[i] {
                Some(value) => {
                    graph.values[i] = Some(value);
                },
                None => {},
            }
            i += 1;
        }
        self.pending = false;
        assert(graph.values@ =~= overlay(old(graph).values@, self.latest@));
        true
    }
}

/// Both handles in one place, for an embedding that drives them from one
/// context: `set_by_path` and `publish` are the writer's calls,
/// `apply_pending` is the reader's.
#[derive(Debug)]
pub struct StateBridge {
    writer: StateWriter,
    reader: StateReader,
}

impl View for StateBridge {
    type V = BridgeModel;

    closed spec fn view(&self) -> BridgeModel {
        BridgeModel::join(self.writer@, self.reader@)
    }
}

impl StateBridge {
    /// A bridge for the graph whose control paths are `paths`: nothing staged,
    /// nothing published.
    pub fn new(paths: Vec<String>) -> (bridge: StateBridge)
        ensures
            bridge@.wf(),
            bridge@.paths == path_views(paths@),
            bridge@.staged == Seq::new(paths@.len(), |i: int| None::<i64>),
            bridge@.published == Seq::new(paths@.len(), |i: int| None::<i64>),
            !bridge@.pending,
    {
        let slots = paths.len();
        StateBridge { writer: StateWriter::new(paths), reader: StateReader::new(slots) }
    }

    /// Parts the two handles, each with what it holds.
    pub fn split(self) -> (handles: (StateWriter, StateReader))
        ensures
            handles.0@.wf(),
            handles.0@ == self@.writer(),
            handles.1@ == self@.reader(),
    {
        proof {
            use_type_invariant(&self.writer);
        }
        (self.writer, self.reader)
    }

    /// Number of control paths.
    pub fn len(&self) -> (n: usize)
        ensures
            self@.wf(),
            n == self@.paths.len(),
    {
        self.writer.len()
    }

    /// The slot of `path`, if the graph has such a control input.
    pub fn slot_of(&self, path: &str) -> (slot: Option<usize>)
        ensures
            self@.wf(),
            slot.is_some() == self@.knows(path@),
            match slot {
                Some(i) => self@.slot_of(path@) == Some(i as int) && i < self@.paths.len(),
                None => self@.slot_of(path@) is None,
            },
    {
        self.writer.slot_of(path)
    }

    /// Whether `path` names a control input of the graph.
    pub fn knows(&self, path: &str) -> (known: bool)
        ensures
            known == self@.knows(path@),
    {
        self.writer.slot_of(path).is_some()
    }

    /// Stages `value` for the control input at `path`. The reader sees nothing
    /// of it before the next `publish`. A path that the graph does not have is
    /// rejected, and the bridge stays as it was.
    pub fn set_by_path(&mut self, path: &str, value: i64) -> (outcome: Result<
        (),
        UnknownPathError,
    >)
        ensures
            final(self)@.wf(),
            outcome.is_ok() == old(self)@.knows(path@),
            final(self)@ == old(self)@.set_by_path(path@, value),
            outcome matches Err(e) ==> e@ == path@ && *final(self) == *old(self),
    {
        self.writer.set_by_path(path, value)
    }

    /// Makes everything staged so far visible to the reader, as one snapshot
    /// that supersedes the one published before.
    pub fn publish(&mut self)
        ensures
            final(self)@.wf(),
            final(self)@ == old(self)@.publish(),
    {
        proof {
            use_type_invariant(&self.writer);
        }
        self.writer.publish_to(&mut self.reader);
    }

    /// Whether a snapshot was published that the reader has not applied yet.
    pub fn has_pending(&self) -> (pending: bool)
        ensures
            pending == self@.pending,
    {
        self.reader.has_pending()
    }

    /// Writes the latest published snapshot into the control inputs of the
    /// graph, slot by slot, and reports whether there was one to write. Without
    /// a snapshot published since the last call, nothing is written.
    pub fn apply_pending(&mut self, graph: &mut GraphControls) -> (applied: bool)
        ensures
            final(self)@.wf(),
            applied == old(self)@.pending,
            (final(self)@, final(graph)@) == old(self)@.apply(old(graph)@),
    {
        proof {
            use_type_invariant(&self.writer);
        }
        self.reader.apply_pending(graph)
    }
}

/// The two handles apart do what the bridge does: a snapshot taken from the
/// writer and received by the reader is a publish, and the reader's apply is
/// the bridge's.
pub proof fn law_split_handles_agree(
    writer: WriterModel,
    reader: ReaderModel,
    controls: Seq<Option<i64>>,
)
    ensures
        BridgeModel::join(writer, reader.receive(writer.staged)) == BridgeModel::join(
            writer,
            reader,
        ).publish(),
        BridgeModel::join(writer, reader.apply(controls).0) == BridgeModel::join(
            writer,
            reader,
        ).apply(controls).0,
        reader.apply(controls).1 == BridgeModel::join(writer, reader).apply(controls).1,
        forall|path: Seq<char>, value: i64|
            BridgeModel::join(#[trigger] writer.set_by_path(path, value), reader)
                == BridgeModel::join(writer, reader).set_by_path(path, value),
{
}

/// The reader calls `apply` `times` times in a row.
pub open spec fn apply_times(times: nat, s: BridgeModel, controls: Seq<Option<i64>>) -> (
    BridgeModel,
    Seq<Option<i64>>,
)
    decreases times,
{
    if times == 0 {
        (s, controls)
    } else {
        let (next, written) = s.apply(controls);
        apply_times((times - 1) as nat, next, written)
    }
}

/// However often the reader applies in a row, only its first call counts.
pub proof fn lemma_apply_times(times: nat, s: BridgeModel, controls: Seq<Option<i64>>)
    requires
        times >= 1,
    ensures
        apply_times(times, s, controls) == s.apply(controls),
    decreases times,
{
    let (next, written) = s.apply(controls);
    if times > 1 {
        lemma_apply_times((times - 1) as nat, next, written);
    } else {
        assert(apply_times(0, next, written) == (next, written));
    }
}

/// Whether the control inputs at slots `a` and `b` read exactly `pair`.
pub open spec fn reads_pair(
    controls: Seq<Option<i64>>,
    a: int,
    b: int,
    pair: (Option<i64>, Option<i64>),
) -> bool {
    controls[a] == pair.0 && controls[b] == pair.1
}

/// A value staged for a known path, then published and applied,
/// is what the graph's control input at that path reads.
pub proof fn law_published_value_is_read(
    s: BridgeModel,
    controls: Seq<Option<i64>>,
    path: Seq<char>,
    value: i64,
)
    requires
        s.wf(),
        controls.len() == s.paths.len(),
        s.knows(path),
    ensures
        s.slot_of(path) is Some,
        0 <= s.slot_of(path).unwrap() < controls.len(),
        s.set_by_path(path, value).publish().apply(controls).1[s.slot_of(path).unwrap()] == Some(
            value,
        ),
{
    s.paths.index_of_first_ensures(path);
}

/// A write to a path that the graph does not have leaves the bridge as it was:
/// nothing is staged, and the live snapshot is untouched.
pub proof fn law_unknown_path_changes_nothing(s: BridgeModel, path: Seq<char>, value: i64)
    requires
        !s.knows(path),
    ensures
        s.slot_of(path) is None,
        s.set_by_path(path, value) == s,
{
    s.paths.index_of_first_ensures(path);
}

/// Applying twice with no publish in between: the second call changes neither
/// the bridge nor the graph's control inputs.
pub proof fn law_apply_is_idempotent(s: BridgeModel, controls: Seq<Option<i64>>)
    ensures
        ({
            let (s1, c1) = s.apply(controls);
            s1.apply(c1) == (s1, c1)
        }),
{
}

/// Staging alone never changes what the reader obtains.
pub proof fn law_staging_is_invisible(
    s: BridgeModel,
    controls: Seq<Option<i64>>,
    slot: int,
    value: i64,
)
    ensures
        s.stage(slot, value).apply(controls).1 == s.apply(controls).1,
{
}

/// A snapshot changes hands whole. The writer stages two values and publishes them
/// together, while the reader applies any number of times at each of the
/// points in between (`n0` times before the first write, `n1` times between
/// the writes, `n2` times before the publish, `n3` times after it). Whatever
/// the interleaving, the two control inputs read as they did before, or as
/// the previously published snapshot left them, or both new: never one new
/// and one old. Once the reader has applied after the publish, both are new.
pub proof fn law_no_torn_snapshot(
    s: BridgeModel,
    controls: Seq<Option<i64>>,
    a: int,
    b: int,
    va: i64,
    vb: i64,
    n0: nat,
    n1: nat,
    n2: nat,
    n3: nat,
)
    requires
        s.wf(),
        controls.len() == s.paths.len(),
        0 <= a < s.paths.len(),
        0 <= b < s.paths.len(),
        a != b,
    ensures
        ({
            let before = (controls[a], controls[b]);
            let previous = (overlay(controls, s.published)[a], overlay(controls, s.published)[b]);
            let fresh = (Some(va), Some(vb));
            let (s0, c0) = apply_times(n0, s, controls);
            let (s1, c1) = apply_times(n1, s0.stage(a, va), c0);
            let (s2, c2) = apply_times(n2, s1.stage(b, vb), c1);
            let (s3, c3) = apply_times(n3, s2.publish(), c2);
            &&& reads_pair(c0, a, b, before) || reads_pair(c0, a, b, previous)
            &&& reads_pair(c1, a, b, before) || reads_pair(c1, a, b, previous)
            &&& reads_pair(c2, a, b, before) || reads_pair(c2, a, b, previous)
            &&& reads_pair(c3, a, b, before) || reads_pair(c3, a, b, previous) || reads_pair(
                c3,
                a,
                b,
                fresh,
            )
            &&& n3 >= 1 ==> reads_pair(c3, a, b, fresh)
        }),
{
    let (s0, c0) = apply_times(n0, s, controls);
    if n0 >= 1 {
        lemma_apply_times(n0, s, controls);
    }
    let (s1, c1) = apply_times(n1, s0.stage(a, va), c0);
    if n1 >= 1 {
        lemma_apply_times(n1, s0.stage(a, va), c0);
    }
    let (s2, c2) = apply_times(n2, s1.stage(b, vb), c1);
    if n2 >= 1 {
        lemma_apply_times(n2, s1.stage(b, vb), c1);
    }
    if n3 >= 1 {
        lemma_apply_times(n3, s2.publish(), c2);
    }
}

} // verus!
