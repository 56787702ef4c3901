//! The control paths of a compiled graph, read from its interface
//! description.
//!
//! A graph describes its interface as a walk: boxes are opened and closed,
//! and controls are added inside them. The path of a control is made of the
//! labels of the boxes around it, below the outermost one, and of its own
//! label, joined by `/`. The outermost box stands for the graph as a whole
//! and gives no part of a path. Controls get their slots in the order in
//! which the walk adds them.

use crate::bridge::path_views;
use vstd::prelude::*;
use vstd::string::StringExecFns;

verus! {

/// The labels of the boxes `boxes[1]` up to `boxes[upto - 1]`, each followed
/// by `/`.
pub open spec fn prefix(boxes: Seq<Seq<char>>, upto: int) -> Seq<char>
    decreases upto,
{
    if upto <= 1 {
        Seq::empty()
    } else {
        prefix(boxes, upto - 1) + boxes[upto - 1] + seq!['/']
    }
}

/// The path of a control with the label `label` inside the open boxes
/// `boxes`, outermost first.
pub open spec fn control_path(boxes: Seq<Seq<char>>, label: Seq<char>) -> Seq<char> {
    prefix(boxes, boxes.len() as int) + label
}

/// A walk as mathematics.
pub struct PathReaderModel {
    /// The labels of the boxes that are open, outermost first.
    pub boxes: Seq<Seq<char>>,
    /// The paths of the controls added so far, by slot.
    pub paths: Seq<Seq<char>>,
}

impl PathReaderModel {
    /// A box with the label `label` is opened.
    pub open spec fn open_box(self, label: Seq<char>) -> PathReaderModel {
        PathReaderModel { boxes: self.boxes.push(label), ..self }
    }

    /// The innermost open box is closed; with no box open, nothing changes.
    pub open spec fn close_box(self) -> PathReaderModel {
        if self.boxes.len() > 0 {
            PathReaderModel { boxes: self.boxes.drop_last(), ..self }
        } else {
            self
        }
    }

    /// A control with the label `label` is added in the innermost open box.
    pub open spec fn add_control(self, label: Seq<char>) -> PathReaderModel {
        PathReaderModel { paths: self.paths.push(control_path(self.boxes, label)), ..self }
    }
}

/// Follows the walk through an interface description and collects the
/// control paths.
#[derive(Debug)]
pub struct PathReader {
    boxes: Vec<String>,
    paths: Vec<String>,
}

impl View for PathReader {
    type V = PathReaderModel;

    closed spec fn view(&self) -> PathReaderModel {
        PathReaderModel { boxes: path_views(self.boxes@), paths: path_views(self.paths@) }
    }
}

impl PathReader {
    /// The start of a walk: no box open, no control added.
    pub fn new() -> (reader: PathReader)
        ensures
            reader@ == (PathReaderModel {
                boxes: Seq::<Seq<char>>::empty(),
                paths: Seq::<Seq<char>>::empty(),
            }),
    {
        let reader = PathReader { boxes: Vec::new(), paths: Vec::new() };
        assert(reader@.boxes =~= Seq::<Seq<char>>::empty());
        assert(reader@.paths =~= Seq::<Seq<char>>::empty());
        reader
    }

    /// A box with the label `label` is opened.
    pub fn open_box(&mut self, label: &str)
        ensures
            final(self)@ == old(self)@.open_box(label@),
    {
        self.boxes.push(label.to_owned());
        assert(self@.boxes =~= old(self)@.boxes.push(label@));
    }

    /// The innermost open box is closed; with no box open, nothing changes.
    pub fn close_box(&mut self)
        ensures
            final(self)@ == old(self)@.close_box(),
    {
        if self.boxes.len() > 0 {
            self.boxes.pop();
            assert(self@.boxes =~= old(self)@.boxes.drop_last());
        }
    }

    /// A control with the label `label` is added in the innermost open box,
    /// and its slot is returned.
    pub fn add_control(&mut self, label: &str) -> (slot: usize)
        ensures
            final(self)@ == old(self)@.add_control(label@),
            slot == old(self)@.paths.len(),
    {
        proof {
            reveal_strlit("/");
        }
        let ghost boxes = self@.boxes;
        let mut path = String::new();
        let mut i: usize = 1;
        while i < self.boxes.len()
            invariant
                1 <= i,
                i <= self.boxes.len() || (self.boxes.len() == 0 && i == 1),
                boxes == path_views(self.boxes@),
                path@ == prefix(boxes, i as int),
                "/"@ == seq!['/'],
            decreases self.boxes.len() - i,
        {
            path.append(self.boxes[i].as_str());
            path.append("/");
            i += 1;
        }
        assert(path@ == prefix(boxes, boxes.len() as int)) by {
            assert(boxes.len() == self.boxes.len());
            if boxes.len() == 0 {
                assert(prefix(boxes, 0) == prefix(boxes, 1));
            }
        }
        path.append(label);
        let slot = self.paths.len();
        self.paths.push(path);
        assert(self@.paths =~= old(self)@.paths.push(control_path(boxes, label@)));
        slot
    }

    /// Number of controls added so far.
    pub fn len(&self) -> (n: usize)
        ensures
            n == self@.paths.len(),
    {
        self.paths.len()
    }

    /// The end of the walk: the paths of the controls, by slot.
    pub fn into_paths(self) -> (paths: Vec<String>)
        ensures
            path_views(paths@) == self@.paths,
    {
        self.paths
    }
}

/// What the rule gives in the three simplest places: a control outside every
/// box, or in the outermost box alone, has its label for its path; a control
/// in one box below the outermost has that box's label, `/`, and its own.
pub proof fn law_paths_of_shallow_controls(
    outer: Seq<char>,
    inner: Seq<char>,
    label: Seq<char>,
)
    ensures
        control_path(Seq::empty(), label) == label,
        control_path(seq![outer], label) == label,
        control_path(seq![outer, inner], label) == inner + seq!['/'] + label,
{
    let two = seq![outer, inner];
    assert(prefix(two, 1) == Seq::<char>::empty());
    assert(prefix(two, 2) == prefix(two, 1) + two[1] + seq!['/']);
    assert(prefix(two, 2) =~= inner + seq!['/']);
    assert(control_path(Seq::empty(), label) =~= label);
    assert(control_path(seq![outer], label) =~= label);
}

} // verus!
