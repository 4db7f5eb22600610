//! What the window shows: a picture or none, a prediction or none.

use vstd::prelude::*;

verus! {

/// How an attempt to select a picture ended.
#[derive(Debug)]
pub enum Selection {
    /// The file dialog was closed without a choice.
    Cancelled,
    /// The chosen file could not be opened or decoded.
    Unreadable,
    /// The picture was decoded and put on screen; `prediction` is the label
    /// found for it, or `None` where classification gave none.
    Shown { prediction: Option<String> },
}

/// Mathematical content of a [`Selection`].
pub enum SelectionView {
    Cancelled,
    Unreadable,
    Shown { prediction: Option<Seq<char>> },
}

/// The characters of an optional text.
pub open spec fn text_view(text: Option<String>) -> Option<Seq<char>> {
    match text {
        Some(s) => Some(s@),
        None => None,
    }
}

impl View for Selection {
    type V = SelectionView;

    open spec fn view(&self) -> SelectionView {
        match *self {
            Selection::Cancelled => SelectionView::Cancelled,
            Selection::Unreadable => SelectionView::Unreadable,
            Selection::Shown { prediction } => SelectionView::Shown {
                prediction: text_view(prediction),
            },
        }
    }
}

/// Mathematical content of a [`Viewer`].
pub struct ViewerView {
    pub has_picture: bool,
    pub prediction: Option<Seq<char>>,
}

/// The state after a selection attempt. A cancelled dialog and an unreadable
/// file change nothing; a picture that was shown replaces the prediction,
/// also by none.
pub open spec fn after_selection(state: ViewerView, outcome: SelectionView) -> ViewerView {
    match outcome {
        SelectionView::Cancelled => state,
        SelectionView::Unreadable => state,
        SelectionView::Shown { prediction } => ViewerView { has_picture: true, prediction },
    }
}

/// The line shown under the picture for a prediction.
pub open spec fn caption_text(prediction: Seq<char>) -> Seq<char> {
    "Prediction: "@ + prediction
}

/// State of the window between two frames.
#[derive(Debug)]
pub struct Viewer {
    has_picture: bool,
    prediction: Option<String>,
}

impl View for Viewer {
    type V = ViewerView;

    closed spec fn view(&self) -> ViewerView {
        ViewerView { has_picture: self.has_picture, prediction: text_view(self.prediction) }
    }
}

impl Viewer {
    /// The state at start: no picture, no prediction.
    pub fn new() -> (v: Viewer)
        ensures
            v@ == (ViewerView { has_picture: false, prediction: None }),
    {
        Viewer { has_picture: false, prediction: None }
    }

    /// Takes in how a selection attempt ended.
    pub fn select(&mut self, outcome: Selection)
        ensures
            final(self)@ == after_selection(old(self)@, outcome@),
    {
        match outcome {
            Selection::Cancelled => {},
            Selection::Unreadable => {},
            Selection::Shown { prediction } => {
                self.has_picture = true;
                self.prediction = prediction;
            },
        }
    }

    /// Whether a picture is on screen.
    pub fn has_picture(&self) -> (b: bool)
        ensures
            b == self@.has_picture,
    {
        self.has_picture
    }

    /// The line to show under the picture, if there is a prediction.
    pub fn caption(&self) -> (c: Option<String>)
        ensures
            c is Some <==> self@.prediction is Some,
            c matches Some(line) ==> line@ == caption_text(self@.prediction->0),
    {
        match &self.prediction {
            Some(name) => Some(String::from_str("Prediction: ").concat(name.as_str())),
            None => None,
        }
    }
}

impl Default for Viewer {
    fn default() -> (v: Viewer)
        ensures
            v@ == (ViewerView { has_picture: false, prediction: None }),
    {
        Viewer::new()
    }
}

} // verus!
