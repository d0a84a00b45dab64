//! The cue that was fired last, and how the display words it.

use vstd::prelude::*;

verus! {

/// Snapshot of a fired cue.
#[derive(Clone, Debug, PartialEq, Eq)]
pub struct CueInfo {
    /// Free-form identifier, possibly empty.
    pub number: String,
    /// Human label, possibly empty.
    pub text: String,
    /// Colour descriptor, if the console sent one.
    pub color: Option<String>,
}

/// Mathematical value of a [`CueInfo`].
pub struct CueView {
    pub number: Seq<char>,
    pub text: Seq<char>,
    pub color: Option<Seq<char>>,
}

impl CueView {
    /// The cue with nothing in it.
    pub open spec fn empty() -> CueView {
        CueView { number: Seq::empty(), text: Seq::empty(), color: None }
    }
}

impl View for CueInfo {
    type V = CueView;

    open spec fn view(&self) -> CueView {
        CueView {
            number: self.number@,
            text: self.text@,
            color: match self.color {
                Some(c) => Some(c@),
                None => None,
            },
        }
    }
}

impl Default for CueInfo {
    fn default() -> (cue: CueInfo)
        ensures
            cue@ == CueView::empty(),
    {
        CueInfo { number: String::new(), text: String::new(), color: None }
    }
}

/// What the display shows where a field is empty or absent.
pub open spec fn placeholder() -> Seq<char> {
    "—"@
}

/// `s`, or the placeholder where `s` is empty.
pub open spec fn or_placeholder(s: Seq<char>) -> Seq<char> {
    if s.len() == 0 {
        placeholder()
    } else {
        s
    }
}

impl CueView {
    /// The large heading of the cue block: the word `Cue` and the number.
    pub open spec fn title(self) -> Seq<char> {
        "Cue "@ + or_placeholder(self.number)
    }

    /// The cue's text as the cue block shows it.
    pub open spec fn caption(self) -> Seq<char> {
        or_placeholder(self.text)
    }

    /// The colour line of the cue block. A colour that is there is shown as
    /// it is, an empty one too.
    pub open spec fn color_line(self) -> Seq<char> {
        "Color: "@ + match self.color {
            Some(color) => color,
            None => placeholder(),
        }
    }
}

impl CueInfo {
    /// The large heading of the cue block.
    pub fn title(&self) -> (label: String)
        ensures
            label@ == self@.title(),
    {
        let mut label = String::from_str("Cue ");
        if self.number.as_str().is_empty() {
            label.append("—");
        } else {
            label.append(self.number.as_str());
        }
        label
    }

    /// The cue's text as the cue block shows it.
    pub fn caption(&self) -> (label: String)
        ensures
            label@ == self@.caption(),
    {
        if self.text.as_str().is_empty() {
            String::from_str("—")
        } else {
            self.text.clone()
        }
    }

    /// The colour line of the cue block.
    pub fn color_line(&self) -> (label: String)
        ensures
            label@ == self@.color_line(),
    {
        let mut label = String::from_str("Color: ");
        match &self.color {
            Some(color) => label.append(color.as_str()),
            None => label.append("—"),
        }
        label
    }
}

} // verus!
