//! The importance level that a task is tagged with.

use vstd::prelude::*;

verus! {

/// How much a task matters. New tasks are `Normal` unless the user picked
/// another level first.
#[derive(Debug, Clone, Copy, PartialEq, Eq, Structural)]
pub enum Importance {
    Low,
    Normal,
    High,
}

impl Importance {
    /// The levels in the order in which a selector offers them.
    pub open spec fn spec_all() -> Seq<Importance> {
        seq![Importance::Low, Importance::Normal, Importance::High]
    }

    /// Every level, lowest first.
    pub fn all() -> (levels: [Importance; 3])
        ensures
            levels@ == Importance::spec_all(),
    {
        let levels = [Importance::Low, Importance::Normal, Importance::High];
        assert(levels@ =~= Importance::spec_all());
        levels
    }

    /// The text shown for a level.
    pub open spec fn label_text(self) -> Seq<char> {
        match self {
            Importance::Low => "Low"@,
            Importance::Normal => "Normal"@,
            Importance::High => "High"@,
        }
    }

    /// The text shown for a level, as an owned string.
    pub fn label(self) -> (text: String)
        ensures
            text@ == self.label_text(),
    {
        match self {
            Importance::Low => "Low".to_owned(),
            Importance::Normal => "Normal".to_owned(),
            Importance::High => "High".to_owned(),
        }
    }
}

/// A `String` cannot be written down in a specification, only its text
/// can. So the conversion promises nothing by way of `from_spec`; what it
/// returns is stated on `from` itself, over the text.
impl vstd::std_specs::convert::FromSpecImpl<Importance> for String {
    open spec fn obeys_from_spec() -> bool {
        false
    }

    open spec fn from_spec(importance: Importance) -> String {
        arbitrary()
    }
}

impl From<Importance> for String {
    fn from(importance: Importance) -> (text: String)
        ensures
            text@ == importance.label_text(),
    {
        importance.label()
    }
}

} // verus!
