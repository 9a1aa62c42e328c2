//! The three adjustable controls with their default value and allowed range.

use vstd::prelude::*;
use vstd::string::*;

verus! {

/// Default value and allowed range of one control.
#[derive(Clone, Copy, Debug, PartialEq, Eq, Structural)]
pub struct Options {
    pub val: i64,
    pub max: i64,
    pub min: i64,
}

impl Options {
    /// The default lies within the allowed range.
    pub open spec fn in_range(&self) -> bool {
        self.min <= self.val <= self.max
    }
}

/// The descriptors of the three controls.
#[derive(Clone, Copy, Debug, PartialEq, Eq, Structural)]
pub struct Controls {
    pub zoom: Options,
    pub tilt: Options,
    pub pan: Options,
}

impl View for Controls {
    type V = Map<Seq<char>, Options>;

    /// The catalog as a mapping from the name of a control to its
    /// descriptor.
    open spec fn view(&self) -> Map<Seq<char>, Options> {
        map!["pan"@ => self.pan, "tilt"@ => self.tilt, "zoom"@ => self.zoom]
    }
}

impl Controls {
    /// Every descriptor has its default within its range.
    pub open spec fn well_formed(&self) -> bool {
        self.zoom.in_range() && self.tilt.in_range() && self.pan.in_range()
    }

    /// The descriptors with their names, ordered by name.
    pub open spec fn listed(&self) -> Seq<(Seq<char>, Options)> {
        seq![("pan"@, self.pan), ("tilt"@, self.tilt), ("zoom"@, self.zoom)]
    }

    /// Lists the descriptors with their names, ordered by name.
    pub fn entries(&self) -> (r: Vec<(String, Options)>)
        ensures
            r@.len() == self.listed().len(),
            forall|i: int|
                0 <= i < r@.len() ==> ((#[trigger] r@[i]).0@, r@[i].1) == self.listed()[i],
    {
        let mut r: Vec<(String, Options)> = Vec::new();
        r.push((String::from_str("pan"), self.pan));
        r.push((String::from_str("tilt"), self.tilt));
        r.push((String::from_str("zoom"), self.zoom));
        r
    }
}

/// The catalog every camera starts from.
pub open spec fn default_controls() -> Controls {
    Controls {
        zoom: Options { min: 100, val: 100, max: 500 },
        tilt: Options { min: -10i64, val: 0, max: 10 },
        pan: Options { min: -10i64, val: 0, max: 10 },
    }
}

/// Returns the catalog. The result is the same on every call.
pub fn default() -> (c: Controls)
    ensures
        c == default_controls(),
        c.well_formed(),
{
    Controls {
        zoom: Options { min: 100, val: 100, max: 500 },
        tilt: Options { min: -10, val: 0, max: 10 },
        pan: Options { min: -10, val: 0, max: 10 },
    }
}

/// In the catalog every default lies within its range.
pub proof fn lemma_defaults_in_range()
    ensures
        default_controls().zoom.in_range(),
        default_controls().tilt.in_range(),
        default_controls().pan.in_range(),
{
}

/// The names of a catalog are three, and its listing holds exactly what
/// the mapping holds.
pub proof fn lemma_listed_is_view(c: Controls)
    ensures
        c@.dom() == set!["pan"@, "tilt"@, "zoom"@],
        c@.len() == 3,
        forall|i: int|
            0 <= i < c.listed().len() ==> c@.contains_key((#[trigger] c.listed()[i]).0) && c@[c.listed()[i].0]
                == c.listed()[i].1,
{
    reveal_strlit("pan");
    reveal_strlit("tilt");
    reveal_strlit("zoom");
    assert("pan"@.len() == 3 && "tilt"@.len() == 4 && "zoom"@.len() == 4);
    assert("tilt"@[0] == 't' && "zoom"@[0] == 'z');
    assert(c@.dom() =~= set!["pan"@, "tilt"@, "zoom"@]);
}

} // verus!
