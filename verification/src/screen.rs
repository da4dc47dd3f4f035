//! A screen of drawable components, rendered in order.
//!
//! Rendering produces text; putting that text on a terminal happens
//! outside the library.

use vstd::prelude::*;
use vstd::string::StringExecFns;

verus! {

/// Something that can render itself as a line of text. Each implementor
/// fixes, as a spec function, what that line says.
pub trait Draw {
    /// What `draw` returns.
    spec fn spec_draw(&self) -> Seq<char>;

    fn draw(&self) -> (rendered: String)
        ensures
            rendered@ == self.spec_draw(),
    ;
}

/// A screen holds drawable components and renders each in turn.
pub struct Screen<T: Draw> {
    pub components: Vec<T>,
}

impl<T: Draw> Screen<T> {
    /// Render every component, in order.
    #[verifier::loop_isolation(false)]
    pub fn run(&self) -> (rendered: Vec<String>)
        ensures
            rendered@.len() == self.components@.len(),
            forall|i: int|
                0 <= i < self.components@.len() ==> (#[trigger] rendered@[i])@
                    == self.components@[i].spec_draw(),
    {
        let mut rendered: Vec<String> = Vec::new();
        let mut i: usize = 0;
        while i < self.components.len()
            invariant
                i <= self.components@.len(),
                rendered@.len() == i,
                forall|j: int|
                    0 <= j < i ==> (#[trigger] rendered@[j])@ == self.components@[j].spec_draw(),
            decreases self.components@.len() - i,
        {
            rendered.push(self.components[i].draw());
            i = i + 1;
        }
        rendered
    }
}

/// The parts joined by the separator: the first part, then each further
/// part preceded by one separator.
pub open spec fn spec_join(parts: Seq<Seq<char>>, sep: Seq<char>) -> Seq<char>
    decreases parts.len(),
{
    if parts.len() == 0 {
        Seq::empty()
    } else if parts.len() == 1 {
        parts[0]
    } else {
        spec_join(parts.drop_last(), sep) + sep + parts.last()
    }
}

/// Join strings with a separator between each adjacent pair.
#[verifier::loop_isolation(false)]
pub fn join_strings(parts: &Vec<String>, sep: &str) -> (joined: String)
    ensures
        joined@ == spec_join(parts@.map_values(|p: String| p@), sep@),
{
    let ghost part_views = parts@.map_values(|p: String| p@);
    let mut joined = String::new();
    let mut i: usize = 0;
    while i < parts.len()
        invariant
            i <= parts@.len(),
            joined@ == spec_join(part_views.take(i as int), sep@),
        decreases parts@.len() - i,
    {
        proof {
            assert(part_views.take(i + 1).drop_last() =~= part_views.take(i as int));
        }
        if i > 0 {
            joined.append(sep);
        }
        joined.append(parts[i].as_str());
        i = i + 1;
        proof {
            assert(joined@ =~= spec_join(part_views.take(i as int), sep@));
        }
    }
    proof {
        assert(part_views.take(parts@.len() as int) =~= part_views);
    }
    joined
}

/// A push button with a label.
pub struct Button {
    pub width: u32,
    pub height: u32,
    pub label: String,
}

impl Draw for Button {
    open spec fn spec_draw(&self) -> Seq<char> {
        "Draw Button "@ + self.label@
    }

    fn draw(&self) -> (rendered: String)
        ensures
            rendered@ == self.spec_draw(),
    {
        let mut rendered = String::from_str("Draw Button ");
        rendered.append(self.label.as_str());
        rendered
    }
}

/// A select box offering a list of options.
pub struct SelectBox {
    pub width: u32,
    pub height: u32,
    pub options: Vec<String>,
}

impl Draw for SelectBox {
    open spec fn spec_draw(&self) -> Seq<char> {
        "Draw SelectBox with options "@ + spec_join(
            self.options@.map_values(|o: String| o@),
            ", "@,
        )
    }

    fn draw(&self) -> (rendered: String)
        ensures
            rendered@ == self.spec_draw(),
    {
        let mut rendered = String::from_str("Draw SelectBox with options ");
        let joined = join_strings(&self.options, ", ");
        rendered.append(joined.as_str());
        rendered
    }
}

} // verus!
