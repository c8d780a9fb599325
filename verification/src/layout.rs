use vstd::prelude::*;

use crate::device::{InputDevice, detected_layout};

verus! {

/// Mathematical value of one keyboard layout: its position within the
/// device's configured layout list, and its display name.
#[verifier::ext_equal]
pub struct LayoutV {
    pub id: int,
    pub name: Seq<char>,
}

/// One keyboard layout of a device, identified by its index in the device's
/// configured layout list together with its display name. Two layouts are
/// equal exactly when both fields agree.
#[derive(Debug)]
pub struct Layout {
    pub id: usize,
    pub name: String,
}

impl View for Layout {
    type V = LayoutV;

    open spec fn view(&self) -> LayoutV {
        LayoutV { id: self.id as int, name: self.name@ }
    }
}

impl Layout {
    /// Builds a layout from its list position and display name.
    pub fn from(layout: (usize, &String)) -> (r: Layout)
        ensures
            r@ == (LayoutV { id: layout.0 as int, name: layout.1@ }),
    {
        Layout { name: layout.1.clone(), id: layout.0 }
    }

    /// Reads the active layout out of a device's metadata; fails with a
    /// layout-detection error when the active index or the active name is
    /// absent (the window manager did not report an active layout).
    pub fn try_from(input: &InputDevice) -> (r: Result<Layout, LayoutError>)
        ensures
            match detected_layout(*input) {
                Some(l) => r is Ok && r->Ok_0@ == l,
                None => r is Err && r->Err_0@ == (if input.xkb_active_layout_index is None {
                    "layout index not found"@
                } else {
                    "layout name not found"@
                }),
            },
    {
        let id = match input.xkb_active_layout_index {
            Some(i) => i,
            None => {
                return Err(LayoutError::LayoutDetection("layout index not found".to_owned()));
            },
        };
        let name = match &input.xkb_active_layout_name {
            Some(n) => n,
            None => {
                return Err(LayoutError::LayoutDetection("layout name not found".to_owned()));
            },
        };
        Ok(Layout { id, name: name.clone() })
    }
}

/// The views of a list of layouts.
pub open spec fn layouts_view(ls: Seq<Layout>) -> Seq<LayoutV> {
    ls.map_values(|l: Layout| l@)
}

/// The view of an optional layout.
pub open spec fn opt_layout_view(o: Option<Layout>) -> Option<LayoutV> {
    match o {
        Some(l) => Some(l@),
        None => None,
    }
}

/// The first layout in the list bearing the given display name, if any.
pub open spec fn first_layout_named(ls: Seq<LayoutV>, n: Seq<char>) -> Option<LayoutV>
    decreases ls.len(),
{
    if ls.len() == 0 {
        None
    } else if ls[0].name == n {
        Some(ls[0])
    } else {
        first_layout_named(ls.drop_first(), n)
    }
}

/// Skipping a prefix without the wanted name does not change which layout is
/// found.
proof fn lemma_first_layout_named_after_prefix(ls: Seq<LayoutV>, n: Seq<char>, i: int)
    requires
        0 <= i <= ls.len(),
        forall|j: int| 0 <= j < i ==> ls[j].name != n,
    ensures
        first_layout_named(ls, n) == first_layout_named(ls.skip(i), n),
    decreases i,
{
    if i > 0 {
        assert forall|j: int| 0 <= j < i - 1 implies ls.drop_first()[j].name != n by {
            assert(ls.drop_first()[j] == ls[j + 1]);
        }
        lemma_first_layout_named_after_prefix(ls.drop_first(), n, i - 1);
        assert(ls.drop_first().skip(i - 1) =~= ls.skip(i));
    } else {
        assert(ls.skip(0) =~= ls);
    }
}

/// The first layout of the list whose display name equals the given one, or
/// `None` when the name is not configured.
pub fn find_layout_by_name(layouts: &Vec<Layout>, name: &String) -> (r: Option<Layout>)
    ensures
        match r {
            Some(l) => first_layout_named(layouts_view(layouts@), name@) == Some(l@),
            None => first_layout_named(layouts_view(layouts@), name@) is None,
        },
{
    let n = layouts.len();
    let mut i: usize = 0;
    while i < n
        invariant
            i <= n,
            n == layouts@.len(),
            forall|j: int| 0 <= j < i ==> layouts_view(layouts@)[j].name != name@,
        decreases n - i,
    {
        let l = &layouts[i];
        if l.name == *name {
            proof {
                lemma_first_layout_named_after_prefix(layouts_view(layouts@), name@, i as int);
                assert(layouts_view(layouts@).skip(i as int)[0] == layouts_view(layouts@)[i as int]);
            }
            return Some(l.clone());
        }
        i = i + 1;
    }
    proof {
        lemma_first_layout_named_after_prefix(layouts_view(layouts@), name@, n as int);
        assert(layouts_view(layouts@).skip(n as int) =~= Seq::<LayoutV>::empty());
    }
    None
}

impl Clone for Layout {
    fn clone(&self) -> (r: Layout)
        ensures
            r@ == self@,
    {
        Layout { id: self.id, name: self.name.clone() }
    }
}

impl PartialEq for Layout {
    fn eq(&self, other: &Layout) -> (r: bool) {
        self.id == other.id && self.name == other.name
    }
}

impl vstd::std_specs::cmp::PartialEqSpecImpl for Layout {
    open spec fn obeys_eq_spec() -> bool {
        true
    }

    open spec fn eq_spec(&self, other: &Layout) -> bool {
        self@ == other@
    }
}

/// Failure to read a layout out of the metadata that the window manager
/// reported for a device or an event.
#[derive(Debug)]
pub enum LayoutError {
    LayoutDetection(String),
}

impl View for LayoutError {
    type V = Seq<char>;

    /// The diagnostic message carried by the error.
    open spec fn view(&self) -> Seq<char> {
        match self {
            LayoutError::LayoutDetection(m) => m@,
        }
    }
}

} // verus!
