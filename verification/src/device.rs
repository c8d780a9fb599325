use vstd::prelude::*;

use crate::error::Error;
use crate::layout::{Layout, LayoutV, layouts_view};

verus! {

/// What the manager reads of one input device, as the window manager reports
/// it: the device's identifier, its device class, the configured layout names
/// in order, and (when the device has one) the active layout's index and name.
#[derive(Debug)]
pub struct InputDevice {
    pub identifier: String,
    pub input_type: String,
    pub xkb_layout_names: Vec<String>,
    pub xkb_active_layout_index: Option<usize>,
    pub xkb_active_layout_name: Option<String>,
}

/// The views of a list of layout names.
pub open spec fn names_view(names: Seq<String>) -> Seq<Seq<char>> {
    names.map_values(|s: String| s@)
}

/// The view of an optional layout name.
pub open spec fn opt_name_view(o: Option<String>) -> Option<Seq<char>> {
    match o {
        Some(n) => Some(n@),
        None => None,
    }
}

/// A device is keyboard-class when the window manager reports it with the
/// "keyboard" input type.
pub open spec fn is_keyboard(d: InputDevice) -> bool {
    d.input_type@ == "keyboard"@
}

/// A keyboard-class device carrying the configured identifier.
pub open spec fn matches_device(d: InputDevice, id: Seq<char>) -> bool {
    is_keyboard(d) && d.identifier@ == id
}

/// The first keyboard-class device with the given identifier, if any.
pub open spec fn find_keyboard(devs: Seq<InputDevice>, id: Seq<char>) -> Option<InputDevice>
    decreases devs.len(),
{
    if devs.len() == 0 {
        None
    } else if matches_device(devs[0], id) {
        Some(devs[0])
    } else {
        find_keyboard(devs.drop_first(), id)
    }
}

/// The identifiers of the keyboard-class devices, in reported order.
pub open spec fn keyboard_ids(devs: Seq<InputDevice>) -> Seq<Seq<char>>
    decreases devs.len(),
{
    if devs.len() == 0 {
        Seq::empty()
    } else {
        let rest = keyboard_ids(devs.drop_last());
        if is_keyboard(devs.last()) {
            rest.push(devs.last().identifier@)
        } else {
            rest
        }
    }
}

/// The layout list of a device: each configured name paired with its position.
pub open spec fn enumerate_layouts(names: Seq<Seq<char>>) -> Seq<LayoutV> {
    Seq::new(names.len(), |i: int| LayoutV { id: i, name: names[i] })
}

/// The active layout a device reports: present exactly when both the active
/// index and the active name are present in its metadata.
pub open spec fn detected_layout(d: InputDevice) -> Option<LayoutV> {
    match (d.xkb_active_layout_index, d.xkb_active_layout_name) {
        (Some(i), Some(n)) => Some(LayoutV { id: i as int, name: n@ }),
        _ => None,
    }
}

/// Skipping a prefix without a matching device does not change which device
/// is found.
proof fn lemma_find_keyboard_after_prefix(devs: Seq<InputDevice>, id: Seq<char>, i: int)
    requires
        0 <= i <= devs.len(),
        forall|j: int| 0 <= j < i ==> !matches_device(devs[j], id),
    ensures
        find_keyboard(devs, id) == find_keyboard(devs.skip(i), id),
    decreases i,
{
    if i > 0 {
        assert(!matches_device(devs[0], id));
        assert forall|j: int| 0 <= j < i - 1 implies !matches_device(
            devs.drop_first()[j],
            id,
        ) by {
            assert(devs.drop_first()[j] == devs[j + 1]);
        }
        lemma_find_keyboard_after_prefix(devs.drop_first(), id, i - 1);
        assert(devs.drop_first().skip(i - 1) =~= devs.skip(i));
    } else {
        assert(devs.skip(0) =~= devs);
    }
}

/// The first keyboard-class device in the list whose identifier equals the
/// configured one, or `None` when no keyboard matches.
pub fn find_keyboard_device<'a>(devices: &'a Vec<InputDevice>, device: &String) -> (r: Option<
    &'a InputDevice,
>)
    ensures
        match r {
            Some(d) => find_keyboard(devices@, device@) == Some(*d),
            None => find_keyboard(devices@, device@) is None,
        },
{
    let kb: String = "keyboard".to_owned();
    let n = devices.len();
    let mut i: usize = 0;
    while i < n
        invariant
            i <= n,
            n == devices@.len(),
            kb@ == "keyboard"@,
            forall|j: int| 0 <= j < i ==> !matches_device(devices@[j], device@),
        decreases n - i,
    {
        let d = &devices[i];
        if d.input_type == kb && d.identifier == *device {
            proof {
                lemma_find_keyboard_after_prefix(devices@, device@, i as int);
                assert(devices@.skip(i as int)[0] == devices@[i as int]);
            }
            return Some(d);
        }
        i = i + 1;
    }
    proof {
        lemma_find_keyboard_after_prefix(devices@, device@, n as int);
        assert(devices@.skip(n as int) =~= Seq::<InputDevice>::empty());
    }
    None
}

/// The identifiers of all keyboard-class devices in the reported list, in
/// reported order. An empty result is valid: it means no keyboard was found.
pub fn keyboards_of(devices: &Vec<InputDevice>) -> (r: Vec<String>)
    ensures
        names_view(r@) == keyboard_ids(devices@),
{
    let kb: String = "keyboard".to_owned();
    let mut r: Vec<String> = Vec::new();
    let n = devices.len();
    let mut i: usize = 0;
    while i < n
        invariant
            i <= n,
            n == devices@.len(),
            kb@ == "keyboard"@,
            names_view(r@) == keyboard_ids(devices@.take(i as int)),
        decreases n - i,
    {
        let d = &devices[i];
        let found = d.input_type == kb;
        if found {
            r.push(d.identifier.clone());
        }
        proof {
            let cur = devices@.take(i + 1);
            assert(cur.drop_last() =~= devices@.take(i as int));
            assert(cur.last() == devices@[i as int]);
            assert(names_view(r@) =~= keyboard_ids(cur));
        }
        i = i + 1;
    }
    proof {
        assert(devices@.take(n as int) =~= devices@);
    }
    r
}

/// The configured layout list of the device matching the configured
/// identifier, as (position, name) pairs in configured order; empty when the
/// device is not found or has no layouts.
pub fn layouts_of(devices: &Vec<InputDevice>, device: &String) -> (r: Vec<Layout>)
    ensures
        layouts_view(r@) == match find_keyboard(devices@, device@) {
            Some(d) => enumerate_layouts(names_view(d.xkb_layout_names@)),
            None => Seq::<LayoutV>::empty(),
        },
{
    match find_keyboard_device(devices, device) {
        None => {
            let r: Vec<Layout> = Vec::new();
            proof {
                assert(layouts_view(r@) =~= Seq::<LayoutV>::empty());
            }
            r
        },
        Some(d) => {
            let mut r: Vec<Layout> = Vec::new();
            let n = d.xkb_layout_names.len();
            let mut i: usize = 0;
            while i < n
                invariant
                    i <= n,
                    n == d.xkb_layout_names@.len(),
                    r@.len() == i,
                    forall|j: int|
                        0 <= j < i ==> r@[j]@ == (LayoutV {
                            id: j,
                            name: d.xkb_layout_names@[j]@,
                        }),
                decreases n - i,
            {
                let name = &d.xkb_layout_names[i];
                r.push(Layout::from((i, name)));
                i = i + 1;
            }
            proof {
                assert(layouts_view(r@) =~= enumerate_layouts(names_view(d.xkb_layout_names@)));
            }
            r
        },
    }
}

/// The layout currently active on the device matching the configured
/// identifier: `DeviceNotFound` when no keyboard matches, a layout-detection
/// error when the matched device lacks active-layout metadata.
pub fn current_layout_of(devices: &Vec<InputDevice>, device: &String) -> (r: Result<Layout, Error>)
    ensures
        match find_keyboard(devices@, device@) {
            None => r matches Err(Error::DeviceNotFound),
            Some(d) => match detected_layout(d) {
                Some(l) => r is Ok && r->Ok_0@ == l,
                None => r matches Err(Error::Layout(le)) && le@ == (if d.xkb_active_layout_index
                    is None {
                    "layout index not found"@
                } else {
                    "layout name not found"@
                }),
            },
        },
{
    match find_keyboard_device(devices, device) {
        None => Err(Error::DeviceNotFound),
        Some(d) => match Layout::try_from(d) {
            Ok(l) => Ok(l),
            Err(e) => Err(Error::Layout(e)),
        },
    }
}

} // verus!
