//! The outputs (monitors) the renderer tracks: what the compositor's events
//! do to them, which one a monitor setting selects, and where and how large
//! the overlay's layer surface is.

use vstd::prelude::*;
use vstd::string::*;

use crate::config::opt_view;
use crate::overlay::OverlayConfig;
use crate::renderer::{position_to_anchor_bits, spec_anchor_bits};
use crate::text::{decimal, push_decimal, str_equals};

verus! {

/// What the renderer knows of one output (monitor).
#[derive(Debug, Clone)]
pub struct OutputInfo {
    pub name: String,
    pub scale: i32,
    pub width: i32,
    pub height: i32,
    pub proxy_id: u32,
    pub global_id: u32,
}

/// An event the compositor sends about an output.
#[derive(Debug, Clone)]
pub enum OutputEvent {
    /// Geometry, with the output's make (empty when unknown).
    Geometry { make: String },
    /// The output's scale factor.
    Scale { factor: i32 },
    /// A video mode; `flags` is `None` when the flags were not understood.
    Mode { width: i32, height: i32, flags: Option<u32> },
}

/// Mode flag marking the output's current mode.
pub const MODE_CURRENT: u32 = 1;

/// The outputs the renderer tracks, each with its protocol object.
pub struct OutputRegistry<P> {
    infos: Vec<OutputInfo>,
    proxies: Vec<P>,
    needs_surface_commit: bool,
}

/// The output registry seen as plain data.
pub struct OutputsModel<P> {
    pub infos: Seq<OutputInfo>,
    pub proxies: Seq<P>,
    pub needs_surface_commit: bool,
}

impl<P> OutputsModel<P> {
    /// Every output has exactly one protocol object, at the same index.
    pub open spec fn wf(self) -> bool {
        self.infos.len() == self.proxies.len()
    }
}

/// `i` is the first index whose output satisfies `pred`.
pub open spec fn first_at(infos: Seq<OutputInfo>, pred: spec_fn(OutputInfo) -> bool, i: int) -> bool {
    &&& 0 <= i < infos.len()
    &&& pred(infos[i])
    &&& forall|j: int| 0 <= j < i ==> !pred(#[trigger] infos[j])
}

/// The first index whose output satisfies `pred`, if any.
pub open spec fn first_match(infos: Seq<OutputInfo>, pred: spec_fn(OutputInfo) -> bool) -> Option<
    int,
> {
    if exists|i: int| first_at(infos, pred, i) {
        Some(choose|i: int| first_at(infos, pred, i))
    } else {
        None
    }
}

/// There is one first index at most.
pub proof fn lemma_first_at_unique(
    infos: Seq<OutputInfo>,
    pred: spec_fn(OutputInfo) -> bool,
    i: int,
    k: int,
)
    requires
        first_at(infos, pred, i),
        first_at(infos, pred, k),
    ensures
        i == k,
{
    if i < k {
        assert(!pred(infos[i]));
    }
    if k < i {
        assert(!pred(infos[k]));
    }
}

/// The output is named `name`.
pub open spec fn named(name: Seq<char>) -> spec_fn(OutputInfo) -> bool {
    |o: OutputInfo| o.name@ == name
}

/// The output's protocol object has id `proxy_id`.
pub open spec fn with_proxy_id(proxy_id: u32) -> spec_fn(OutputInfo) -> bool {
    |o: OutputInfo| o.proxy_id == proxy_id
}

/// The output was announced as global `global_id`.
pub open spec fn with_global_id(global_id: u32) -> spec_fn(OutputInfo) -> bool {
    |o: OutputInfo| o.global_id == global_id
}

/// The view of an optional string slice.
pub open spec fn str_view(m: Option<&str>) -> Option<Seq<char>> {
    match m {
        Some(s) => Some(s@),
        None => None,
    }
}

/// An optional index as an integer.
pub open spec fn as_index(r: Option<usize>) -> Option<int> {
    match r {
        Some(i) => Some(i as int),
        None => None,
    }
}

/// The output a monitor setting selects: the first output with that name,
/// or the first output when no monitor is set.
pub open spec fn spec_find_output(infos: Seq<OutputInfo>, monitor: Option<Seq<char>>) -> Option<
    int,
> {
    match monitor {
        Some(name) => first_match(infos, named(name)),
        None => if infos.len() > 0 {
            Some(0)
        } else {
            None
        },
    }
}

/// The name an output takes from its geometry: its make, or a synthetic
/// `output-<proxy id>` when the make is empty.
pub open spec fn geometry_name(make: Seq<char>, proxy_id: u32) -> Seq<char> {
    if make.len() == 0 {
        "output-"@ + decimal(proxy_id as nat)
    } else {
        make
    }
}

/// `after` is `before` updated by `event`.
pub open spec fn output_updated(before: OutputInfo, event: OutputEvent, after: OutputInfo) -> bool {
    &&& after.proxy_id == before.proxy_id
    &&& after.global_id == before.global_id
    &&& match event {
        OutputEvent::Geometry { make } => {
            &&& after.name@ == geometry_name(make@, before.proxy_id)
            &&& after.scale == before.scale
            &&& after.width == before.width
            &&& after.height == before.height
        },
        OutputEvent::Scale { factor } => {
            &&& after.name == before.name
            &&& after.scale == factor
            &&& after.width == before.width
            &&& after.height == before.height
        },
        OutputEvent::Mode { width, height, flags } => {
            &&& after.name == before.name
            &&& after.scale == before.scale
            &&& if flags matches Some(f) && f & MODE_CURRENT != 0 {
                after.width == width && after.height == height
            } else {
                after.width == before.width && after.height == before.height
            }
        },
    }
}

/// Width of the overlay surface at scale 1, in pixels.
pub const BASE_WIDTH: i32 = 400;

/// Height of the overlay surface at scale 1, in pixels.
pub const BASE_HEIGHT: i32 = 120;

/// The surface of a scale fits the 32-bit sizes of the protocol.
pub open spec fn scale_fits(scale: i32) -> bool {
    i32::MIN <= BASE_WIDTH * scale <= i32::MAX
}

/// The scale of the output a monitor setting selects, 1 when none is selected.
pub open spec fn spec_plan_scale(infos: Seq<OutputInfo>, monitor: Option<Seq<char>>) -> i32 {
    match spec_find_output(infos, monitor) {
        Some(i) => infos[i].scale,
        None => 1,
    }
}

/// Exclusive zone of the overlay: it reserves no space and is not moved by
/// the space other surfaces reserve.
pub const EXCLUSIVE_ZONE: i32 = -1;

/// Where and how large the overlay's layer surface is, and how it takes input.
#[derive(Debug, Clone, Copy, PartialEq, Eq, Structural)]
pub struct SurfacePlan {
    /// Index of the output the surface goes to; `None` lets the compositor choose.
    pub output: Option<usize>,
    pub scale: i32,
    pub anchor: u32,
    pub width: i32,
    pub height: i32,
    pub exclusive_zone: i32,
    /// The surface asks for keyboard focus.
    pub keyboard_interactive: bool,
    /// The surface's input region is empty: pointer input goes through it.
    pub input_region_empty: bool,
}

impl SurfacePlan {
    /// The size requested from the layer shell (the pixel size, as unsigned).
    pub fn layer_size(&self) -> (r: (u32, u32))
        ensures
            r == (self.width as u32, self.height as u32),
    {
        (#[verifier::truncate] (self.width as u32), #[verifier::truncate] (self.height as u32))
    }
}

/// The output just bound: no name yet, scale 1, no mode.
pub open spec fn fresh_output(info: OutputInfo, proxy_id: u32, global_id: u32) -> bool {
    &&& info.name@ == Seq::<char>::empty()
    &&& info.scale == 1
    &&& info.width == 0
    &&& info.height == 0
    &&& info.proxy_id == proxy_id
    &&& info.global_id == global_id
}

impl<P> View for OutputRegistry<P> {
    type V = OutputsModel<P>;

    closed spec fn view(&self) -> OutputsModel<P> {
        OutputsModel {
            infos: self.infos@,
            proxies: self.proxies@,
            needs_surface_commit: self.needs_surface_commit,
        }
    }
}

impl<P> OutputRegistry<P> {
    /// No outputs, no pending commit.
    pub fn new() -> (r: OutputRegistry<P>)
        ensures
            r@.infos.len() == 0,
            r@.proxies.len() == 0,
            !r@.needs_surface_commit,
            r@.wf(),
    {
        OutputRegistry { infos: Vec::new(), proxies: Vec::new(), needs_surface_commit: false }
    }

    /// The outputs, in the order they were bound.
    pub fn outputs(&self) -> (r: &Vec<OutputInfo>)
        ensures
            r@ == self@.infos,
    {
        &self.infos
    }

    /// Records a newly bound output and its protocol object.
    pub fn add_output(&mut self, proxy: P, proxy_id: u32, global_id: u32)
        requires
            old(self)@.wf(),
        ensures
            final(self)@.wf(),
            final(self)@.infos.len() == old(self)@.infos.len() + 1,
            final(self)@.infos.drop_last() == old(self)@.infos,
            fresh_output(final(self)@.infos.last(), proxy_id, global_id),
            final(self)@.proxies == old(self)@.proxies.push(proxy),
            final(self)@.needs_surface_commit == old(self)@.needs_surface_commit,
    {
        let info = OutputInfo {
            name: String::new(),
            scale: 1,
            width: 0,
            height: 0,
            proxy_id,
            global_id,
        };
        self.infos.push(info);
        self.proxies.push(proxy);
        assert(self@.infos.drop_last() =~= old(self)@.infos);
    }

    /// The index of the output a monitor setting selects: the first output
    /// named `monitor`, or the first output when `monitor` is `None`.
    pub fn find_output(&self, monitor: Option<&str>) -> (r: Option<usize>)
        ensures
            as_index(r) == spec_find_output(self@.infos, str_view(monitor)),
    {
        match monitor {
            Some(name) => {
                let mut i: usize = 0;
                while i < self.infos.len()
                    invariant
                        i <= self@.infos.len(),
                        monitor == Some(name),
                        forall|j: int| 0 <= j < i ==> !named(name@)(#[trigger] self@.infos[j]),
                    decreases self@.infos.len() - i,
                {
                    if str_equals(self.infos[i].name.as_str(), name) {
                        assert(first_at(self@.infos, named(name@), i as int));
                        proof {
                            let k = choose|k: int| first_at(self@.infos, named(name@), k);
                            lemma_first_at_unique(self@.infos, named(name@), i as int, k);
                        }
                        return Some(i);
                    }
                    i = i + 1;
                }
                assert(!exists|k: int| first_at(self@.infos, named(name@), k));
                None
            },
            None => {
                if self.infos.len() > 0 {
                    Some(0)
                } else {
                    None
                }
            },
        }
    }

    /// The index of the output whose protocol object has id `proxy_id`.
    pub fn find_output_index_by_proxy_id(&self, proxy_id: u32) -> (r: Option<usize>)
        ensures
            as_index(r) == first_match(self@.infos, with_proxy_id(proxy_id)),
    {
        let mut i: usize = 0;
        while i < self.infos.len()
            invariant
                i <= self@.infos.len(),
                forall|j: int| 0 <= j < i ==> !with_proxy_id(proxy_id)(#[trigger] self@.infos[j]),
            decreases self@.infos.len() - i,
        {
            if self.infos[i].proxy_id == proxy_id {
                proof {
                    assert(first_at(self@.infos, with_proxy_id(proxy_id), i as int));
                    let k = choose|k: int| first_at(self@.infos, with_proxy_id(proxy_id), k);
                    lemma_first_at_unique(self@.infos, with_proxy_id(proxy_id), i as int, k);
                }
                return Some(i);
            }
            i = i + 1;
        }
        assert(!exists|k: int| first_at(self@.infos, with_proxy_id(proxy_id), k));
        None
    }

    /// The protocol object of the output a monitor setting selects.
    pub fn find_output_proxy(&self, monitor: Option<&str>) -> (r: Option<&P>)
        requires
            self@.wf(),
        ensures
            match spec_find_output(self@.infos, str_view(monitor)) {
                Some(i) => r == Some(&self@.proxies[i]),
                None => r is None,
            },
    {
        match self.find_output(monitor) {
            Some(i) => Some(&self.proxies[i]),
            None => None,
        }
    }

    /// Forgets the first output announced as global `global_id`, with its
    /// protocol object; returns the index it had.
    pub fn remove_global(&mut self, global_id: u32) -> (r: Option<usize>)
        requires
            old(self)@.wf(),
        ensures
            final(self)@.wf(),
            final(self)@.needs_surface_commit == old(self)@.needs_surface_commit,
            as_index(r) == first_match(old(self)@.infos, with_global_id(global_id)),
            match r {
                Some(i) => {
                    &&& final(self)@.infos == old(self)@.infos.remove(i as int)
                    &&& final(self)@.proxies == old(self)@.proxies.remove(i as int)
                },
                None => final(self)@.infos == old(self)@.infos && final(self)@.proxies == old(
                    self,
                )@.proxies,
            },
    {
        let mut i: usize = 0;
        while i < self.infos.len()
            invariant
                i <= self@.infos.len(),
                self@ == old(self)@,
                old(self)@.wf(),
                forall|j: int|
                    0 <= j < i ==> !with_global_id(global_id)(#[trigger] self@.infos[j]),
            decreases self@.infos.len() - i,
        {
            if self.infos[i].global_id == global_id {
                proof {
                    assert(first_at(self@.infos, with_global_id(global_id), i as int));
                    let k = choose|k: int| first_at(self@.infos, with_global_id(global_id), k);
                    lemma_first_at_unique(self@.infos, with_global_id(global_id), i as int, k);
                }
                self.infos.remove(i);
                self.proxies.remove(i);
                return Some(i);
            }
            i = i + 1;
        }
        assert(!exists|k: int| first_at(self@.infos, with_global_id(global_id), k));
        None
    }

    /// Applies an event the compositor sent about the output whose protocol
    /// object has id `proxy_id`; events about unknown outputs are ignored.
    pub fn apply_output_event(&mut self, proxy_id: u32, event: OutputEvent)
        requires
            old(self)@.wf(),
        ensures
            final(self)@.wf(),
            final(self)@.proxies == old(self)@.proxies,
            final(self)@.needs_surface_commit == old(self)@.needs_surface_commit,
            final(self)@.infos.len() == old(self)@.infos.len(),
            match first_match(old(self)@.infos, with_proxy_id(proxy_id)) {
                Some(i) => {
                    &&& output_updated(old(self)@.infos[i], event, final(self)@.infos[i])
                    &&& forall|j: int|
                        0 <= j < old(self)@.infos.len() && j != i ==> final(self)@.infos[j] == old(
                            self,
                        )@.infos[j]
                },
                None => final(self)@.infos == old(self)@.infos,
            },
    {
        let idx = match self.find_output_index_by_proxy_id(proxy_id) {
            Some(i) => i,
            None => {
                return;
            },
        };
        let mut info = self.infos.remove(idx);
        match event {
            OutputEvent::Geometry { make } => {
                if make.as_str().is_empty() {
                    let mut name = String::from_str("output-");
                    push_decimal(&mut name, info.proxy_id);
                    info.name = name;
                } else {
                    info.name = make;
                }
            },
            OutputEvent::Scale { factor } => {
                info.scale = factor;
            },
            OutputEvent::Mode { width, height, flags } => {
                match flags {
                    Some(f) => {
                        if f & MODE_CURRENT != 0 {
                            info.width = width;
                            info.height = height;
                        }
                    },
                    None => {},
                }
            },
        }
        self.infos.insert(idx, info);
        assert forall|j: int| 0 <= j < old(self)@.infos.len() && j != idx implies self@.infos[j]
            == old(self)@.infos[j] by {
            if j < idx {
            } else {
            }
        }
    }

    /// Where and how large the layer surface for `config` is: on the output
    /// the monitor setting selects, at that output's scale (1 when none is
    /// selected), anchored by the position, base size times the scale. The
    /// overlay is click-through: it takes no keyboard focus, its input region
    /// is empty, and it reserves no screen space.
    pub fn plan_surface(&self, config: &OverlayConfig) -> (r: SurfacePlan)
        requires
            self@.wf(),
            scale_fits(spec_plan_scale(self@.infos, opt_view(config.monitor))),
        ensures
            as_index(r.output) == spec_find_output(self@.infos, opt_view(config.monitor)),
            r.scale == spec_plan_scale(self@.infos, opt_view(config.monitor)),
            r.anchor == spec_anchor_bits(config.position),
            r.width == BASE_WIDTH * r.scale,
            r.height == BASE_HEIGHT * r.scale,
            r.output matches Some(i) ==> i < self@.infos.len() && r.scale == self@.infos[i as int].scale,
            r.output is None ==> r.scale == 1,
            r.exclusive_zone == EXCLUSIVE_ZONE,
            !r.keyboard_interactive,
            r.input_region_empty,
    {
        let monitor: Option<&str> = match &config.monitor {
            Some(m) => Some(m.as_str()),
            None => None,
        };
        let (output, scale) = match self.find_output(monitor) {
            Some(i) => (Some(i), self.infos[i].scale),
            None => (None, 1),
        };
        SurfacePlan {
            output,
            scale,
            anchor: position_to_anchor_bits(config.position),
            width: BASE_WIDTH * scale,
            height: BASE_HEIGHT * scale,
            exclusive_zone: EXCLUSIVE_ZONE,
            keyboard_interactive: false,
            input_region_empty: true,
        }
    }

    /// Notes that the layer surface was configured and must be committed.
    pub fn request_surface_commit(&mut self)
        requires
            old(self)@.wf(),
        ensures
            final(self)@ == (OutputsModel { needs_surface_commit: true, ..old(self)@ }),
            final(self)@.wf(),
    {
        self.needs_surface_commit = true;
    }

    /// Whether a commit is pending; clears the request.
    pub fn take_surface_commit(&mut self) -> (r: bool)
        requires
            old(self)@.wf(),
        ensures
            r == old(self)@.needs_surface_commit,
            final(self)@ == (OutputsModel { needs_surface_commit: false, ..old(self)@ }),
            final(self)@.wf(),
    {
        let r = self.needs_surface_commit;
        self.needs_surface_commit = false;
        r
    }
}

/// The surface goes on the output a monitor setting selects, and always at
/// that output's own scale, whether the monitor was named or left to the
/// default (the first output); with no output selected the scale is 1.
pub proof fn lemma_plan_uses_selected_output_scale(
    infos: Seq<OutputInfo>,
    monitor: Option<Seq<char>>,
)
    ensures
        spec_find_output(infos, monitor) matches Some(i) ==> 0 <= i < infos.len()
            && spec_plan_scale(infos, monitor) == infos[i].scale,
        spec_find_output(infos, monitor) is None ==> spec_plan_scale(infos, monitor) == 1,
        monitor is None && infos.len() > 0 ==> spec_find_output(infos, monitor) == Some(0int)
            && spec_plan_scale(infos, monitor) == infos[0].scale,
        monitor is None && infos.len() == 0 ==> spec_find_output(infos, monitor) is None,
        monitor matches Some(name) ==> (spec_find_output(infos, monitor) matches Some(i) ==> infos[i].name@ == name),
{
    match monitor {
        Some(name) => {
            if exists|i: int| first_at(infos, named(name), i) {
                let i = choose|i: int| first_at(infos, named(name), i);
                assert(first_at(infos, named(name), i));
            }
        },
        None => {},
    }
}

} // verus!
