//! The compositor's bookkeeping of client connections and surface layers,
//! and the geometry a layer is drawn with.
use vstd::prelude::*;
use crate::composer::{SurfaceComposerRequest, SurfaceComposerResponse};
use crate::text::{random_uuid_bytes, random_uuid_text, uuid_text};
use std::collections::HashMap;
use vstd::std_specs::hash::spec_keys_iter;
use vstd::std_specs::iter::IteratorSpec;

verus! {

broadcast use vstd::std_specs::hash::group_hash_axioms;

/// Widest source region copied from a layer texture in one draw.
pub const MAX_COPY_WIDTH: i32 = 2560;

/// Tallest source region copied from a layer texture in one draw.
pub const MAX_COPY_HEIGHT: i32 = 1600;

pub open spec fn max_i32(a: i32, b: i32) -> i32 {
    if a >= b { a } else { b }
}

pub open spec fn min_i32(a: i32, b: i32) -> i32 {
    if a <= b { a } else { b }
}

/// Where a layer's content sits on the display and how large its texture is.
#[derive(PartialEq, Eq, Structural, Debug, Clone, Copy)]
pub struct LayerGeometry {
    /// Content position and size.
    pub x: i32,
    pub y: i32,
    pub width: i32,
    pub height: i32,
    /// Size of the display surface the layer was created for.
    pub display_width: i32,
    pub display_height: i32,
    /// Size of the layer's texture: never smaller than the content or the display at creation.
    pub tex_width: i32,
    pub tex_height: i32,
}

/// The source box and destination corner of one texture copy onto the display.
#[derive(PartialEq, Eq, Structural, Debug, Clone, Copy)]
pub struct CopyRegion {
    pub dst_x: u32,
    pub dst_y: u32,
    pub left: u32,
    pub top: u32,
    pub front: u32,
    pub right: u32,
    pub bottom: u32,
    pub back: u32,
}

impl LayerGeometry {
    /// The geometry of a new layer: its texture covers both the content and the display.
    pub fn new(x: i32, y: i32, width: i32, height: i32, display_width: i32, display_height: i32) -> (g:
        LayerGeometry)
        ensures
            g == (LayerGeometry {
                x,
                y,
                width,
                height,
                display_width,
                display_height,
                tex_width: max_i32(width, display_width),
                tex_height: max_i32(height, display_height),
            }),
    {
        let tex_width = if width >= display_width {
            width
        } else {
            display_width
        };
        let tex_height = if height >= display_height {
            height
        } else {
            display_height
        };
        LayerGeometry { x, y, width, height, display_width, display_height, tex_width, tex_height }
    }

    /// Moves and resizes the content; the texture and display sizes stay.
    pub fn set_bounds(&mut self, x: i32, y: i32, width: i32, height: i32)
        ensures
            *final(self) == (LayerGeometry { x, y, width, height, ..*old(self) }),
    {
        self.x = x;
        self.y = y;
        self.width = width;
        self.height = height;
    }

    /// The copy that draws this layer: the top-left part of the texture, clipped
    /// to the largest panel size, placed at the content position (coordinates
    /// taken as unsigned, as the graphics API reads them).
    pub fn copy_region(&self) -> (r: CopyRegion)
        ensures
            r == (CopyRegion {
                dst_x: self.x as u32,
                dst_y: self.y as u32,
                left: 0,
                top: 0,
                front: 0,
                right: min_i32(MAX_COPY_WIDTH, self.width) as u32,
                bottom: min_i32(MAX_COPY_HEIGHT, self.height) as u32,
                back: 1,
            }),
    {
        let right = if MAX_COPY_WIDTH <= self.width {
            MAX_COPY_WIDTH
        } else {
            self.width
        };
        let bottom = if MAX_COPY_HEIGHT <= self.height {
            MAX_COPY_HEIGHT
        } else {
            self.height
        };
        CopyRegion {
            dst_x: self.x as u32,
            dst_y: self.y as u32,
            left: 0,
            top: 0,
            front: 0,
            right: right as u32,
            bottom: bottom as u32,
            back: 1,
        }
    }
}

/// The name under which a layer's texture is shared: "Surface-" followed by `id`.
pub fn surface_name(id: &str) -> (name: String)
    ensures
        name@ == "Surface-"@ + id@,
{
    let mut name = String::new();
    name.append("Surface-");
    name.append(id);
    name
}

/// The shared name of a new layer's texture: "Surface-" followed by the
/// random UUID built from `random_bytes`.
pub fn new_surface_name(random_bytes: [u8; 16]) -> (name: String)
    ensures
        name@ == "Surface-"@ + uuid_text(random_uuid_bytes(random_bytes@)),
{
    let id = random_uuid_text(random_bytes);
    surface_name(id.as_str())
}

/// A surface layer owned by one client process; `resources` are the
/// graphics objects that back it.
pub struct SurfaceLayer<R> {
    pub pid: u32,
    pub geometry: LayerGeometry,
    pub resources: R,
}

/// What to do with a message that arrived on the compositor's public channel.
pub enum ListenerAction {
    /// Open the private channel of process `pid` at `url`, greet it, then register it.
    Accept { pid: u32, url: String },
    /// Not a connection request: nothing to do.
    Ignore,
}

/// What to do with a request that arrived on a client's private channel.
pub enum ClientAction {
    /// Create the graphics objects of a layer with these bounds, then report it
    /// with `Compositor::layer_created`.
    CreateLayer { x: i32, y: i32, width: i32, height: i32 },
    /// Send this reply to the client.
    Reply(SurfaceComposerResponse),
    /// Nothing to do.
    Nothing,
}

/// The result of polling one client channel.
#[derive(PartialEq, Eq, Structural, Debug, Clone, Copy)]
pub enum PollOutcome {
    /// A message was received.
    Received,
    /// No message yet, and the client process still runs.
    PendingAlive,
    /// No message yet, and the client process has exited.
    PendingExited,
    /// The channel reported an error.
    Failed,
}

/// How the compositor treats a polled client channel.
#[derive(PartialEq, Eq, Structural, Debug, Clone, Copy)]
pub enum PollVerdict {
    /// Look at the next channel.
    Skip,
    /// Handle the received message.
    Deliver,
    /// Forget the client and its layers.
    Close,
}

/// A received message is handled, a channel with an exited client or an
/// error is closed, and a quiet channel of a running client is skipped.
pub open spec fn poll_verdict_spec(outcome: PollOutcome) -> PollVerdict {
    match outcome {
        PollOutcome::Received => PollVerdict::Deliver,
        PollOutcome::PendingAlive => PollVerdict::Skip,
        PollOutcome::PendingExited => PollVerdict::Close,
        PollOutcome::Failed => PollVerdict::Close,
    }
}

/// How the compositor treats a polled client channel.
pub fn poll_verdict(outcome: PollOutcome) -> (v: PollVerdict)
    ensures
        v == poll_verdict_spec(outcome),
{
    match outcome {
        PollOutcome::Received => PollVerdict::Deliver,
        PollOutcome::PendingAlive => PollVerdict::Skip,
        PollOutcome::PendingExited => PollVerdict::Close,
        PollOutcome::Failed => PollVerdict::Close,
    }
}

/// The client channel the compositor attends to in one round: the channels
/// are polled in turn and the first whose outcome is not skipped is taken
/// (its index in `polls`, each entry a process id and its poll outcome);
/// none when every channel is quiet with its client running.
pub fn first_event(polls: &Vec<(u32, PollOutcome)>) -> (r: Option<usize>)
    ensures
        match r {
            Some(i) => {
                &&& i < polls@.len()
                &&& poll_verdict_spec(polls@[i as int].1) != PollVerdict::Skip
                &&& forall|j: int| 0 <= j < i ==> poll_verdict_spec(#[trigger] polls@[j].1) == PollVerdict::Skip
            },
            None => forall|j: int|
                0 <= j < polls@.len() ==> poll_verdict_spec(#[trigger] polls@[j].1) == PollVerdict::Skip,
        },
{
    let mut i: usize = 0;
    while i < polls.len()
        invariant
            0 <= i <= polls@.len(),
            forall|j: int| 0 <= j < i ==> poll_verdict_spec(#[trigger] polls@[j].1) == PollVerdict::Skip,
        decreases polls@.len() - i,
    {
        let (_, outcome) = polls[i];
        match poll_verdict(outcome) {
            PollVerdict::Skip => {},
            _ => {
                return Some(i);
            },
        }
        i = i + 1;
    }
    None
}

/// Only a connection request on the public channel leads to work.
pub fn on_listener_request(req: SurfaceComposerRequest) -> (a: ListenerAction)
    ensures
        match req {
            SurfaceComposerRequest::NewConnection { pid, url } => a matches ListenerAction::Accept {
                pid: p,
                url: u,
            } && p == pid && u@ == url@,
            _ => a is Ignore,
        },
{
    match req {
        SurfaceComposerRequest::NewConnection { pid, url } => ListenerAction::Accept { pid, url },
        _ => ListenerAction::Ignore,
    }
}

/// The index of the first layer owned by `pid`, if any.
pub open spec fn first_layer_of<R>(layers: Seq<SurfaceLayer<R>>, pid: u32) -> Option<int> {
    if exists|i: int| 0 <= i < layers.len() && layers[i].pid == pid {
        Some(
            choose|i: int|
                0 <= i < layers.len() && layers[i].pid == pid && forall|j: int|
                    0 <= j < i ==> layers[j].pid != pid,
        )
    } else {
        None
    }
}

/// The layers that do not belong to `pid`, in their order.
pub open spec fn layers_without<R>(layers: Seq<SurfaceLayer<R>>, pid: u32) -> Seq<SurfaceLayer<R>> {
    layers.filter(|l: SurfaceLayer<R>| l.pid != pid)
}

/// Process id of the compositor's own test layer.
pub const TEST_LAYER_PID: u32 = 0;

/// Width of the test layer and of the display it is made for.
pub const TEST_LAYER_WIDTH: i32 = 2941;

/// Height of the test layer and of the display it is made for.
pub const TEST_LAYER_HEIGHT: i32 = 1600;

/// The geometry of the test layer: at the origin, 2941x1600 on a 2941x1600 display.
pub open spec fn test_layer_geometry_spec() -> LayerGeometry {
    LayerGeometry {
        x: 0,
        y: 0,
        width: TEST_LAYER_WIDTH,
        height: TEST_LAYER_HEIGHT,
        display_width: TEST_LAYER_WIDTH,
        display_height: TEST_LAYER_HEIGHT,
        tex_width: TEST_LAYER_WIDTH,
        tex_height: TEST_LAYER_HEIGHT,
    }
}

/// The geometry of the compositor's test layer.
pub fn test_layer_geometry() -> (g: LayerGeometry)
    ensures
        g == test_layer_geometry_spec(),
{
    LayerGeometry::new(0, 0, TEST_LAYER_WIDTH, TEST_LAYER_HEIGHT, TEST_LAYER_WIDTH, TEST_LAYER_HEIGHT)
}

/// The compositor's record of client channels, keyed by process id, and of
/// layers in creation order; `C` is a client's private channel and `R` the
/// graphics objects of a layer.
pub struct Compositor<R, C> {
    conns: HashMap<u32, C>,
    layers: Vec<SurfaceLayer<R>>,
}

impl<R, C> Compositor<R, C> {
    /// The private channel of each connected client process.
    pub closed spec fn conns(&self) -> Map<u32, C> {
        self.conns@
    }

    /// The layers, in creation (and drawing) order.
    pub closed spec fn layers(&self) -> Seq<SurfaceLayer<R>> {
        self.layers@
    }

    /// A compositor with no clients and no layers.
    pub fn new() -> (c: Compositor<R, C>)
        ensures
            c.conns() == Map::<u32, C>::empty(),
            c.layers() == Seq::<SurfaceLayer<R>>::empty(),
    {
        Compositor { conns: HashMap::new(), layers: Vec::new() }
    }

    /// A compositor with no clients whose only layer is its own test layer,
    /// backed by `resources`.
    pub fn with_test_layer(resources: R) -> (c: Compositor<R, C>)
        ensures
            c.conns() == Map::<u32, C>::empty(),
            c.layers() == seq![
                SurfaceLayer { pid: TEST_LAYER_PID, geometry: test_layer_geometry_spec(), resources },
            ],
    {
        let mut c = Compositor::new();
        let geometry = test_layer_geometry();
        c.add_layer(TEST_LAYER_PID, geometry, resources);
        proof {
            assert(c.layers@ =~= seq![
                SurfaceLayer { pid: TEST_LAYER_PID, geometry: test_layer_geometry_spec(), resources },
            ]);
        }
        c
    }

    /// The layers, for drawing.
    pub fn layer_list(&self) -> (l: &Vec<SurfaceLayer<R>>)
        ensures
            l@ == self.layers(),
    {
        &self.layers
    }

    /// The connected client processes, each once, in no particular order.
    pub fn connection_ids(&self) -> (v: Vec<u32>)
        ensures
            v@.to_set() == self.conns().dom(),
            v@.no_duplicates(),
    {
        let ghost all = spec_keys_iter(&self.conns).remaining().unref();
        let mut v: Vec<u32> = Vec::new();
        for k in it: self.conns.keys()
            invariant
                it.seq().unref() == all,
                v@ == all.take(it.index() as int),
        {
            v.push(*k);
        }
        proof {
            assert(v@ == all);
        }
        v
    }

    /// The private channel of `pid`, if it is connected.
    pub fn channel(&self, pid: u32) -> (c: Option<&C>)
        ensures
            match c {
                Some(ch) => self.conns().contains_key(pid) && *ch == self.conns()[pid],
                None => !self.conns().contains_key(pid),
            },
    {
        self.conns.get(&pid)
    }

    /// Whether `pid` has a private channel.
    pub fn is_connected(&self, pid: u32) -> (b: bool)
        ensures
            b == self.conns().contains_key(pid),
    {
        self.conns.contains_key(&pid)
    }

    /// Registers the private channel of `pid`; a process that reconnects gets
    /// its new channel in place of the old one.
    pub fn register_connection(&mut self, pid: u32, channel: C)
        ensures
            final(self).conns() == old(self).conns().insert(pid, channel),
            final(self).layers() == old(self).layers(),
    {
        self.conns.insert(pid, channel);
    }

    /// Adds a layer of `pid` on top of the others.
    pub fn add_layer(&mut self, pid: u32, geometry: LayerGeometry, resources: R)
        ensures
            final(self).conns() == old(self).conns(),
            final(self).layers() == old(self).layers().push(
                SurfaceLayer { pid, geometry, resources },
            ),
    {
        self.layers.push(SurfaceLayer { pid, geometry, resources });
    }

    /// Forgets a client: its channel and all of its layers go, everything else stays in order.
    pub fn drop_client(&mut self, pid: u32)
        ensures
            final(self).conns() == old(self).conns().remove(pid),
            final(self).layers() == layers_without(old(self).layers(), pid),
    {
        let ghost orig_layers = self.layers@;
        let mut rest: Vec<SurfaceLayer<R>> = Vec::new();
        std::mem::swap(&mut rest, &mut self.layers);
        let ghost pred = |l: SurfaceLayer<R>| l.pid != pid;
        let ghost mut done: Seq<SurfaceLayer<R>> = Seq::empty();
        while rest.len() > 0
            invariant
                done + rest@ == orig_layers,
                self.layers@ == done.filter(pred),
                self.conns@ == old(self).conns@,
                pred == (|l: SurfaceLayer<R>| l.pid != pid),
            decreases rest@.len(),
        {
            let l = rest.remove(0);
            proof {
                reveal(Seq::filter);
                assert(done.push(l).drop_last() == done);
                assert(done.push(l) + rest@ == orig_layers);
                done = done.push(l);
            }
            if l.pid != pid {
                self.layers.push(l);
            }
        }
        proof {
            assert(done == orig_layers);
        }
        self.conns.remove(&pid);
    }

    /// Moves the first layer of `pid`, if it has one; reports whether one moved.
    pub fn move_layer(&mut self, pid: u32, x: i32, y: i32, width: i32, height: i32) -> (moved: bool)
        ensures
            final(self).conns() == old(self).conns(),
            moved == (first_layer_of(old(self).layers(), pid) is Some),
            match first_layer_of(old(self).layers(), pid) {
                Some(i) => final(self).layers() == old(self).layers().update(
                    i,
                    SurfaceLayer {
                        geometry: LayerGeometry { x, y, width, height, ..old(self).layers()[i].geometry },
                        ..old(self).layers()[i]
                    },
                ),
                None => final(self).layers() == old(self).layers(),
            },
    {
        let mut i: usize = 0;
        while i < self.layers.len()
            invariant
                0 <= i <= self.layers@.len(),
                self.layers@ == old(self).layers@,
                self.conns@ == old(self).conns@,
                forall|j: int| 0 <= j < i ==> self.layers@[j].pid != pid,
            decreases self.layers@.len() - i,
        {
            if self.layers[i].pid == pid {
                let mut layer = self.layers.remove(i);
                layer.geometry.set_bounds(x, y, width, height);
                self.layers.insert(i, layer);
                proof {
                    let s = old(self).layers@;
                    assert(first_layer_of(s, pid) == Some(i as int)) by {
                        let k = choose|k: int|
                            0 <= k < s.len() && s[k].pid == pid && forall|j: int|
                                0 <= j < k ==> s[j].pid != pid;
                        assert(0 <= k < s.len() && s[k].pid == pid);
                        if k < i {
                            assert(s[k].pid != pid);
                        } else if k > i {
                            assert(s[i as int].pid == pid);
                        }
                    }
                    assert(self.layers@ =~= s.update(
                        i as int,
                        SurfaceLayer {
                            geometry: LayerGeometry { x, y, width, height, ..s[i as int].geometry },
                            ..s[i as int]
                        },
                    ));
                }
                return true;
            }
            i = i + 1;
        }
        false
    }

    /// Handles a request from the private channel of `pid`: a creation asks for
    /// a new layer, a move repositions the client's first layer and is
    /// acknowledged, and a greeting on a private channel is ignored.
    pub fn on_client_request(&mut self, pid: u32, req: SurfaceComposerRequest) -> (a: ClientAction)
        ensures
            final(self).conns() == old(self).conns(),
            match req {
                SurfaceComposerRequest::CreateSurfaceRequest { x, y, width, height } => {
                    &&& a == (ClientAction::CreateLayer { x, y, width, height })
                    &&& final(self).layers() == old(self).layers()
                },
                SurfaceComposerRequest::MoveSurfaceRequest { x, y, width, height } => {
                    &&& a == ClientAction::Reply(SurfaceComposerResponse::MoveSurfaceResponse)
                    &&& match first_layer_of(old(self).layers(), pid) {
                        Some(i) => final(self).layers() == old(self).layers().update(
                            i,
                            SurfaceLayer {
                                geometry: LayerGeometry {
                                    x,
                                    y,
                                    width,
                                    height,
                                    ..old(self).layers()[i].geometry
                                },
                                ..old(self).layers()[i]
                            },
                        ),
                        None => final(self).layers() == old(self).layers(),
                    }
                },
                SurfaceComposerRequest::NewConnection { .. } => {
                    &&& a is Nothing
                    &&& final(self).layers() == old(self).layers()
                },
            },
    {
        match req {
            SurfaceComposerRequest::CreateSurfaceRequest { x, y, width, height } => {
                ClientAction::CreateLayer { x, y, width, height }
            },
            SurfaceComposerRequest::MoveSurfaceRequest { x, y, width, height } => {
                self.move_layer(pid, x, y, width, height);
                ClientAction::Reply(SurfaceComposerResponse::MoveSurfaceResponse)
            },
            SurfaceComposerRequest::NewConnection { .. } => ClientAction::Nothing,
        }
    }

    /// Records the layer created for `pid` and gives the reply that names its texture.
    pub fn layer_created(
        &mut self,
        pid: u32,
        geometry: LayerGeometry,
        resources: R,
        texture_name: String,
    ) -> (rep: SurfaceComposerResponse)
        ensures
            final(self).conns() == old(self).conns(),
            final(self).layers() == old(self).layers().push(
                SurfaceLayer { pid, geometry, resources },
            ),
            rep matches SurfaceComposerResponse::CreateSurfaceResponse { texture_name: t }
                && t@ == texture_name@,
    {
        self.add_layer(pid, geometry, resources);
        SurfaceComposerResponse::CreateSurfaceResponse { texture_name }
    }
}

/// A new layer's texture is at least as large as its content and its display.
pub proof fn law_texture_covers_content(
    x: i32,
    y: i32,
    width: i32,
    height: i32,
    display_width: i32,
    display_height: i32,
)
    ensures
        max_i32(width, display_width) >= width,
        max_i32(width, display_width) >= display_width,
        max_i32(height, display_height) >= height,
        max_i32(height, display_height) >= display_height,
{
}

/// After a client is forgotten, none of its layers and not its channel
/// remain, while every layer and channel of the other clients stays.
pub proof fn law_forgotten_client_leaves_nothing<R, C>(
    layers: Seq<SurfaceLayer<R>>,
    conns: Map<u32, C>,
    pid: u32,
)
    ensures
        forall|i: int|
            0 <= i < layers_without(layers, pid).len() ==> layers_without(layers, pid)[i].pid
                != pid,
        forall|i: int|
            0 <= i < layers.len() && layers[i].pid != pid ==> layers_without(layers, pid).contains(
                layers[i],
            ),
        !conns.remove(pid).contains_key(pid),
        forall|q: u32|
            q != pid && conns.contains_key(q) ==> conns.remove(pid).contains_key(q) && conns.remove(
                pid,
            )[q] == conns[q],
{
    let lp = |l: SurfaceLayer<R>| l.pid != pid;
    assert forall|i: int|
        0 <= i < layers_without(layers, pid).len() implies layers_without(layers, pid)[i].pid
        != pid by {
        layers.lemma_filter_pred(lp, i);
    }
    assert forall|i: int|
        0 <= i < layers.len() && layers[i].pid != pid implies layers_without(layers, pid).contains(
        layers[i],
    ) by {
        layers.lemma_filter_contains(lp, i);
    }
}

/// Moving a client's surface keeps the number of layers and who owns each
/// of them, and touches at most one layer.
pub proof fn law_move_keeps_owners<R>(
    layers: Seq<SurfaceLayer<R>>,
    pid: u32,
    x: i32,
    y: i32,
    width: i32,
    height: i32,
)
    ensures
        match first_layer_of(layers, pid) {
            Some(i) => {
                let moved = layers.update(
                    i,
                    SurfaceLayer {
                        geometry: LayerGeometry { x, y, width, height, ..layers[i].geometry },
                        ..layers[i]
                    },
                );
                &&& 0 <= i < layers.len()
                &&& layers[i].pid == pid
                &&& moved.len() == layers.len()
                &&& forall|j: int| 0 <= j < layers.len() ==> moved[j].pid == layers[j].pid
                &&& forall|j: int| 0 <= j < layers.len() && j != i ==> moved[j] == layers[j]
                &&& forall|j: int| 0 <= j < i ==> layers[j].pid != pid
            },
            None => forall|j: int| 0 <= j < layers.len() ==> layers[j].pid != pid,
        },
{
    if exists|i: int| 0 <= i < layers.len() && layers[i].pid == pid {
        let w = choose|i: int| 0 <= i < layers.len() && layers[i].pid == pid;
        lemma_first_layer_exists(layers, pid, w);
    }
}

/// The layer that `first_layer_of` picks is in range, belongs to `pid`, and
/// no earlier layer does; where it picks none, no layer belongs to `pid`.
pub proof fn lemma_first_layer_of<R>(layers: Seq<SurfaceLayer<R>>, pid: u32)
    ensures
        match first_layer_of(layers, pid) {
            Some(i) => {
                &&& 0 <= i < layers.len()
                &&& layers[i].pid == pid
                &&& forall|j: int| 0 <= j < i ==> layers[j].pid != pid
            },
            None => forall|j: int| 0 <= j < layers.len() ==> layers[j].pid != pid,
        },
{
    if exists|i: int| 0 <= i < layers.len() && layers[i].pid == pid {
        let w = choose|i: int| 0 <= i < layers.len() && layers[i].pid == pid;
        lemma_first_layer_exists(layers, pid, w);
    }
}

/// Among the layers of a client there is a first one.
proof fn lemma_first_layer_exists<R>(layers: Seq<SurfaceLayer<R>>, pid: u32, w: int)
    requires
        0 <= w < layers.len(),
        layers[w].pid == pid,
    ensures
        exists|i: int|
            0 <= i < layers.len() && layers[i].pid == pid && forall|j: int|
                0 <= j < i ==> layers[j].pid != pid,
    decreases w,
{
    if exists|j: int| 0 <= j < w && layers[j].pid == pid {
        let j = choose|j: int| 0 <= j < w && layers[j].pid == pid;
        lemma_first_layer_exists(layers, pid, j);
    } else {
        assert(forall|j: int| 0 <= j < w ==> layers[j].pid != pid);
    }
}

} // verus!
