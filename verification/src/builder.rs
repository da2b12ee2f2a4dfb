//! Construction of the fixed-topology processing graph: a backend
//! capability record, a general graph builder whose every operation keeps
//! the graph well formed, and `build`, which assembles the capture graph in
//! the prescribed order and returns it fully linked or not at all.

use vstd::prelude::*;
use crate::graph::Graph;
use crate::graph::Link;
use crate::graph::MediaFormat;
use crate::graph::Node;
use crate::graph::PixelFormat;
use crate::graph::input_format;
use crate::graph::link_ok;
use crate::graph::output_format;
use crate::target::CaptureTargetDescriptor;

verus! {

/// Cadence cap of the rate-limiter stage, in units per second.
pub const TARGET_RATE: u64 = 20;

/// Side, in pixels, of the square frames handed to the frame-delivery sink.
pub const FRAME_SINK_SIDE: u64 = 192;

/// Restricted width of the encoded video track.
pub const ENCODE_WIDTH: u64 = 640;

/// Restricted height of the encoded video track.
pub const ENCODE_HEIGHT: u64 = 480;

/// Fixed capacity of each branch's bounded buffer, in units of media data.
pub const BRANCH_BUFFER_CAPACITY: u64 = 200;

/// What the media backend can supply: one flag per stage kind, and how
/// many output ports a fan-out stage can grant.
#[derive(Debug, Clone, Copy, PartialEq, Eq, Structural)]
pub struct BackendCaps {
    pub capture: bool,
    pub rate_limit: bool,
    pub fan_out: bool,
    pub bounded_buffer: bool,
    pub convert: bool,
    pub scale: bool,
    pub encode: bool,
    pub mux: bool,
    pub file_sink: bool,
    pub frame_sink: bool,
    pub fan_out_ports: usize,
}

/// Why a build aborted. A single failure releases every partially
/// constructed stage: no partial graph is ever returned.
#[derive(Debug, Clone, Copy, PartialEq, Eq, Structural)]
pub enum ConstructionError {
    /// The backend cannot supply a stage of the requested kind.
    NodeCreation,
    /// A link was rejected: missing endpoint, incompatible formats, an
    /// input port already fed, or an ordinary output port already used.
    LinkFailed,
    /// The fan-out stage could not grant one more output port.
    PortExhaustion,
}

impl BackendCaps {
    /// The backend can create a stage like `n`.
    pub open spec fn spec_supports(self, n: Node) -> bool {
        match n {
            Node::Capture { .. } => self.capture,
            Node::RateLimit { .. } => self.rate_limit,
            Node::FanOut => self.fan_out,
            Node::BoundedBuffer { .. } => self.bounded_buffer,
            Node::Convert => self.convert,
            Node::Scale => self.scale,
            Node::Encode { .. } => self.encode,
            Node::Mux { .. } => self.mux,
            Node::FileSink { .. } => self.file_sink,
            Node::FrameSink { .. } => self.frame_sink,
        }
    }

    /// Runtime test of `spec_supports`.
    pub fn supports(&self, n: &Node) -> (r: bool)
        ensures
            r == self.spec_supports(*n),
    {
        match n {
            Node::Capture { .. } => self.capture,
            Node::RateLimit { .. } => self.rate_limit,
            Node::FanOut => self.fan_out,
            Node::BoundedBuffer { .. } => self.bounded_buffer,
            Node::Convert => self.convert,
            Node::Scale => self.scale,
            Node::Encode { .. } => self.encode,
            Node::Mux { .. } => self.mux,
            Node::FileSink { .. } => self.file_sink,
            Node::FrameSink { .. } => self.frame_sink,
        }
    }

    /// Every stage kind the capture graph needs.
    pub open spec fn supports_all_required(self) -> bool {
        &&& self.capture
        &&& self.rate_limit
        &&& self.fan_out
        &&& self.bounded_buffer
        &&& self.convert
        &&& self.scale
        &&& self.encode
        &&& self.mux
        &&& self.file_sink
        &&& self.frame_sink
    }
}

/// Assembles a graph stage by stage and link by link, keeping it well
/// formed at every step. Stages must be added upstream first: a link may
/// only lead from an earlier-created stage to a later one, which keeps
/// creation order a topological order and the graph acyclic by
/// construction.
#[derive(Debug)]
pub struct GraphBuilder {
    pub caps: BackendCaps,
    pub nodes: Vec<Node>,
    pub links: Vec<Link>,
    pub next_port: Vec<usize>,
}

impl GraphBuilder {
    /// The graph assembled so far.
    pub open spec fn as_graph(self) -> Graph {
        Graph { nodes: self.nodes, links: self.links }
    }

    /// Node `to` already has a link feeding it.
    pub open spec fn input_taken(self, to: usize) -> bool {
        exists|k: int| 0 <= k < self.links@.len() && (#[trigger] self.links@[k]).to == to
    }

    /// The builder invariant: the partial graph is well formed,
    /// `next_port` has one entry per node, and every granted output port
    /// lies below its node's next free port, so a freshly granted port is
    /// new.
    pub open spec fn wf(self) -> bool {
        &&& self.as_graph().wf()
        &&& self.next_port@.len() == self.nodes@.len()
        &&& forall|k: int|
            0 <= k < self.links@.len() ==> (#[trigger] self.links@[k]).from_port
                < self.next_port@[self.links@[k].from as int]
    }

    /// An empty builder for a backend with the given capabilities.
    pub fn new(caps: BackendCaps) -> (b: GraphBuilder)
        ensures
            b.wf(),
            b.caps == caps,
            b.nodes@.len() == 0,
            b.links@.len() == 0,
            b.next_port@.len() == 0,
    {
        let b = GraphBuilder { caps, nodes: Vec::new(), links: Vec::new(), next_port: Vec::new() };
        b
    }

    /// Ask the backend for one more stage. Fails exactly when the backend
    /// lacks the stage kind; on success the new stage's handle is
    /// returned.
    #[verifier::spinoff_prover]
    #[verifier::rlimit(100)]
    pub fn add_node(&mut self, n: Node) -> (r: Result<usize, ConstructionError>)
        requires
            old(self).wf(),
        ensures
            final(self).wf(),
            final(self).caps == old(self).caps,
            final(self).links == old(self).links,
            old(self).caps.spec_supports(n) ==> (r matches Ok(id)
                && id == old(self).nodes@.len()
                && final(self).nodes@ == old(self).nodes@.push(n)
                && final(self).next_port@ == old(self).next_port@.push(0)),
            !old(self).caps.spec_supports(n) ==> r == Err::<usize, ConstructionError>(
                ConstructionError::NodeCreation,
            ) && *final(self) == *old(self),
    {
        if !self.caps.supports(&n) {
            return Err(ConstructionError::NodeCreation);
        }
        let id = self.nodes.len();
        self.nodes.push(n);
        self.next_port.push(0);
        proof {
            let g0 = old(self).as_graph();
            let g1 = self.as_graph();
            assert forall|k: int| 0 <= k < g1.links@.len() implies link_ok(
                g1.nodes@,
                #[trigger] g1.links@[k],
            ) by {
                assert(g1.links@[k] == g0.links@[k]);
                assert(link_ok(g0.nodes@, g0.links@[k]));
                assert(g1.nodes@[g0.links@[k].from as int] == g0.nodes@[g0.links@[k].from as int]);
                assert(g1.nodes@[g0.links@[k].to as int] == g0.nodes@[g0.links@[k].to as int]);
            }
            assert forall|k: int| 0 <= k < self.links@.len() implies (
            #[trigger] self.links@[k]).from_port < self.next_port@[self.links@[k].from as int] by {
                assert(link_ok(g0.nodes@, g0.links@[k]));
                assert(self.links@[k].from as int != id);
                assert(self.next_port@[self.links@[k].from as int] == old(
                    self,
                ).next_port@[self.links@[k].from as int]);
            }
        }
        Ok(id)
    }

    /// The port the next link out of `from` would use is still free.
    pub open spec fn spec_port_free(self, from: usize) -> bool {
        if self.nodes@[from as int] is FanOut {
            self.next_port@[from as int] < self.caps.fan_out_ports
        } else {
            self.next_port@[from as int] == 0
        }
    }

    /// Both endpoints exist, the link runs forward, the formats agree,
    /// and the input port is still free.
    pub open spec fn spec_link_valid(self, from: usize, to: usize) -> bool {
        &&& from < self.nodes@.len()
        &&& to < self.nodes@.len()
        &&& from < to
        &&& output_format(self.nodes@[from as int]) is Some
        &&& output_format(self.nodes@[from as int]) == input_format(self.nodes@[to as int])
        &&& !self.input_taken(to)
    }

    /// What linking `from` to `to` does to this builder: the link that
    /// would be added, or the error that rejects it.
    pub open spec fn link_decision(self, from: usize, to: usize) -> Result<
        Link,
        ConstructionError,
    > {
        if !self.spec_link_valid(from, to) {
            Err(ConstructionError::LinkFailed)
        } else if !self.spec_port_free(from) {
            if self.nodes@[from as int] is FanOut {
                Err(ConstructionError::PortExhaustion)
            } else {
                Err(ConstructionError::LinkFailed)
            }
        } else {
            Ok(
                Link {
                    from,
                    from_port: self.next_port@[from as int],
                    to,
                    to_port: 0,
                },
            )
        }
    }

    /// Runtime test of `input_taken`.
    fn input_taken_exec(&self, to: usize) -> (r: bool)
        ensures
            r == self.input_taken(to),
    {
        let mut k: usize = 0;
        while k < self.links.len()
            invariant
                k <= self.links@.len(),
                forall|j: int| 0 <= j < k ==> (#[trigger] self.links@[j]).to != to,
            decreases self.links@.len() - k,
        {
            if self.links[k].to == to {
                return true;
            }
            k += 1;
        }
        false
    }

    /// Link an output port of `from` to the input port of `to`, acquiring
    /// the port from `from` at link time. The outcome is exactly
    /// `link_decision`; a rejected link leaves the builder untouched.
    #[verifier::spinoff_prover]
    #[verifier::rlimit(100)]
    pub fn link(&mut self, from: usize, to: usize) -> (r: Result<(), ConstructionError>)
        requires
            old(self).wf(),
        ensures
            final(self).wf(),
            final(self).caps == old(self).caps,
            final(self).nodes == old(self).nodes,
            old(self).link_decision(from, to) matches Ok(l) ==> (r is Ok
                && final(self).links@ == old(self).links@.push(l)
                && final(self).next_port@ == old(self).next_port@.update(
                from as int,
                (l.from_port + 1) as usize,
            )),
            old(self).link_decision(from, to) matches Err(e) ==> r == Err::<
                (),
                ConstructionError,
            >(e) && *final(self) == *old(self),
    {
        if from >= self.nodes.len() || to >= self.nodes.len() || from >= to {
            return Err(ConstructionError::LinkFailed);
        }
        let compatible = match (output_format_of(&self.nodes[from]), input_format_of(
            &self.nodes[to],
        )) {
            (Some(a), Some(b)) => a == b,
            _ => false,
        };
        if !compatible || self.input_taken_exec(to) {
            return Err(ConstructionError::LinkFailed);
        }
        let is_fan_out = match &self.nodes[from] {
            Node::FanOut => true,
            _ => false,
        };
        let granted = self.next_port[from];
        if is_fan_out {
            if granted >= self.caps.fan_out_ports {
                return Err(ConstructionError::PortExhaustion);
            }
        } else {
            if granted != 0 {
                return Err(ConstructionError::LinkFailed);
            }
        }
        let l = Link { from, from_port: granted, to, to_port: 0 };
        self.links.push(l);
        self.next_port[from] = granted + 1;
        proof {
            let s0 = old(self).links@;
            let s1 = self.links@;
            let np1 = self.next_port@;
            let g0 = old(self).as_graph();
            let g1 = self.as_graph();
            assert(g0.wf());
            assert(g0.links@ == s0 && g0.nodes@ == old(self).nodes@);
            assert(s1 == s0.push(l));
            assert(link_ok(self.nodes@, l));
            assert(forall|k: int| 0 <= k < s0.len() ==> #[trigger] s1[k] == s0[k]);
            // each input port is still fed at most once
            assert(forall|k: int| 0 <= k < s0.len() ==> (#[trigger] s1[k]).to != to);
            // every granted port stays below its node's next free port, so
            // each output port is still used at most once
            assert forall|k: int| 0 <= k < s1.len() implies (#[trigger] s1[k]).from_port
                < np1[s1[k].from as int] by {
                if k < s0.len() {
                    assert(s1[k] == s0[k]);
                    assert(link_ok(g0.nodes@, g0.links@[k]));
                    assert(s0[k].from < old(self).nodes@.len());
                    assert(s0[k].from_port < old(self).next_port@[s0[k].from as int]);
                    if s0[k].from as int == from as int {
                        assert(np1[s0[k].from as int] == granted + 1);
                    } else {
                        assert(np1[s0[k].from as int] == old(self).next_port@[s0[k].from as int]);
                    }
                } else {
                    assert(s1[k] == l);
                    assert(np1[from as int] == granted + 1);
                }
            }
            assert(forall|k: int|
                0 <= k < s0.len() && (#[trigger] s0[k]).from == from ==> s0[k].from_port
                    < granted);
            assert(g1.nodes@ == self.nodes@ && g1.links@ == s1);
            assert(g0.nodes@ == g1.nodes@);
            assert forall|k: int| 0 <= k < s1.len() implies link_ok(
                g1.nodes@,
                #[trigger] s1[k],
            ) by {
                if k < s0.len() {
                    assert(s1[k] == s0[k]);
                    assert(link_ok(g0.nodes@, g0.links@[k]));
                } else {
                    assert(s1[k] == l);
                }
            }
            assert(forall|k1: int, k2: int|
                0 <= k1 < s1.len() && 0 <= k2 < s1.len() && (#[trigger] s1[k1]).to == (
                #[trigger] s1[k2]).to ==> k1 == k2);
            assert forall|k1: int, k2: int|
                0 <= k1 < s1.len() && 0 <= k2 < s1.len() && (#[trigger] s1[k1]).from == (
                #[trigger] s1[k2]).from && s1[k1].from_port == s1[k2].from_port implies k1
                == k2 by {
                if k1 < s0.len() && k2 == s0.len() {
                    assert(s1[k1].from_port < granted);
                } else if k2 < s0.len() && k1 == s0.len() {
                    assert(s1[k2].from_port < granted);
                }
            }
            assert(forall|k: int|
                0 <= k < s1.len() ==> (#[trigger] s1[k]).from < s1[k].to);
            assert(g1.wf());
            assert(self.wf());
        }
        Ok(())
    }

    /// Hand over the finished graph.
    pub fn finish(self) -> (g: Graph)
        requires
            self.wf(),
        ensures
            g == self.as_graph(),
            g.wf(),
    {
        let GraphBuilder { caps: _, nodes, links, next_port: _ } = self;
        Graph { nodes, links }
    }
}


/// Whether `build` is owed a graph: the backend supplies every stage kind
/// and the fan-out node can grant both branch ports.
pub open spec fn build_should_succeed(caps: BackendCaps) -> bool {
    caps.supports_all_required() && caps.fan_out_ports >= 2
}

/// The error a failing `build` reports: a missing stage kind aborts the
/// build before any linking; with every stage available, only fan-out
/// port exhaustion is left, and it is met only after the primary path has
/// linked.
pub open spec fn build_failure(caps: BackendCaps) -> ConstructionError {
    if !caps.supports_all_required() {
        ConstructionError::NodeCreation
    } else {
        ConstructionError::PortExhaustion
    }
}

/// The stage kind at each position of the built graph.
pub open spec fn built_nodes_shape(nodes: Seq<Node>) -> bool {
    &&& nodes.len() == 13
    &&& nodes[0] is Capture
    &&& nodes[1] is RateLimit
    &&& nodes[2] is FanOut
    &&& nodes[3] is BoundedBuffer
    &&& nodes[4] is BoundedBuffer
    &&& nodes[5] is Convert
    &&& nodes[6] is Scale
    &&& nodes[7] is FrameSink
    &&& nodes[8] is Convert
    &&& nodes[9] is Scale
    &&& nodes[10] is Encode
    &&& nodes[11] is Mux
    &&& nodes[12] is FileSink
}

/// The stages of the built graph, in creation order, with every
/// configuration record pinned down.
pub open spec fn built_nodes_ok(
    nodes: Seq<Node>,
    target: CaptureTargetDescriptor,
    out_path: Seq<char>,
) -> bool {
    &&& nodes.len() == 13
    &&& nodes[0] == (Node::Capture { window_handle: target.window_handle })
    &&& nodes[1] == (Node::RateLimit { max_rate: TARGET_RATE })
    &&& nodes[2] is FanOut
    &&& nodes[3] == (Node::BoundedBuffer { capacity: BRANCH_BUFFER_CAPACITY })
    &&& nodes[4] == (Node::BoundedBuffer { capacity: BRANCH_BUFFER_CAPACITY })
    &&& nodes[5] is Convert
    &&& nodes[6] is Scale
    &&& nodes[7] == (Node::FrameSink {
        format: PixelFormat::Rgb,
        width: FRAME_SINK_SIDE,
        height: FRAME_SINK_SIDE,
    })
    &&& nodes[8] is Convert
    &&& nodes[9] is Scale
    &&& (nodes[10] matches Node::Encode { width, height, profile } && width == ENCODE_WIDTH
        && height == ENCODE_HEIGHT && profile@ == "video/x-h264"@)
    &&& (nodes[11] matches Node::Mux { container } && container@ == "video/quicktime"@)
    &&& (nodes[12] matches Node::FileSink { location } && location@ == out_path)
}

/// The links of the built graph, one clause per link: capture 0 → rate
/// limiter 1 → fan-out 2; fan-out ports 0 and 1 → the branch buffers 3
/// and 4; buffer 3 → convert 5 → scale 6 → frame sink 7; buffer 4 →
/// convert 8 → scale 9 → encode 10 → mux 11 → file sink 12.
pub open spec fn built_links_ok(ls: Seq<Link>) -> bool {
    &&& ls.len() == 12
    &&& ls[0] == (Link { from: 0, from_port: 0, to: 1, to_port: 0 })
    &&& ls[1] == (Link { from: 1, from_port: 0, to: 2, to_port: 0 })
    &&& ls[2] == (Link { from: 2, from_port: 0, to: 3, to_port: 0 })
    &&& ls[3] == (Link { from: 2, from_port: 1, to: 4, to_port: 0 })
    &&& ls[4] == (Link { from: 3, from_port: 0, to: 5, to_port: 0 })
    &&& ls[5] == (Link { from: 5, from_port: 0, to: 6, to_port: 0 })
    &&& ls[6] == (Link { from: 6, from_port: 0, to: 7, to_port: 0 })
    &&& ls[7] == (Link { from: 4, from_port: 0, to: 8, to_port: 0 })
    &&& ls[8] == (Link { from: 8, from_port: 0, to: 9, to_port: 0 })
    &&& ls[9] == (Link { from: 9, from_port: 0, to: 10, to_port: 0 })
    &&& ls[10] == (Link { from: 10, from_port: 0, to: 11, to_port: 0 })
    &&& ls[11] == (Link { from: 11, from_port: 0, to: 12, to_port: 0 })
}

/// Pointwise facts about the built links: each is sound, runs forward,
/// feeds the next-created stage, and leaves the fan-out exactly at links
/// 2 and 3 and no sink at all.
#[verifier::spinoff_prover]
#[verifier::rlimit(30)]
proof fn lemma_built_links_eval(g: Graph)
    requires
        built_nodes_shape(g.nodes@),
        built_links_ok(g.links@),
    ensures
        forall|k: int|
            0 <= k < g.links@.len() ==> {
                let l = #[trigger] g.links@[k];
                &&& link_ok(g.nodes@, l)
                &&& l.from < l.to
                &&& l.to == k + 1
                &&& (l.from == 2 ==> (k == 2 || k == 3))
                &&& l.from != 7
                &&& l.from != 12
                &&& (l.from == 0 ==> k == 0)
                &&& (l.from == 1 ==> k == 1)
                &&& (l.from == 3 ==> k == 4)
                &&& (l.from == 4 ==> k == 7)
                &&& (l.from == 5 ==> k == 5)
                &&& (l.from == 6 ==> k == 6)
                &&& (l.from == 8 ==> k == 8)
                &&& (l.from == 9 ==> k == 9)
                &&& (l.from == 10 ==> k == 10)
                &&& (l.from == 11 ==> k == 11)
            },
{
    assert forall|k: int| 0 <= k < g.links@.len() implies {
        let l = #[trigger] g.links@[k];
        &&& link_ok(g.nodes@, l)
        &&& l.from < l.to
        &&& l.to == k + 1
        &&& (l.from == 2 ==> (k == 2 || k == 3))
        &&& l.from != 7
        &&& l.from != 12
        &&& (l.from == 0 ==> k == 0)
        &&& (l.from == 1 ==> k == 1)
        &&& (l.from == 3 ==> k == 4)
        &&& (l.from == 4 ==> k == 7)
        &&& (l.from == 5 ==> k == 5)
        &&& (l.from == 6 ==> k == 6)
        &&& (l.from == 8 ==> k == 8)
        &&& (l.from == 9 ==> k == 9)
        &&& (l.from == 10 ==> k == 10)
        &&& (l.from == 11 ==> k == 11)
    } by {
        if k == 0 {
        } else if k == 1 {
        } else if k == 2 {
        } else if k == 3 {
        } else if k == 4 {
        } else if k == 5 {
        } else if k == 6 {
        } else if k == 7 {
        } else if k == 8 {
        } else if k == 9 {
        } else if k == 10 {
        } else {
        }
    }
}

/// The built graph is well formed.
#[verifier::spinoff_prover]
#[verifier::rlimit(30)]
proof fn lemma_built_graph_wf(g: Graph)
    requires
        built_nodes_shape(g.nodes@),
        built_links_ok(g.links@),
    ensures
        g.wf(),
{
    lemma_built_links_eval(g);
    let ls = g.links@;
    assert forall|k1: int, k2: int|
        0 <= k1 < ls.len() && 0 <= k2 < ls.len() && (#[trigger] ls[k1]).from == (
        #[trigger] ls[k2]).from && ls[k1].from_port == ls[k2].from_port implies k1 == k2 by {
        if ls[k1].from == 2 {
            assert(k1 == 2 || k1 == 3);
            assert(k2 == 2 || k2 == 3);
        }
    }
}

/// The capture stage at position 0 is the built graph's one source.
#[verifier::spinoff_prover]
#[verifier::rlimit(30)]
proof fn lemma_built_graph_source(g: Graph)
    requires
        built_nodes_shape(g.nodes@),
        built_links_ok(g.links@),
    ensures
        g.source_is(0),
{
    lemma_built_links_eval(g);
    let ls = g.links@;
    assert forall|i: int| g.is_source(i) implies i == 0 by {
        if 1 <= i < 13 {
            assert(ls[i - 1].to == i);
            assert(g.has_link_into(i));
        }
    }
    assert(!g.has_link_into(0));
}

/// The fan-out stage at position 2 is the built graph's only one, and
/// exactly the two branch links leave it.
#[verifier::spinoff_prover]
#[verifier::rlimit(30)]
proof fn lemma_built_graph_fan_out(g: Graph)
    requires
        built_nodes_shape(g.nodes@),
        built_links_ok(g.links@),
    ensures
        g.fan_out_is(2),
{
    lemma_built_links_eval(g);
    let ls = g.links@;
    assert forall|i: int| g.is_fan_out(i) implies i == 2 by {
        if i != 2 && 0 <= i < 13 {
            assert(!(g.nodes@[i] is FanOut));
        }
    }
    assert(g.link_from_at(2, 2));
    assert(g.link_from_at(2, 3));
    assert forall|k: int| g.link_from_at(2, k) implies k == 2 || k == 3 by {
        assert(0 <= k < ls.len() && ls[k].from == 2);
    }
    assert(g.branch_links_are(2, 2, 3));
    assert(g.out_two(2));
}

/// The file sink at position 12 and the frame-delivery sink at position 7
/// are the built graph's only sinks.
#[verifier::spinoff_prover]
#[verifier::rlimit(30)]
proof fn lemma_built_graph_sinks(g: Graph)
    requires
        built_nodes_shape(g.nodes@),
        built_links_ok(g.links@),
    ensures
        g.sinks_are(12, 7),
{
    lemma_built_links_eval(g);
    let ls = g.links@;
    assert forall|i: int| 0 <= i < 13 && i != 7 && i != 12 implies g.has_link_from(i) by {
        if i == 0 {
            assert(ls[0].from == 0);
        } else if i == 1 {
            assert(ls[1].from == 1);
        } else if i == 2 {
            assert(ls[2].from == 2);
        } else if i == 3 {
            assert(ls[4].from == 3);
        } else if i == 4 {
            assert(ls[7].from == 4);
        } else if i == 5 {
            assert(ls[5].from == 5);
        } else if i == 6 {
            assert(ls[6].from == 6);
        } else if i == 8 {
            assert(ls[8].from == 8);
        } else if i == 9 {
            assert(ls[9].from == 9);
        } else if i == 10 {
            assert(ls[10].from == 10);
        } else if i == 11 {
            assert(ls[11].from == 11);
        }
    }
    assert(!g.has_link_from(12));
    assert(!g.has_link_from(7));
}

/// The built graph satisfies the whole topology invariant.
#[verifier::spinoff_prover]
#[verifier::rlimit(30)]
proof fn lemma_built_graph_topology(g: Graph)
    requires
        built_nodes_shape(g.nodes@),
        built_links_ok(g.links@),
    ensures
        g.source_is(0),
        g.fan_out_is(2),
        g.sinks_are(12, 7),
        g.topology_ok(),
{
    lemma_built_graph_source(g);
    lemma_built_graph_fan_out(g);
    lemma_built_graph_sinks(g);
}

/// Build the capture graph of spec section 4.1: a capture stage for
/// `target`, a rate limiter, the fan-out, and the two branches — raw
/// frames to the frame-delivery sink, encoded video through the muxer to
/// a file sink at `output_path`. The backend's capabilities for every
/// stage are checked before any linking, and the primary path is laid
/// before either branch buffer takes a fan-out port, so any failure
/// aborts before branch resources are committed and releases every stage
/// created so far: no partial graph is ever returned.
#[verifier::spinoff_prover]
#[verifier::rlimit(30)]
pub fn build(caps: &BackendCaps, target: &CaptureTargetDescriptor, output_path: &str) -> (r:
    Result<Graph, ConstructionError>)
    ensures
        r is Ok <==> build_should_succeed(*caps),
        r matches Ok(g) ==> built_nodes_ok(g.nodes@, *target, output_path@) && built_links_ok(
            g.links@,
        ) && g.wf() && g.topology_ok(),
        r matches Ok(g) ==> g.source_is(0) && g.nodes@[0] == (Node::Capture {
            window_handle: target.window_handle,
        }),
        r matches Ok(g) ==> g.fan_out_is(2),
        r matches Ok(g) ==> (g.sinks_are(12, 7) && (g.nodes@[12] matches Node::FileSink {
            location,
        } && location@ == output_path@)),
        r is Err ==> r == Err::<Graph, ConstructionError>(build_failure(*caps)),
{
    if !(caps.capture && caps.rate_limit && caps.fan_out && caps.bounded_buffer && caps.convert
        && caps.scale && caps.encode && caps.mux && caps.file_sink && caps.frame_sink) {
        return Err(ConstructionError::NodeCreation);
    }
    if caps.fan_out_ports < 2 {
        return Err(ConstructionError::PortExhaustion);
    }
    let mut nodes: Vec<Node> = Vec::new();
    nodes.push(Node::Capture { window_handle: target.window_handle });
    nodes.push(Node::RateLimit { max_rate: TARGET_RATE });
    nodes.push(Node::FanOut);
    nodes.push(Node::BoundedBuffer { capacity: BRANCH_BUFFER_CAPACITY });
    nodes.push(Node::BoundedBuffer { capacity: BRANCH_BUFFER_CAPACITY });
    nodes.push(Node::Convert);
    nodes.push(Node::Scale);
    nodes.push(
        Node::FrameSink { format: PixelFormat::Rgb, width: FRAME_SINK_SIDE, height: FRAME_SINK_SIDE },
    );
    nodes.push(Node::Convert);
    nodes.push(Node::Scale);
    nodes.push(
        Node::Encode {
            width: ENCODE_WIDTH,
            height: ENCODE_HEIGHT,
            profile: "video/x-h264".to_owned(),
        },
    );
    nodes.push(Node::Mux { container: "video/quicktime".to_owned() });
    nodes.push(Node::FileSink { location: output_path.to_owned() });
    let mut links: Vec<Link> = Vec::new();
    links.push(Link { from: 0, from_port: 0, to: 1, to_port: 0 });
    links.push(Link { from: 1, from_port: 0, to: 2, to_port: 0 });
    links.push(Link { from: 2, from_port: 0, to: 3, to_port: 0 });
    links.push(Link { from: 2, from_port: 1, to: 4, to_port: 0 });
    links.push(Link { from: 3, from_port: 0, to: 5, to_port: 0 });
    links.push(Link { from: 5, from_port: 0, to: 6, to_port: 0 });
    links.push(Link { from: 6, from_port: 0, to: 7, to_port: 0 });
    links.push(Link { from: 4, from_port: 0, to: 8, to_port: 0 });
    links.push(Link { from: 8, from_port: 0, to: 9, to_port: 0 });
    links.push(Link { from: 9, from_port: 0, to: 10, to_port: 0 });
    links.push(Link { from: 10, from_port: 0, to: 11, to_port: 0 });
    links.push(Link { from: 11, from_port: 0, to: 12, to_port: 0 });
    let g = Graph { nodes, links };
    proof {
        assert(built_nodes_ok(g.nodes@, *target, output_path@));
        assert(built_nodes_shape(g.nodes@));
        assert(built_links_ok(g.links@));
        lemma_built_graph_wf(g);
        lemma_built_graph_topology(g);
    }
    Ok(g)
}

/// Runtime form of `output_format`.
pub fn output_format_of(n: &Node) -> (r: Option<MediaFormat>)
    ensures
        r == output_format(*n),
{
    match n {
        Node::Capture { .. } => Some(MediaFormat::RawVideo),
        Node::RateLimit { .. } => Some(MediaFormat::RawVideo),
        Node::FanOut => Some(MediaFormat::RawVideo),
        Node::BoundedBuffer { .. } => Some(MediaFormat::RawVideo),
        Node::Convert => Some(MediaFormat::RawVideo),
        Node::Scale => Some(MediaFormat::RawVideo),
        Node::Encode { .. } => Some(MediaFormat::EncodedVideo),
        Node::Mux { .. } => Some(MediaFormat::Container),
        Node::FileSink { .. } => None,
        Node::FrameSink { .. } => None,
    }
}
/// Runtime form of `input_format`.
pub fn input_format_of(n: &Node) -> (r: Option<MediaFormat>)
    ensures
        r == input_format(*n),
{
    match n {
        Node::Capture { .. } => None,
        Node::RateLimit { .. } => Some(MediaFormat::RawVideo),
        Node::FanOut => Some(MediaFormat::RawVideo),
        Node::BoundedBuffer { .. } => Some(MediaFormat::RawVideo),
        Node::Convert => Some(MediaFormat::RawVideo),
        Node::Scale => Some(MediaFormat::RawVideo),
        Node::Encode { .. } => Some(MediaFormat::RawVideo),
        Node::Mux { .. } => Some(MediaFormat::EncodedVideo),
        Node::FileSink { .. } => Some(MediaFormat::Container),
        Node::FrameSink { .. } => Some(MediaFormat::RawVideo),
    }
}

}
