//! The processing-graph data model: stages, typed links, and the
//! well-formedness and topology invariants that every successfully built
//! graph carries — exactly one source, exactly one fan-out heading two
//! branches, exactly two sinks, and no cycles.

use vstd::prelude::*;

verus! {

/// The media format a port carries. Formats are established at link time
/// and never renegotiated.
#[derive(Debug, Clone, Copy, PartialEq, Eq, Structural)]
pub enum MediaFormat {
    RawVideo,
    EncodedVideo,
    Container,
}

/// Pixel layout of raw frames handed to the frame-delivery sink.
#[derive(Debug, Clone, Copy, PartialEq, Eq, Structural)]
pub enum PixelFormat {
    Rgb,
}

/// One stage of the processing graph, with its strongly typed
/// configuration record.
#[derive(Debug, Clone)]
pub enum Node {
    /// Captures the designated on-screen source.
    Capture { window_handle: u64 },
    /// Caps the stream to a fixed cadence of `max_rate` units per second.
    RateLimit { max_rate: u64 },
    /// Replicates its single input stream onto dynamically acquired
    /// output ports.
    FanOut,
    /// A fixed-capacity queue decoupling upstream and downstream
    /// scheduling; the source of backpressure.
    BoundedBuffer { capacity: u64 },
    /// Converts pixel layout.
    Convert,
    /// Scales frames.
    Scale,
    /// Encodes raw video at a restricted resolution under a named profile.
    Encode { width: u64, height: u64, profile: String },
    /// Muxes encoded video into a container.
    Mux { container: String },
    /// Writes the container stream to a file.
    FileSink { location: String },
    /// Delivers raw frames of a fixed format and size to a consumer
    /// callback.
    FrameSink { format: PixelFormat, width: u64, height: u64 },
}

/// A directed edge from one output port to one input port.
#[derive(Debug, Clone, Copy, PartialEq, Eq, Structural)]
pub struct Link {
    pub from: usize,
    pub from_port: usize,
    pub to: usize,
    pub to_port: usize,
}

/// The fully linked processing graph. Mutated only during construction,
/// never restructured afterwards: the library offers no mutator.
#[derive(Debug, Clone)]
pub struct Graph {
    pub nodes: Vec<Node>,
    pub links: Vec<Link>,
}

/// The format a node consumes, when it has an input port at all.
pub open spec fn input_format(n: Node) -> Option<MediaFormat> {
    match n {
        Node::Capture { .. } => None,
        Node::RateLimit { .. } => Some(MediaFormat::RawVideo),
        Node::FanOut => Some(MediaFormat::RawVideo),
        Node::BoundedBuffer { .. } => Some(MediaFormat::RawVideo),
        Node::Convert => Some(MediaFormat::RawVideo),
        Node::Scale => Some(MediaFormat::RawVideo),
        Node::Encode { .. } => Some(MediaFormat::RawVideo),
        Node::Mux { .. } => Some(MediaFormat::EncodedVideo),
        Node::FileSink { .. } => Some(MediaFormat::Container),
        Node::FrameSink { .. } => Some(MediaFormat::RawVideo),
    }
}

/// The format a node produces, when it has an output port at all.
pub open spec fn output_format(n: Node) -> Option<MediaFormat> {
    match n {
        Node::Capture { .. } => Some(MediaFormat::RawVideo),
        Node::RateLimit { .. } => Some(MediaFormat::RawVideo),
        Node::FanOut => Some(MediaFormat::RawVideo),
        Node::BoundedBuffer { .. } => Some(MediaFormat::RawVideo),
        Node::Convert => Some(MediaFormat::RawVideo),
        Node::Scale => Some(MediaFormat::RawVideo),
        Node::Encode { .. } => Some(MediaFormat::EncodedVideo),
        Node::Mux { .. } => Some(MediaFormat::Container),
        Node::FileSink { .. } => None,
        Node::FrameSink { .. } => None,
    }
}

/// A link is sound for a node list when its endpoints exist, it leaves an
/// output port for an input port, and the two ports carry the same media
/// format.
pub open spec fn link_ok(nodes: Seq<Node>, l: Link) -> bool {
    &&& l.from < nodes.len()
    &&& l.to < nodes.len()
    &&& l.from != l.to
    &&& output_format(nodes[l.from as int]) is Some
    &&& output_format(nodes[l.from as int]) == input_format(nodes[l.to as int])
    &&& l.to_port == 0
    &&& (nodes[l.from as int] is FanOut || l.from_port == 0)
}

impl Graph {
    /// Some link feeds node `i`.
    pub open spec fn has_link_into(self, i: int) -> bool {
        exists|k: int| 0 <= k < self.links@.len() && self.links@[k].to == i
    }

    /// Some link leaves node `i`.
    pub open spec fn has_link_from(self, i: int) -> bool {
        exists|k: int| 0 <= k < self.links@.len() && self.links@[k].from == i
    }

    /// Node `i` is a source: it exists and nothing feeds it.
    pub open spec fn is_source(self, i: int) -> bool {
        0 <= i < self.nodes@.len() && !self.has_link_into(i)
    }

    /// Node `i` is a sink: it exists and nothing consumes from it.
    pub open spec fn is_sink(self, i: int) -> bool {
        0 <= i < self.nodes@.len() && !self.has_link_from(i)
    }

    /// Node `i` is the fan-out stage.
    pub open spec fn is_fan_out(self, i: int) -> bool {
        0 <= i < self.nodes@.len() && self.nodes@[i] is FanOut
    }

    /// Every link is sound, each input port is fed at most once, each
    /// output port is used at most once, and every link goes from a lower
    /// node index to a higher one — construction order doubles as a
    /// topological order, which is what makes the graph acyclic.
    pub open spec fn wf(self) -> bool {
        &&& forall|k: int|
            0 <= k < self.links@.len() ==> link_ok(self.nodes@, #[trigger] self.links@[k])
        &&& forall|k1: int, k2: int|
            0 <= k1 < self.links@.len() && 0 <= k2 < self.links@.len()
                && (#[trigger] self.links@[k1]).to == (#[trigger] self.links@[k2]).to ==> k1
                == k2
        &&& forall|k1: int, k2: int|
            0 <= k1 < self.links@.len() && 0 <= k2 < self.links@.len()
                && (#[trigger] self.links@[k1]).from == (#[trigger] self.links@[k2]).from
                && self.links@[k1].from_port == self.links@[k2].from_port ==> k1 == k2
        &&& forall|k: int|
            0 <= k < self.links@.len() ==> (#[trigger] self.links@[k]).from
                < self.links@[k].to
    }

    /// There is a link from node `a` to node `b`.
    pub open spec fn step(self, a: int, b: int) -> bool {
        exists|k: int|
            0 <= k < self.links@.len() && (#[trigger] self.links@[k]).from == a
                && self.links@[k].to == b
    }

    /// `p` walks the graph along links.
    pub open spec fn is_path(self, p: Seq<int>) -> bool {
        &&& p.len() >= 2
        &&& forall|x: int| 0 <= x < p.len() - 1 ==> self.step(#[trigger] p[x], p[x + 1])
    }

    /// Link number `k` leaves node `i`.
    pub open spec fn link_from_at(self, i: int, k: int) -> bool {
        0 <= k < self.links@.len() && self.links@[k].from == i
    }

    /// No link leaves node `i` but numbers `k1` and `k2`.
    pub open spec fn only_links_from(self, i: int, k1: int, k2: int) -> bool {
        forall|k: int| self.link_from_at(i, k) ==> k == k1 || k == k2
    }

    /// Links `k1` and `k2` are exactly the links leaving node `i`.
    pub open spec fn branch_links_are(self, i: int, k1: int, k2: int) -> bool {
        &&& k1 != k2
        &&& self.link_from_at(i, k1)
        &&& self.link_from_at(i, k2)
        &&& self.only_links_from(i, k1, k2)
    }

    /// Exactly two links leave node `i`.
    pub open spec fn out_two(self, i: int) -> bool {
        exists|k1: int, k2: int| #[trigger] self.branch_links_are(i, k1, k2)
    }

    /// Node `i` is the one source node of the graph, and it is the
    /// capture stage.
    pub open spec fn source_is(self, i: int) -> bool {
        &&& self.is_source(i)
        &&& self.nodes@[i] is Capture
        &&& forall|j: int| self.is_source(j) ==> j == i
    }

    /// Node `i` is the one fan-out node of the graph, and exactly two
    /// branch links leave it.
    pub open spec fn fan_out_is(self, i: int) -> bool {
        &&& self.is_fan_out(i)
        &&& self.out_two(i)
        &&& forall|j: int| self.is_fan_out(j) ==> j == i
    }

    /// Nodes `i` and `j` are the only sink nodes of the graph: one file
    /// sink and one frame-delivery sink.
    pub open spec fn sinks_are(self, i: int, j: int) -> bool {
        &&& self.is_sink(i)
        &&& self.nodes@[i] is FileSink
        &&& self.is_sink(j)
        &&& self.nodes@[j] is FrameSink
        &&& i != j
        &&& forall|k: int| self.is_sink(k) ==> k == i || k == j
    }

    /// The static topology invariant of every successfully built graph:
    /// exactly one source node, exactly one fan-out node with exactly two
    /// outgoing branch links, and exactly two sink nodes, one file sink
    /// and one frame-delivery sink.
    pub open spec fn topology_ok(self) -> bool {
        &&& exists|i: int| self.source_is(i)
        &&& exists|i: int| self.fan_out_is(i)
        &&& exists|i: int, j: int| self.sinks_are(i, j)
    }

    /// In a well-formed graph every path strictly increases node indices.
    pub proof fn lemma_path_increases(self, p: Seq<int>)
        requires
            self.wf(),
            self.is_path(p),
        ensures
            p[0] < p[p.len() - 1],
        decreases p.len(),
    {
        if p.len() == 2 {
            assert(self.step(p[0], p[1]));
        } else {
            let q = p.drop_last();
            assert(forall|x: int|
                0 <= x < q.len() - 1 ==> #[trigger] q[x] == p[x] && q[x + 1] == p[x + 1]);
            assert(forall|x: int|
                0 <= x < q.len() - 1 ==> self.step(#[trigger] q[x], q[x + 1]));
            self.lemma_path_increases(q);
            assert(self.step(p[p.len() - 2], p[p.len() - 1]));
        }
    }

    /// A well-formed graph is acyclic: no path leads from a node back to
    /// itself.
    pub proof fn lemma_acyclic(self, p: Seq<int>)
        requires
            self.wf(),
            self.is_path(p),
        ensures
            p[0] != p[p.len() - 1],
    {
        self.lemma_path_increases(p);
    }
}

}
