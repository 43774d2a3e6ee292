//! The aggregate entity behind the opaque handle, and the host capability
//! interface it depends on.
//!
//! A polygon owns an ordered sequence of coordinate pairs (insertion order
//! significant, duplicates permitted) and an identifier assigned exactly once
//! at construction. The boundary layer holds it only through an opaque
//! handle; every mutating and querying entry point of that layer lands here,
//! where its effect on the sequence is stated exactly.

use crate::ident::{spec_parse_uuid, spec_uuid_text, Identifier};
use crate::point::Point;
use crate::text::{dec_str, spec_dec};
use vstd::prelude::*;
use vstd::string::StringExecFns;

verus! {

/// The two capabilities the host must supply, injected at the points that
/// need them rather than resolved by ambient linkage: an equality test over
/// coordinate pairs, and a generator of fresh identifier text. Nothing is
/// assumed of either; every contract downstream holds for whatever an
/// implementation returns.
pub trait Host {
    /// The host's equality verdict on two coordinate pairs; used to classify
    /// an entity as closed or opened.
    fn values_equal(&self, a: Point, b: Point) -> bool;

    /// Freshly generated identifier text, copied out of host ownership
    /// before it reaches the core.
    fn generate_identifier(&self) -> String;
}

/// The formatted boundary summary for an entity with `len` points, closed
/// verdict `closed`, and identifier `id`.
pub open spec fn spec_description(len: nat, closed: bool, id: Identifier) -> Seq<char> {
    "Polygon containing "@ + spec_dec(len) + " points ("@ + (if closed {
        "closed"@
    } else {
        "opened"@
    }) + ") ["@ + spec_uuid_text(id.bits) + "]"@
}

/// The aggregate entity. Exclusively owned by whichever side holds it; the
/// boundary layer exposes it only as an opaque handle.
pub struct Polygon {
    id: Identifier,
    points: Vec<Point>,
}

impl Polygon {
    /// The sequence of coordinates, in insertion order.
    pub closed spec fn spec_points(&self) -> Seq<Point> {
        self.points@
    }

    /// The identifier assigned at construction.
    pub closed spec fn spec_id(&self) -> Identifier {
        self.id
    }

    /// Creates an empty entity with the given identifier.
    pub fn with_identifier(id: Identifier) -> (p: Polygon)
        ensures
            p.spec_points() == Seq::<Point>::empty(),
            p.spec_id() == id,
    {
        Polygon { id, points: Vec::new() }
    }

    /// Creates an empty entity, drawing its identifier text from the host in
    /// a single synchronous round-trip. Yields nothing when the host's text
    /// fails to parse as an identifier — a structural fault the caller treats
    /// as fatal, never as a value to continue with.
    pub fn new<H: Host>(host: &H) -> (r: Option<Polygon>)
        ensures
            r is Some ==> r.unwrap().spec_points() == Seq::<Point>::empty(),
    {
        let text = host.generate_identifier();
        match Identifier::parse(text.as_str()) {
            Some(id) => Some(Polygon::with_identifier(id)),
            None => None,
        }
    }

    /// Destroys the entity, releasing all owned storage. Consuming the value
    /// makes a second destruction of the same entity unrepresentable here;
    /// the boundary layer owns the guard against a stale handle.
    pub fn destroy(self) {
    }

    /// How many coordinates the entity holds.
    pub fn count(&self) -> (n: usize)
        ensures
            n == self.spec_points().len(),
    {
        self.points.len()
    }

    /// Appends a coordinate; the identifier and the existing points stand.
    pub fn push(&mut self, p: Point)
        ensures
            final(self).spec_points() == old(self).spec_points().push(p),
            final(self).spec_id() == old(self).spec_id(),
    {
        self.points.push(p);
    }

    /// Whether `i`, in the boundary's signed index convention, names a point
    /// of this entity. The guard a caller must test before `remove`: a
    /// negative or out-of-range index is fatal misuse, never wrapped or
    /// clamped.
    pub fn can_remove(&self, i: i64) -> (ok: bool)
        ensures
            ok <==> 0 <= i < self.spec_points().len(),
    {
        if i < 0 {
            false
        } else {
            (i as u64) < (self.points.len() as u64)
        }
    }

    /// Removes the coordinate at `i`, keeping the order of the rest; the
    /// identifier stands. Indices outside the sequence are ruled out here,
    /// mirroring a boundary that aborts on them instead of recovering.
    pub fn remove(&mut self, i: i64)
        requires
            0 <= i < old(self).spec_points().len(),
        ensures
            final(self).spec_points() == old(self).spec_points().remove(i as int),
            final(self).spec_id() == old(self).spec_id(),
    {
        let n = self.points.len();
        proof {
            assert(0 <= i < n);
        }
        let idx: usize = i as usize;
        self.points.remove(idx);
    }

    /// Replaces the whole sequence by a copy of `pts`, the inbound half of
    /// the owned-array bridge: the buffer is borrowed for the call only, and
    /// the identifier stands.
    pub fn set_points(&mut self, pts: &[Point])
        ensures
            final(self).spec_points() == pts@,
            final(self).spec_id() == old(self).spec_id(),
    {
        let ghost orig_id = self.id;
        self.points.clear();
        let n = pts.len();
        let mut i: usize = 0;
        while i < n
            invariant
                n == pts@.len(),
                i <= n,
                self.id == orig_id,
                self.points@ == pts@.subrange(0, i as int),
            decreases n - i,
        {
            let p = pts[i];
            self.points.push(p);
            proof {
                assert(pts@.subrange(0, i as int).push(pts@[i as int]) =~= pts@.subrange(
                    0,
                    i as int + 1,
                ));
            }
            i = i + 1;
        }
        proof {
            assert(pts@.subrange(0, n as int) =~= pts@);
        }
    }

    /// A copy of the sequence, in insertion order: the outbound half of the
    /// owned-array bridge. Ownership of the copy passes to the caller; the
    /// entity keeps its own sequence untouched.
    pub fn points(&self) -> (r: Vec<Point>)
        ensures
            r@ == self.spec_points(),
    {
        let mut r: Vec<Point> = Vec::new();
        let n = self.points.len();
        let mut i: usize = 0;
        while i < n
            invariant
                n == self.spec_points().len(),
                i <= n,
                r@ == self.spec_points().subrange(0, i as int),
            decreases n - i,
        {
            let p = self.points[i];
            r.push(p);
            proof {
                assert(self.spec_points().subrange(0, i as int).push(
                    self.spec_points()[i as int],
                ) =~= self.spec_points().subrange(0, i as int + 1));
            }
            i = i + 1;
        }
        proof {
            assert(self.spec_points().subrange(0, n as int) =~= self.spec_points());
        }
        r
    }

    /// The consecutive coordinate pairs of the path, in order: exactly the
    /// pairs whose distances, summed by the numeric layer at the boundary,
    /// give the path length. An entity with zero or one points has none.
    pub fn segments(&self) -> (r: Vec<(Point, Point)>)
        ensures
            self.spec_points().len() <= 1 ==> r@.len() == 0,
            self.spec_points().len() > 1 ==> r@.len() == self.spec_points().len() - 1,
            forall|j: int|
                0 <= j < r@.len() ==> r@[j] == (self.spec_points()[j], self.spec_points()[j + 1]),
    {
        let mut r: Vec<(Point, Point)> = Vec::new();
        let n = self.points.len();
        if n <= 1 {
            return r;
        }
        let mut i: usize = 0;
        while i + 1 < n
            invariant
                n == self.spec_points().len(),
                i + 1 <= n,
                r@.len() == i,
                forall|j: int|
                    0 <= j < i ==> r@[j] == (
                        self.spec_points()[j],
                        self.spec_points()[j + 1],
                    ),
            decreases n - i,
        {
            let pair = (self.points[i], self.points[i + 1]);
            r.push(pair);
            i = i + 1;
        }
        r
    }

    /// Formats the boundary summary, given the host's verdict on whether the
    /// first and last coordinates are equal. The entity reads as closed
    /// exactly when it has at least two points and the verdict is positive;
    /// with zero or one points it reads as opened whatever the verdict.
    pub fn describe_with(&self, endpoints_equal: bool) -> (s: String)
        ensures
            s@ == spec_description(
                self.spec_points().len(),
                self.spec_points().len() >= 2 && endpoints_equal,
                self.spec_id(),
            ),
    {
        let closed = self.points.len() >= 2 && endpoints_equal;
        let mut s = String::from_str("Polygon containing ");
        let count = dec_str(self.points.len());
        s.append(count.as_str());
        s.append(" points (");
        if closed {
            s.append("closed");
        } else {
            s.append("opened");
        }
        s.append(") [");
        let id_text = self.id.canonical_text();
        s.append(id_text.as_str());
        s.append("]");
        proof {
            assert(s@ =~= spec_description(
                self.spec_points().len(),
                self.spec_points().len() >= 2 && endpoints_equal,
                self.spec_id(),
            ));
        }
        s
    }

    /// Formats the boundary summary, consulting the host's equality test on
    /// the first and last coordinates where the entity has at least two
    /// points. Whatever verdict the host returns, the text is this entity's
    /// summary under that verdict; with fewer than two points the host is not
    /// consulted and the entity reads as opened.
    pub fn description<H: Host>(&self, host: &H) -> (s: String)
        ensures
            self.spec_points().len() < 2 ==> s@ == spec_description(
                self.spec_points().len(),
                false,
                self.spec_id(),
            ),
            s@ == spec_description(self.spec_points().len(), true, self.spec_id()) || s@
                == spec_description(self.spec_points().len(), false, self.spec_id()),
    {
        let n = self.points.len();
        let eq = if n >= 2 {
            host.values_equal(self.points[0], self.points[n - 1])
        } else {
            false
        };
        self.describe_with(eq)
    }

    /// The identifier, as assigned at construction.
    pub fn identifier(&self) -> (id: Identifier)
        ensures
            id == self.spec_id(),
    {
        self.id
    }
}

/// Round-trip law of the owned-array bridge: a boundary array holding an
/// entity's snapshot, assigned into another entity, reproduces the original
/// sequence exactly. The premises are precisely what `points` ensures of the
/// snapshot it returns and what `set_points` ensures of the entity it filled.
pub proof fn lemma_snapshot_assign_round_trip(
    original: Polygon,
    buffer: Seq<Point>,
    replaced: Polygon,
)
    requires
        buffer == original.spec_points(),
        replaced.spec_points() == buffer,
    ensures
        replaced.spec_points() == original.spec_points(),
{
}

} // verus!
