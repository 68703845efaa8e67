//! Construction of the trajectory diagram.
//!
//! The diagram is a 1400 by 1400 unit vector-markup document: a decorative
//! boundary circle, two labelled axis guide lines, and then, pair by pair
//! in chronological order, one point and one connecting segment per
//! collision event. The numeric front end maps each pair's normalized
//! velocities to drawing-surface coordinates and formats them as decimal
//! text; [`Collisions::svg_document`] assembles the document and its
//! contract pins the produced text down exactly, character for character.

use crate::sim::lemma_all_but_last_have_wall;
use crate::sim::lemma_total_events_when_all_have_wall;
use crate::sim::total_events;
use crate::sim::CollisionPair;
use crate::sim::Collisions;
use vstd::prelude::*;
use vstd::string::StringExecFns;

verus! {

/// The drawing-surface coordinates of one pair's points, already formatted
/// as decimal text by the numeric front end: the box-collision point at
/// `(x_box, y)` and, when a wall collision followed, the reflected point
/// at `(x_wall, y)`.
pub struct PairCoords {
    pub x_box: String,
    pub y: String,
    pub x_wall: Option<String>,
}

/// The coordinate records line up with the collision pairs: one record per
/// pair, with a wall coordinate exactly where the pair records a wall
/// collision.
pub open spec fn coords_match(pairs: Seq<CollisionPair>, coords: Seq<PairCoords>) -> bool {
    &&& coords.len() == pairs.len()
    &&& forall|i: int|
        0 <= i < pairs.len() ==> (coords[i].x_wall is Some
            <==> pairs[i].v_small_after_wall_collision is Some)
}

/// The markup of one plotted point.
pub open spec fn point_text(x: Seq<char>, y: Seq<char>) -> Seq<char> {
    "<circle cx=\""@ + x + "\" cy=\""@ + y
        + "\" r=\"4\" stroke=\"black\" fill=\"blue\" stroke-width=\"1\"/>\n"@
}

/// The markup of one connecting segment.
pub open spec fn segment_text(x1: Seq<char>, x2: Seq<char>, y1: Seq<char>, y2: Seq<char>) -> Seq<
    char,
> {
    "<line x1=\""@ + x1 + "\" x2=\""@ + x2 + "\" y1=\""@ + y1 + "\" y2=\""@ + y2
        + "\" stroke=\"black\" stroke-width=\"1\"/>\n"@
}

/// The markup one pair contributes, given the previously plotted point:
/// the box-collision point and the segment from the last point to it, and,
/// exactly when the pair records a wall collision, the reflected point and
/// the segment across to it — one point and one segment per collision
/// event of the pair.
pub open spec fn pair_text(
    p: CollisionPair,
    c: PairCoords,
    last_x: Seq<char>,
    last_y: Seq<char>,
) -> Seq<char> {
    let base = point_text(c.x_box@, c.y@) + segment_text(last_x, c.x_box@, last_y, c.y@);
    if p.v_small_after_wall_collision is Some {
        base + point_text((c.x_wall->0)@, c.y@) + segment_text(
            c.x_box@,
            (c.x_wall->0)@,
            c.y@,
            c.y@,
        )
    } else {
        base
    }
}

/// The x coordinate of the point plotted after this pair: the reflected
/// point when a wall collision followed, else unchanged.
pub open spec fn next_last_x(p: CollisionPair, c: PairCoords, last_x: Seq<char>) -> Seq<char> {
    if p.v_small_after_wall_collision is Some {
        (c.x_wall->0)@
    } else {
        last_x
    }
}

/// The y coordinate of the point plotted after this pair.
pub open spec fn next_last_y(p: CollisionPair, c: PairCoords, last_y: Seq<char>) -> Seq<char> {
    if p.v_small_after_wall_collision is Some {
        c.y@
    } else {
        last_y
    }
}

/// The markup of a whole pair sequence, threading the previously plotted
/// point through in chronological order.
pub open spec fn pairs_text(
    pairs: Seq<CollisionPair>,
    coords: Seq<PairCoords>,
    last_x: Seq<char>,
    last_y: Seq<char>,
) -> Seq<char>
    decreases pairs.len(),
{
    if pairs.len() == 0 {
        Seq::empty()
    } else {
        pair_text(pairs[0], coords[0], last_x, last_y) + pairs_text(
            pairs.drop_first(),
            coords.drop_first(),
            next_last_x(pairs[0], coords[0], last_x),
            next_last_y(pairs[0], coords[0], last_y),
        )
    }
}

/// The fixed document prefix: opening tag, styling, background, the
/// decorative boundary circle of radius 500 around the canvas center
/// (700, 700), and the two labelled axis guide lines.
pub open spec fn header_text() -> Seq<char> {
    "<svg width=\"1400\" height=\"1400\" version=\"1.1\" xmlns=\"http://www.w3.org/2000/svg\">\n"@
        + "<style>\n"@
        + ".text { font-weight: bold; font-size: 20px; font-family: sans-serif; }\n"@
        + "</style>\n"@
        + "<rect width=\"100%\" height=\"100%\" fill=\"white\"/>\n"@
        + "<circle cx=\"700\" cy=\"700\" r=\"500\" stroke=\"red\" fill=\"transparent\" stroke-width=\"3\"/>\n"@
        + "<line x1=\"700\" x2=\"700\" y1=\"50\" y2=\"1350\" stroke=\"orange\" stroke-width=\"5\"/>\n"@
        + "<text x=\"700\" y=\"25\" text-anchor=\"middle\" dominant-baseline=\"middle\" class=\"text\">sqrt(m_b) * v_b</text>\n"@
        + "<line x1=\"50\" x2=\"1350\" y1=\"700\" y2=\"700\" stroke=\"orange\" stroke-width=\"5\"/>\n"@
        + "<text x=\"1300\" y=\"690\" text-anchor=\"middle\" class=\"text\">sqrt(m_s) * v_s</text>\n"@
}

/// The x coordinate text of the initial "last plotted point": the
/// normalized point (0, 1) maps to the drawing-surface point (700, 200).
pub open spec fn initial_x_text() -> Seq<char> {
    "700"@
}

/// The y coordinate text of the initial "last plotted point".
pub open spec fn initial_y_text() -> Seq<char> {
    "200"@
}

/// The whole diagram document for a pair sequence and its formatted
/// coordinates.
pub open spec fn document_text(pairs: Seq<CollisionPair>, coords: Seq<PairCoords>) -> Seq<char> {
    header_text() + pairs_text(pairs, coords, initial_x_text(), initial_y_text()) + "</svg>\n"@
}

/// Appends the markup of one plotted point.
fn push_point(out: &mut String, x: &str, y: &str)
    ensures
        final(out)@ == old(out)@ + point_text(x@, y@),
{
    out.append("<circle cx=\"");
    out.append(x);
    out.append("\" cy=\"");
    out.append(y);
    out.append("\" r=\"4\" stroke=\"black\" fill=\"blue\" stroke-width=\"1\"/>\n");
    proof {
        assert(out@ =~= old(out)@ + point_text(x@, y@));
    }
}

/// Appends the markup of one connecting segment.
fn push_segment(out: &mut String, x1: &str, x2: &str, y1: &str, y2: &str)
    ensures
        final(out)@ == old(out)@ + segment_text(x1@, x2@, y1@, y2@),
{
    out.append("<line x1=\"");
    out.append(x1);
    out.append("\" x2=\"");
    out.append(x2);
    out.append("\" y1=\"");
    out.append(y1);
    out.append("\" y2=\"");
    out.append(y2);
    out.append("\" stroke=\"black\" stroke-width=\"1\"/>\n");
    proof {
        assert(out@ =~= old(out)@ + segment_text(x1@, x2@, y1@, y2@));
    }
}

impl Collisions {
    /// Assembles the trajectory diagram from the recorded pairs and their
    /// formatted drawing-surface coordinates. The result is exactly the
    /// document [`document_text`] describes: the fixed header, then, pair
    /// by pair, one point and one connecting segment per collision event,
    /// then the closing tag.
    pub fn svg_document(&self, coords: &Vec<PairCoords>) -> (r: String)
        requires
            coords_match(self.pairs(), coords@),
        ensures
            r@ == document_text(self.pairs(), coords@),
    {
        let mut out = String::new();
        out.append(
            "<svg width=\"1400\" height=\"1400\" version=\"1.1\" xmlns=\"http://www.w3.org/2000/svg\">\n",
        );
        out.append("<style>\n");
        out.append(".text { font-weight: bold; font-size: 20px; font-family: sans-serif; }\n");
        out.append("</style>\n");
        out.append("<rect width=\"100%\" height=\"100%\" fill=\"white\"/>\n");
        out.append(
            "<circle cx=\"700\" cy=\"700\" r=\"500\" stroke=\"red\" fill=\"transparent\" stroke-width=\"3\"/>\n",
        );
        out.append(
            "<line x1=\"700\" x2=\"700\" y1=\"50\" y2=\"1350\" stroke=\"orange\" stroke-width=\"5\"/>\n",
        );
        out.append(
            "<text x=\"700\" y=\"25\" text-anchor=\"middle\" dominant-baseline=\"middle\" class=\"text\">sqrt(m_b) * v_b</text>\n",
        );
        out.append(
            "<line x1=\"50\" x2=\"1350\" y1=\"700\" y2=\"700\" stroke=\"orange\" stroke-width=\"5\"/>\n",
        );
        out.append(
            "<text x=\"1300\" y=\"690\" text-anchor=\"middle\" class=\"text\">sqrt(m_s) * v_s</text>\n",
        );
        proof {
            assert(out@ =~= header_text());
        }

        let mut last_x = String::new();
        last_x.append("700");
        let mut last_y = String::new();
        last_y.append("200");
        proof {
            assert(last_x@ =~= initial_x_text());
            assert(last_y@ =~= initial_y_text());
            assert(self.pairs().skip(0) =~= self.pairs());
            assert(coords@.skip(0) =~= coords@);
        }

        let n = self.num_pairs();
        let mut i: usize = 0;
        while i < n
            invariant
                n == self.pairs().len(),
                i <= n,
                coords_match(self.pairs(), coords@),
                out@ + pairs_text(
                    self.pairs().skip(i as int),
                    coords@.skip(i as int),
                    last_x@,
                    last_y@,
                ) == header_text() + pairs_text(
                    self.pairs(),
                    coords@,
                    initial_x_text(),
                    initial_y_text(),
                ),
            decreases n - i,
        {
            let ghost prev_i = i as int;
            let ghost out_prev = out@;
            let ghost last_x_prev = last_x@;
            let ghost last_y_prev = last_y@;

            let p = self.pair_at(i);
            let c = &coords[i];
            proof {
                assert(*c == coords@[prev_i]);
                assert(c.x_wall is Some <==> p.v_small_after_wall_collision is Some);
            }

            push_point(&mut out, c.x_box.as_str(), c.y.as_str());
            push_segment(&mut out, last_x.as_str(), c.x_box.as_str(), last_y.as_str(), c.y.as_str());
            match &c.x_wall {
                Some(x_wall) => {
                    push_point(&mut out, x_wall.as_str(), c.y.as_str());
                    push_segment(&mut out, c.x_box.as_str(), x_wall.as_str(), c.y.as_str(), c.y.as_str());
                    last_x = x_wall.clone();
                    last_y = c.y.clone();
                },
                None => {},
            }
            i = i + 1;

            proof {
                assert(out@ =~= out_prev + pair_text(p, *c, last_x_prev, last_y_prev));
                assert(last_x@ == next_last_x(p, *c, last_x_prev));
                assert(last_y@ == next_last_y(p, *c, last_y_prev));
                assert(self.pairs().skip(prev_i).drop_first() =~= self.pairs().skip(prev_i + 1));
                assert(coords@.skip(prev_i).drop_first() =~= coords@.skip(prev_i + 1));
                assert(self.pairs().skip(prev_i)[0] == self.pairs()[prev_i]);
                assert(coords@.skip(prev_i)[0] == coords@[prev_i]);
                assert(pairs_text(
                    self.pairs().skip(prev_i),
                    coords@.skip(prev_i),
                    last_x_prev,
                    last_y_prev,
                ) == pair_text(p, *c, last_x_prev, last_y_prev) + pairs_text(
                    self.pairs().skip(prev_i + 1),
                    coords@.skip(prev_i + 1),
                    last_x@,
                    last_y@,
                ));
                assert(out@ + pairs_text(
                    self.pairs().skip(prev_i + 1),
                    coords@.skip(prev_i + 1),
                    last_x@,
                    last_y@,
                ) =~= out_prev + pairs_text(
                    self.pairs().skip(prev_i),
                    coords@.skip(prev_i),
                    last_x_prev,
                    last_y_prev,
                ));
            }
        }

        proof {
            assert(self.pairs().skip(n as int) =~= Seq::<CollisionPair>::empty());
            assert(out@ =~= header_text() + pairs_text(
                self.pairs(),
                coords@,
                initial_x_text(),
                initial_y_text(),
            ));
        }
        out.append("</svg>\n");
        proof {
            assert(out@ =~= document_text(self.pairs(), coords@));
        }
        out
    }
}

/// Diagram round trip: each pair's markup holds one plotted point and one
/// connecting segment per collision event it records ([`pair_text`] draws
/// the box-collision point and its segment always, and the reflected
/// point and its segment exactly when the wall collision is present), so
/// the diagram of a finished sequence holds exactly `count()` points and
/// `count()` segments.
pub proof fn lemma_diagram_round_trip(c: Collisions)
    requires
        c.wf(),
        c.pairs().len() >= 1,
    ensures
        total_events(c.pairs()) == c.count_spec(),
{
    lemma_all_but_last_have_wall(c);
    assert forall|i: int|
        0 <= i < c.pairs().drop_last().len() implies c.pairs().drop_last()[i].v_small_after_wall_collision is Some by {
        assert(c.pairs().drop_last()[i] == c.pairs()[i]);
    }
    lemma_total_events_when_all_have_wall(c.pairs().drop_last());
}

} // verus!
