//! Shared pieces of the command compiler: the outcome model, argument
//! lookups, and envelope builders.
use vstd::prelude::*;
use crate::envelope::{Envelope, EnvelopeModel, bare, with, text};
use crate::error::{ParseError, ParseErrorModel};
use crate::text::{views, str_eq};

verus! {

/// The model of a compile result.
pub open spec fn outcome(r: Result<Envelope, ParseError>) -> Result<EnvelopeModel, ParseErrorModel> {
    match r {
        Ok(e) => Ok(e@),
        Err(x) => Err(x@),
    }
}

pub type Outcome = Result<EnvelopeModel, ParseErrorModel>;

/// An envelope with one text field.
pub open spec fn env1(id: Seq<char>, action: Seq<char>, k: Seq<char>, v: Seq<char>) -> EnvelopeModel {
    with(bare(id, action), k, text(v))
}

/// An envelope with two text fields.
pub open spec fn env2(
    id: Seq<char>,
    action: Seq<char>,
    k1: Seq<char>,
    v1: Seq<char>,
    k2: Seq<char>,
    v2: Seq<char>,
) -> EnvelopeModel {
    with(env1(id, action, k1, v1), k2, text(v2))
}

/// Index of the first argument equal to `x` or `y`, or the length where
/// there is none.
pub open spec fn pos_of(r: Seq<Seq<char>>, x: Seq<char>, y: Seq<char>) -> int
    decreases r.len(),
{
    if r.len() == 0 {
        0
    } else if r[0] == x || r[0] == y {
        0
    } else {
        1 + pos_of(r.drop_first(), x, y)
    }
}

proof fn lemma_pos_of(r: Seq<Seq<char>>, x: Seq<char>, y: Seq<char>, i: int)
    requires
        0 <= i <= r.len(),
        forall|j: int| 0 <= j < i ==> r[j] != x && r[j] != y,
        i == r.len() || r[i] == x || r[i] == y,
    ensures
        pos_of(r, x, y) == i,
    decreases r.len(),
{
    if r.len() > 0 && i > 0 {
        let t = r.drop_first();
        assert forall|j: int| 0 <= j < i - 1 implies t[j] != x && t[j] != y by {
            assert(t[j] == r[j + 1]);
        }
        lemma_pos_of(t, x, y, i - 1);
    }
}

/// The index of the first argument equal to `x` or `y` (the length where
/// there is none).
pub fn find_pos(rest: &Vec<String>, x: &str, y: &str) -> (r: usize)
    ensures
        r as int == pos_of(views(rest@), x@, y@),
        r <= rest@.len(),
{
    let n = rest.len();
    let mut i: usize = 0;
    while i < n
        invariant
            n == rest@.len(),
            i <= n,
            forall|j: int| 0 <= j < i ==> rest@[j]@ != x@ && rest@[j]@ != y@,
        decreases n - i,
    {
        let t = rest[i].as_str();
        if str_eq(t, x) || str_eq(t, y) {
            proof {
                lemma_pos_of(views(rest@), x@, y@, i as int);
            }
            return i;
        }
        i += 1;
    }
    proof {
        lemma_pos_of(views(rest@), x@, y@, n as int);
    }
    n
}

/// Whether some argument equals `x`.
pub fn has_arg(rest: &Vec<String>, x: &str) -> (r: bool)
    ensures
        r == views(rest@).contains(x@),
{
    let p = find_pos(rest, x, x);
    proof {
        let v = views(rest@);
        lemma_pos_of_contains(v, x@);
    }
    p < rest.len()
}

proof fn lemma_pos_of_contains(r: Seq<Seq<char>>, x: Seq<char>)
    ensures
        (pos_of(r, x, x) < r.len()) == r.contains(x),
        pos_of(r, x, x) <= r.len(),
    decreases r.len(),
{
    if r.len() > 0 {
        lemma_pos_of_contains(r.drop_first(), x);
        if r[0] != x {
            if r.drop_first().contains(x) {
                let j = choose|j: int| 0 <= j < r.drop_first().len() && r.drop_first()[j] == x;
                assert(r[j + 1] == x);
            }
            if r.contains(x) {
                let j = choose|j: int| 0 <= j < r.len() && r[j] == x;
                assert(r.drop_first()[j - 1] == x);
            }
        } else {
            assert(r[0] == x);
        }
    }
}

/// An envelope with one text field.
pub fn make1(id: &str, action: &str, k: &str, v: &str) -> (e: Envelope)
    ensures
        e@ == env1(id@, action@, k@, v@),
{
    let mut e = Envelope::new(id, action);
    e.set_text(k, v);
    e
}

/// An envelope with two text fields.
pub fn make2(id: &str, action: &str, k1: &str, v1: &str, k2: &str, v2: &str) -> (e: Envelope)
    ensures
        e@ == env2(id@, action@, k1@, v1@, k2@, v2@),
{
    let mut e = make1(id, action, k1, v1);
    e.set_text(k2, v2);
    e
}

} // verus!
