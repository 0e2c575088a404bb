use vstd::prelude::*;

use crate::translators::helpers::str_eq;

verus! {

/// True where some entry of a code list carries exactly this text.
pub open spec fn spec_has_code(ys: Seq<Seq<char>>, v: Seq<char>) -> bool {
    exists|j: int| 0 <= j < ys.len() && ys[j] == v
}

/// The codes of one list that the other lacks, in order.
pub open spec fn spec_missing(from: Seq<Seq<char>>, against: Seq<Seq<char>>) -> Seq<Seq<char>>
    decreases from.len(),
{
    if from.len() == 0 {
        Seq::empty()
    } else {
        spec_missing(from.drop_last(), against) + (if spec_has_code(against, from.last()) {
            Seq::empty()
        } else {
            seq![from.last()]
        })
    }
}

fn has_code(ys: &Vec<String>, v: &str) -> (r: bool)
    ensures
        r == spec_has_code(ys@.map_values(|s: String| s@), v@),
{
    let ghost yv = ys@.map_values(|s: String| s@);
    let mut j: usize = 0;
    while j < ys.len()
        invariant
            j <= ys@.len(),
            yv == ys@.map_values(|s: String| s@),
            forall|l: int| 0 <= l < j ==> #[trigger] yv[l] != v@,
        decreases ys@.len() - j,
    {
        if str_eq(ys[j].as_str(), v) {
            proof {
                assert(yv[j as int] == v@);
            }
            return true;
        }
        j += 1;
    }
    false
}

fn missing(from: &Vec<String>, against: &Vec<String>) -> (r: Vec<String>)
    ensures
        r@.map_values(|s: String| s@) == spec_missing(
            from@.map_values(|s: String| s@),
            against@.map_values(|s: String| s@),
        ),
{
    let ghost fv = from@.map_values(|s: String| s@);
    let ghost av = against@.map_values(|s: String| s@);
    let mut r: Vec<String> = Vec::new();
    let mut i: usize = 0;
    proof {
        assert(fv.take(0) =~= Seq::<Seq<char>>::empty());
    }
    while i < from.len()
        invariant
            i <= from@.len(),
            fv == from@.map_values(|s: String| s@),
            av == against@.map_values(|s: String| s@),
            r@.map_values(|s: String| s@) == spec_missing(fv.take(i as int), av),
        decreases from@.len() - i,
    {
        proof {
            assert(fv.take(i + 1).drop_last() =~= fv.take(i as int));
            assert(fv.take(i + 1).last() == fv[i as int]);
        }
        if !has_code(against, from[i].as_str()) {
            let ghost pre = r@.map_values(|s: String| s@);
            r.push(from[i].clone());
            proof {
                assert(r@.map_values(|s: String| s@) =~= pre + seq![fv[i as int]]);
            }
        } else {
            proof {
                assert(r@.map_values(|s: String| s@) + Seq::<Seq<char>>::empty() =~= r@.map_values(
                    |s: String| s@,
                ));
            }
        }
        i += 1;
    }
    proof {
        assert(fv.take(from@.len() as int) =~= fv);
    }
    r
}

/// Compares a provider's fetched language list against the codes the
/// library's table projects for it: first the fetched codes the table
/// lacks, then the table's codes the provider no longer offers.
/// Fetching the list is the embedding's part.
pub fn get_csv_errors(fetched: &Vec<String>, supported: &Vec<String>) -> (r: (
    Vec<String>,
    Vec<String>,
))
    ensures
        r.0@.map_values(|s: String| s@) == spec_missing(
            fetched@.map_values(|s: String| s@),
            supported@.map_values(|s: String| s@),
        ),
        r.1@.map_values(|s: String| s@) == spec_missing(
            supported@.map_values(|s: String| s@),
            fetched@.map_values(|s: String| s@),
        ),
{
    (missing(fetched, supported), missing(supported, fetched))
}

} // verus!
