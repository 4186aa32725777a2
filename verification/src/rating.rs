//! Giving each of a list of things its rating.
use vstd::prelude::*;

verus! {

/// Something that waits for a rating, and what it becomes with one.
pub trait Ratable: Sized {
    type Rating;

    type Rated;

    /// Whether `rated` is this thing with this rating.
    spec fn becomes(&self, rating: &Self::Rating, rated: &Self::Rated) -> bool;

    /// This thing with its rating.
    fn with_rating(self, rating: &Self::Rating) -> (r: Self::Rated)
        ensures
            self.becomes(rating, &r),
    ;
}

/// Gives each thing the rating in its place.
pub(crate) fn rate_all<T: Ratable>(items: Vec<T>, ratings: &Vec<T::Rating>) -> (r: Vec<T::Rated>)
    requires
        items.len() == ratings.len(),
    ensures
        r.len() == items.len(),
        forall|i: int|
            0 <= i < r.len() ==> items@[i].becomes(&ratings@[i], #[trigger] &r@[i]),
{
    let ghost all = items@;
    let mut rest = items;
    let mut backwards: Vec<T::Rated> = Vec::new();
    while rest.len() > 0
        invariant
            rest.len() <= ratings.len(),
            all.len() == ratings.len(),
            rest@ =~= all.take(rest@.len() as int),
            backwards.len() == ratings.len() - rest.len(),
            forall|k: int|
                0 <= k < backwards.len() ==> all[ratings.len() - 1 - k].becomes(
                    &ratings@[ratings.len() - 1 - k],
                    #[trigger] &backwards@[k],
                ),
        decreases rest.len(),
    {
        if let Some(last) = rest.pop() {
            let i: usize = rest.len();
            assert(all[i as int] == last);
            backwards.push(last.with_rating(&ratings[i]));
        }
    }
    let mut out: Vec<T::Rated> = Vec::new();
    while backwards.len() > 0
        invariant
            backwards.len() <= ratings.len(),
            all.len() == ratings.len(),
            out.len() == ratings.len() - backwards.len(),
            forall|k: int|
                0 <= k < backwards.len() ==> all[ratings.len() - 1 - k].becomes(
                    &ratings@[ratings.len() - 1 - k],
                    #[trigger] &backwards@[k],
                ),
            forall|k: int| 0 <= k < out.len() ==> all[k].becomes(&ratings@[k], #[trigger] &out@[k]),
        decreases backwards.len(),
    {
        if let Some(next) = backwards.pop() {
            out.push(next);
        }
    }
    out
}

} // verus!
