//! Labels shortened to a column width.

use vstd::prelude::*;

verus! {

/// Whether `label` is what `fit` makes of `text` for `width` columns.
pub open spec fn fitted<F: Fn(&String, usize) -> String>(
    fit: &F,
    text: Seq<char>,
    width: usize,
    label: Seq<char>,
) -> bool {
    exists|input: String, output: String|
        input@ == text && output@ == label && #[trigger] fit.ensures((&input, width), output)
}

/// Whether `fit` accepts every text and width.
pub open spec fn fits_anything<F: Fn(&String, usize) -> String>(fit: &F) -> bool {
    forall|input: &String, width: usize| #[trigger] fit.requires((input, width))
}

/// Shortens `text` with `fit`.
pub fn fit_label<F: Fn(&String, usize) -> String>(fit: &F, text: &String, width: usize) -> (label:
    String)
    requires
        fits_anything(fit),
    ensures
        fitted(fit, text@, width, label@),
{
    let label: String = fit(text, width);
    assert(fit.ensures((text, width), label));
    label
}

} // verus!
