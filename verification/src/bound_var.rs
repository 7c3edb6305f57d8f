//! Variables that refer to a binder by counting the binders in between.
//!
//! The arithmetic on them is that of `chalk_ir`; the functions at the end of this file hand
//! it plain numbers and state what comes back.

use vstd::prelude::*;

verus! {

/// A binder, by the number of binders that stand between it and the place of use.
#[derive(Clone, Copy, PartialEq, Eq, Structural, Debug, Hash)]
pub struct DebruijnIndex {
    pub depth: u32,
}

/// The `index`-th variable of a binder.
#[derive(Clone, Copy, PartialEq, Eq, Structural, Debug, Hash)]
pub struct BoundVar {
    pub debruijn: DebruijnIndex,
    pub index: usize,
}

impl DebruijnIndex {
    /// The binder closest to the place of use.
    pub fn innermost() -> (binder: DebruijnIndex)
        ensures
            binder == (DebruijnIndex { depth: 0 }),
    {
        DebruijnIndex { depth: innermost_depth() }
    }

    /// The binder just outside the innermost one.
    pub fn one() -> (binder: DebruijnIndex)
        ensures
            binder == (DebruijnIndex { depth: 1 }),
    {
        DebruijnIndex { depth: one_depth() }
    }

    /// This binder, seen from inside one more binder.
    pub fn shifted_in(self) -> (binder: DebruijnIndex)
        requires
            self.depth < u32::MAX,
        ensures
            binder.depth == self.depth + 1,
    {
        DebruijnIndex { depth: shifted_in_depth(self.depth) }
    }
}

impl BoundVar {
    pub fn new(debruijn: DebruijnIndex, index: usize) -> (var: BoundVar)
        ensures
            var == (BoundVar { debruijn, index }),
    {
        BoundVar { debruijn, index }
    }

    /// This variable, which is valid at `outer_binder`, as it is written at the innermost
    /// binder.
    pub fn shifted_in_from(self, outer_binder: DebruijnIndex) -> (var: BoundVar)
        requires
            self.debruijn.depth + outer_binder.depth <= u32::MAX,
        ensures
            var.debruijn.depth == self.debruijn.depth + outer_binder.depth,
            var.index == self.index,
    {
        let (depth, index) = var_shifted_in_from(
            self.debruijn.depth,
            self.index,
            outer_binder.depth,
        );
        BoundVar { debruijn: DebruijnIndex { depth }, index }
    }

    /// This variable as it is written at `outer_binder`; there is none if it belongs to a
    /// binder inside that one.
    pub fn shifted_out_to(self, outer_binder: DebruijnIndex) -> (var: Option<BoundVar>)
        ensures
            var is Some <==> self.debruijn.depth >= outer_binder.depth,
            var matches Some(v) ==> v.debruijn.depth == self.debruijn.depth - outer_binder.depth
                && v.index == self.index,
    {
        match var_shifted_out_to(self.debruijn.depth, self.index, outer_binder.depth) {
            Some((depth, index)) => Some(BoundVar { debruijn: DebruijnIndex { depth }, index }),
            None => None,
        }
    }
}

/// The depth of `chalk_ir::DebruijnIndex::INNERMOST`, which is zero.
#[verifier::external_body]
fn innermost_depth() -> (depth: u32)
    ensures
        depth == 0,
{
    chalk_ir::DebruijnIndex::INNERMOST.depth()
}

/// The depth of `chalk_ir::DebruijnIndex::ONE`, which is one.
#[verifier::external_body]
fn one_depth() -> (depth: u32)
    ensures
        depth == 1,
{
    chalk_ir::DebruijnIndex::ONE.depth()
}

/// `chalk_ir::DebruijnIndex::shifted_in` adds one to the depth; the sum has to fit.
#[verifier::external_body]
fn shifted_in_depth(depth: u32) -> (shifted: u32)
    requires
        depth < u32::MAX,
    ensures
        shifted == depth + 1,
{
    chalk_ir::DebruijnIndex::new(depth).shifted_in().depth()
}

/// `chalk_ir::BoundVar::shifted_in_from` adds the depth of the outer binder to that of the
/// variable and keeps the position; the sum has to fit.
#[verifier::external_body]
fn var_shifted_in_from(depth: u32, index: usize, outer_depth: u32) -> (var: (u32, usize))
    requires
        depth + outer_depth <= u32::MAX,
    ensures
        var.0 == depth + outer_depth,
        var.1 == index,
{
    let var = chalk_ir::BoundVar::new(chalk_ir::DebruijnIndex::new(depth), index);
    let shifted = var.shifted_in_from(chalk_ir::DebruijnIndex::new(outer_depth));
    (shifted.debruijn.depth(), shifted.index)
}

/// `chalk_ir::BoundVar::shifted_out_to` takes the depth of the outer binder off that of the
/// variable and keeps the position; it gives nothing where the variable is inside that binder.
#[verifier::external_body]
fn var_shifted_out_to(depth: u32, index: usize, outer_depth: u32) -> (var: Option<(u32, usize)>)
    ensures
        var == (if depth >= outer_depth {
            Some(((depth - outer_depth) as u32, index))
        } else {
            None
        }),
{
    let var = chalk_ir::BoundVar::new(chalk_ir::DebruijnIndex::new(depth), index);
    let shifted = var.shifted_out_to(chalk_ir::DebruijnIndex::new(outer_depth));
    shifted.map(|v| (v.debruijn.depth(), v.index))
}

} // verus!
