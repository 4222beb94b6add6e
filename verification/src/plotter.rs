//! Data handed to the price plots.
use vstd::prelude::*;

verus! {

/// How a series is drawn.
#[derive(Clone, Copy, Debug, PartialEq, Eq)]
pub enum PlotType {
    Scatter,
    Line,
    Bar,
}

/// Why plot data could not be put together.
#[derive(Clone, Copy, Debug, PartialEq, Eq)]
pub enum PlotError {
    /// The x and y series have different lengths.
    LengthMismatch,
}

impl PlotError {
    /// The error's message.
    pub fn message(&self) -> (s: &'static str)
        ensures
            s@ == "Input vectors must have the same length"@,
    {
        match self {
            PlotError::LengthMismatch => "Input vectors must have the same length",
        }
    }
}

/// Paired x and y values of one plot.
pub struct PlotData<X, Y> {
    x: Vec<X>,
    y: Vec<Y>,
}

impl<X, Y> PlotData<X, Y> {
    pub closed spec fn xs(&self) -> Seq<X> {
        self.x@
    }

    pub closed spec fn ys(&self) -> Seq<Y> {
        self.y@
    }

    /// Pairs the two series; they must be equally long.
    pub fn new(x: Vec<X>, y: Vec<Y>) -> (r: Result<PlotData<X, Y>, PlotError>)
        ensures
            x@.len() == y@.len() ==> (r matches Ok(d) && d.xs() == x@ && d.ys() == y@),
            x@.len() != y@.len() ==> r == Err::<PlotData<X, Y>, PlotError>(PlotError::LengthMismatch),
    {
        if x.len() != y.len() {
            return Err(PlotError::LengthMismatch);
        }
        Ok(PlotData { x, y })
    }

    /// The x values.
    pub fn x(&self) -> (r: &Vec<X>)
        ensures
            r@ == self.xs(),
    {
        &self.x
    }

    /// The y values.
    pub fn y(&self) -> (r: &Vec<Y>)
        ensures
            r@ == self.ys(),
    {
        &self.y
    }

    /// Both series, as equally long as when they were paired.
    pub fn len(&self) -> (n: usize)
        ensures
            n == self.xs().len(),
    {
        self.x.len()
    }
}

} // verus!
