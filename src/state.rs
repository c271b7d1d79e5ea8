//! Field triples of the fluid model (primitive state, conserved state, metric)
//! and the decisions on which the primitive-to-conserved transform fails.
use crate::field::{is_constant, is_square, Field, ShapeError};
use vstd::prelude::*;

verus! {

/// The physical quantity whose constraint a cell violates.
#[derive(Clone, Copy, Debug, PartialEq, Eq, Structural)]
pub enum Quantity {
    /// The enthalpy lies below the equation of state's lower limit, so the
    /// base of the fractional power is negative.
    MassDensity,
    /// The radicand of the sound speed is negative.
    SoundSpeed,
    /// The metric-weighted squared speed is at least one (superluminal cell).
    LorentzFactor,
    /// The metric determinant is not positive.
    VolumeFactor,
}

/// A cell whose values violate the constraint of a quantity.
#[derive(Clone, Copy, Debug, PartialEq, Eq, Structural)]
pub struct DomainError {
    pub quantity: Quantity,
    pub row: usize,
    pub col: usize,
}

/// Failure of an operation of the fluid model.
#[derive(Clone, Copy, Debug, PartialEq, Eq, Structural)]
pub enum FluidError {
    Shape(ShapeError),
    Domain(DomainError),
}

/// Cell `row`, `col` is the first cell in row-major order whose flag is false.
pub open spec fn is_first_violation(ok: Seq<Seq<bool>>, row: int, col: int) -> bool {
    &&& 0 <= row < ok.len()
    &&& 0 <= col < ok[row].len()
    &&& !ok[row][col]
    &&& forall|r: int, c: int|
        0 <= r < ok.len() && 0 <= c < ok[r].len() && (r < row || (r == row && c < col)) ==> #[trigger] ok[r][c]
}

/// `e` names `quantity` and the first cell whose flag in `ok` is false.
pub open spec fn reports(e: DomainError, quantity: Quantity, ok: Seq<Seq<bool>>) -> bool {
    e.quantity == quantity && is_first_violation(ok, e.row as int, e.col as int)
}

/// The first cell, in row-major order, whose flag is false; `None` when every
/// flag holds.
pub fn first_violation(ok: &Field<bool>) -> (r: Option<(usize, usize)>)
    requires
        ok.wf(),
    ensures
        r is None <==> is_constant(ok@, true),
        r matches Some((row, col)) ==> is_first_violation(ok@, row as int, col as int),
{
    let n = ok.size();
    let mut row: usize = 0;
    while row < n
        invariant
            ok.wf(),
            n == ok@.len(),
            row <= n,
            forall|r: int, c: int| 0 <= r < row && 0 <= c < n ==> #[trigger] ok@[r][c],
        decreases n - row,
    {
        let mut col: usize = 0;
        while col < n
            invariant
                ok.wf(),
                n == ok@.len(),
                row < n,
                col <= n,
                forall|r: int, c: int| 0 <= r < row && 0 <= c < n ==> #[trigger] ok@[r][c],
                forall|c: int| 0 <= c < col ==> #[trigger] ok@[row as int][c],
            decreases n - col,
        {
            if !ok.get(row, col) {
                assert(ok@[row as int].len() == n);
                assert forall|r: int, c: int|
                    0 <= r < ok@.len() && 0 <= c < ok@[r].len() && (r < row || (r == row && c < col)) implies #[trigger] ok@[r][c] by {
                    assert(ok@[r].len() == n);
                }
                return Some((row, col));
            }
            col = col + 1;
        }
        row = row + 1;
    }
    assert forall|r: int, c: int| 0 <= r < ok@.len() && 0 <= c < ok@[r].len() implies #[trigger] ok@[r][c] by {
        assert(ok@[r].len() == n);
    }
    None
}

/// Fails, naming `quantity` and the first offending cell, unless every flag holds.
pub fn check_quantity(ok: &Field<bool>, quantity: Quantity) -> (r: Result<(), DomainError>)
    requires
        ok.wf(),
    ensures
        r is Ok <==> is_constant(ok@, true),
        r matches Err(e) ==> reports(e, quantity, ok@),
{
    match first_violation(ok) {
        None => Ok(()),
        Some((row, col)) => Err(DomainError { quantity, row, col }),
    }
}

/// The domain decision of the primitive-to-conserved transform. It takes, per
/// cell, whether the velocity is subluminal, whether the mass density is
/// defined, and whether the metric determinant is positive, and checks them in
/// that order: the first quantity with an offending cell is reported.
pub fn check_conversion(
    subluminal: &Field<bool>,
    density_defined: &Field<bool>,
    metric_regular: &Field<bool>,
) -> (r: Result<(), DomainError>)
    requires
        subluminal.wf(),
        density_defined.wf(),
        metric_regular.wf(),
    ensures
        r is Ok <==> is_constant(subluminal@, true) && is_constant(density_defined@, true)
            && is_constant(metric_regular@, true),
        r matches Err(e) ==> {
            ||| reports(e, Quantity::LorentzFactor, subluminal@)
            ||| is_constant(subluminal@, true) && reports(e, Quantity::MassDensity, density_defined@)
            ||| is_constant(subluminal@, true) && is_constant(density_defined@, true)
                && reports(e, Quantity::VolumeFactor, metric_regular@)
        },
{
    check_quantity(subluminal, Quantity::LorentzFactor)?;
    check_quantity(density_defined, Quantity::MassDensity)?;
    check_quantity(metric_regular, Quantity::VolumeFactor)
}

/// Three fields of one size, as the metric and the fluid states are made of.
pub open spec fn same_grid<T>(a: Seq<Seq<T>>, b: Seq<Seq<T>>, c: Seq<Seq<T>>) -> bool {
    is_square(a) && is_square(b) && is_square(c) && b.len() == a.len() && c.len() == a.len()
}

/// Fails unless `b` and `c` have the size of `a`, naming the first that differs.
fn check_triple<T: Copy>(a: &Field<T>, b: &Field<T>, c: &Field<T>) -> (r: Result<(), ShapeError>)
    requires
        a.wf(),
        b.wf(),
        c.wf(),
    ensures
        r is Ok <==> same_grid(a@, b@, c@),
        r matches Err(e) ==> {
            ||| b@.len() != a@.len() && e == (ShapeError::SizeMismatch { expected: a@.len() as usize, found: b@.len() as usize })
            ||| b@.len() == a@.len() && c@.len() != a@.len()
                && e == (ShapeError::SizeMismatch { expected: a@.len() as usize, found: c@.len() as usize })
        },
{
    let n = a.size();
    b.check_size(n)?;
    c.check_size(n)
}

/// The primitive state: specific enthalpy and the two velocity components.
pub struct Primitive<T> {
    enthalpy: Field<T>,
    vx: Field<T>,
    vy: Field<T>,
}

impl<T: Copy> Primitive<T> {
    pub closed spec fn enthalpy_view(&self) -> Seq<Seq<T>> {
        self.enthalpy@
    }

    pub closed spec fn vx_view(&self) -> Seq<Seq<T>> {
        self.vx@
    }

    pub closed spec fn vy_view(&self) -> Seq<Seq<T>> {
        self.vy@
    }

    /// The three fields share one square grid.
    pub open spec fn wf(&self) -> bool {
        same_grid(self.enthalpy_view(), self.vx_view(), self.vy_view())
    }

    /// Groups three fields of one size; fails on the first velocity field whose
    /// size differs from the enthalpy's.
    pub fn new(enthalpy: Field<T>, vx: Field<T>, vy: Field<T>) -> (r: Result<Primitive<T>, ShapeError>)
        requires
            enthalpy.wf(),
            vx.wf(),
            vy.wf(),
        ensures
            r is Ok <==> same_grid(enthalpy@, vx@, vy@),
            r matches Ok(p) ==> p.wf() && p.enthalpy_view() == enthalpy@ && p.vx_view() == vx@ && p.vy_view() == vy@,
            r matches Err(e) ==> {
                ||| vx@.len() != enthalpy@.len()
                    && e == (ShapeError::SizeMismatch { expected: enthalpy@.len() as usize, found: vx@.len() as usize })
                ||| vx@.len() == enthalpy@.len() && vy@.len() != enthalpy@.len()
                    && e == (ShapeError::SizeMismatch { expected: enthalpy@.len() as usize, found: vy@.len() as usize })
            },
    {
        check_triple(&enthalpy, &vx, &vy)?;
        Ok(Primitive { enthalpy, vx, vy })
    }

    /// The number of rows (and columns) of the grid.
    pub fn size(&self) -> (r: usize)
        ensures
            r == self.enthalpy_view().len(),
    {
        self.enthalpy.size()
    }

    /// The specific enthalpy field.
    pub fn enthalpy(&self) -> (r: &Field<T>)
        ensures
            r@ == self.enthalpy_view(),
    {
        &self.enthalpy
    }

    /// The velocity component along X.
    pub fn vx(&self) -> (r: &Field<T>)
        ensures
            r@ == self.vx_view(),
    {
        &self.vx
    }

    /// The velocity component along Y.
    pub fn vy(&self) -> (r: &Field<T>)
        ensures
            r@ == self.vy_view(),
    {
        &self.vy
    }

    /// Fails unless the metric lives on the grid of this state.
    pub fn check_metric(&self, metric: &Metric<T>) -> (r: Result<(), ShapeError>)
        requires
            self.wf(),
            metric.wf(),
        ensures
            r is Ok <==> metric.gxx_view().len() == self.enthalpy_view().len(),
            r matches Err(e) ==> e == (ShapeError::SizeMismatch {
                expected: self.enthalpy_view().len() as usize,
                found: metric.gxx_view().len() as usize,
            }),
    {
        metric.gxx.check_size(self.enthalpy.size())
    }
}

/// The conserved state: densitized rest-mass density and the two momentum densities.
pub struct Conserved<T> {
    density: Field<T>,
    sx: Field<T>,
    sy: Field<T>,
}

impl<T: Copy> Conserved<T> {
    pub closed spec fn density_view(&self) -> Seq<Seq<T>> {
        self.density@
    }

    pub closed spec fn sx_view(&self) -> Seq<Seq<T>> {
        self.sx@
    }

    pub closed spec fn sy_view(&self) -> Seq<Seq<T>> {
        self.sy@
    }

    /// The three fields share one square grid.
    pub open spec fn wf(&self) -> bool {
        same_grid(self.density_view(), self.sx_view(), self.sy_view())
    }

    /// Groups three fields of one size; fails on the first momentum field whose
    /// size differs from the density's.
    pub fn new(density: Field<T>, sx: Field<T>, sy: Field<T>) -> (r: Result<Conserved<T>, ShapeError>)
        requires
            density.wf(),
            sx.wf(),
            sy.wf(),
        ensures
            r is Ok <==> same_grid(density@, sx@, sy@),
            r matches Ok(s) ==> s.wf() && s.density_view() == density@ && s.sx_view() == sx@ && s.sy_view() == sy@,
            r matches Err(e) ==> {
                ||| sx@.len() != density@.len()
                    && e == (ShapeError::SizeMismatch { expected: density@.len() as usize, found: sx@.len() as usize })
                ||| sx@.len() == density@.len() && sy@.len() != density@.len()
                    && e == (ShapeError::SizeMismatch { expected: density@.len() as usize, found: sy@.len() as usize })
            },
    {
        check_triple(&density, &sx, &sy)?;
        Ok(Conserved { density, sx, sy })
    }

    /// The densitized rest-mass density.
    pub fn density(&self) -> (r: &Field<T>)
        ensures
            r@ == self.density_view(),
    {
        &self.density
    }

    /// The momentum density along X.
    pub fn sx(&self) -> (r: &Field<T>)
        ensures
            r@ == self.sx_view(),
    {
        &self.sx
    }

    /// The momentum density along Y.
    pub fn sy(&self) -> (r: &Field<T>)
        ensures
            r@ == self.sy_view(),
    {
        &self.sy
    }
}

/// The symmetric spatial metric: its XX, XY and YY components.
pub struct Metric<T> {
    gxx: Field<T>,
    gxy: Field<T>,
    gyy: Field<T>,
}

impl<T: Copy> Metric<T> {
    pub closed spec fn gxx_view(&self) -> Seq<Seq<T>> {
        self.gxx@
    }

    pub closed spec fn gxy_view(&self) -> Seq<Seq<T>> {
        self.gxy@
    }

    pub closed spec fn gyy_view(&self) -> Seq<Seq<T>> {
        self.gyy@
    }

    /// The three components share one square grid.
    pub open spec fn wf(&self) -> bool {
        same_grid(self.gxx_view(), self.gxy_view(), self.gyy_view())
    }

    /// Groups three components of one size; fails on the first component whose
    /// size differs from the XX component's.
    pub fn new(gxx: Field<T>, gxy: Field<T>, gyy: Field<T>) -> (r: Result<Metric<T>, ShapeError>)
        requires
            gxx.wf(),
            gxy.wf(),
            gyy.wf(),
        ensures
            r is Ok <==> same_grid(gxx@, gxy@, gyy@),
            r matches Ok(g) ==> g.wf() && g.gxx_view() == gxx@ && g.gxy_view() == gxy@ && g.gyy_view() == gyy@,
            r matches Err(e) ==> {
                ||| gxy@.len() != gxx@.len()
                    && e == (ShapeError::SizeMismatch { expected: gxx@.len() as usize, found: gxy@.len() as usize })
                ||| gxy@.len() == gxx@.len() && gyy@.len() != gxx@.len()
                    && e == (ShapeError::SizeMismatch { expected: gxx@.len() as usize, found: gyy@.len() as usize })
            },
    {
        check_triple(&gxx, &gxy, &gyy)?;
        Ok(Metric { gxx, gxy, gyy })
    }

    /// The XX component.
    pub fn gxx(&self) -> (r: &Field<T>)
        ensures
            r@ == self.gxx_view(),
    {
        &self.gxx
    }

    /// The XY component.
    pub fn gxy(&self) -> (r: &Field<T>)
        ensures
            r@ == self.gxy_view(),
    {
        &self.gxy
    }

    /// The YY component.
    pub fn gyy(&self) -> (r: &Field<T>)
        ensures
            r@ == self.gyy_view(),
    {
        &self.gyy
    }
}

} // verus!
