//! A rectangle with integer sides.

use vstd::prelude::*;

verus! {

pub struct Rectangulo {
    pub longitud: u32,
    pub ancho: u32,
}

/// Area of a rectangle with the given sides.
pub open spec fn area_spec(longitud: int, ancho: int) -> int {
    longitud * ancho
}

/// Perimeter of a rectangle with the given sides.
pub open spec fn perimetro_spec(longitud: int, ancho: int) -> int {
    2 * (longitud + ancho)
}

impl Rectangulo {
    pub fn new(longitud: u32, ancho: u32) -> (r: Rectangulo)
        ensures
            r.longitud == longitud,
            r.ancho == ancho,
    {
        Rectangulo { longitud, ancho }
    }

    /// The area; it has to fit in a `u32`.
    pub fn calcular_area(&self) -> (a: u32)
        requires
            area_spec(self.longitud as int, self.ancho as int) <= u32::MAX,
        ensures
            a == area_spec(self.longitud as int, self.ancho as int),
    {
        self.longitud * self.ancho
    }

    /// The perimeter; twice each side, and their sum, have to fit in a `u32`.
    pub fn calcular_perimetro(&self) -> (p: u32)
        requires
            perimetro_spec(self.longitud as int, self.ancho as int) <= u32::MAX,
        ensures
            p == perimetro_spec(self.longitud as int, self.ancho as int),
    {
        2 * self.longitud + 2 * self.ancho
    }

    /// Whether both sides are equal.
    pub fn es_cuadrado(&self) -> (r: bool)
        ensures
            r == (self.longitud == self.ancho),
    {
        self.longitud == self.ancho
    }
}

} // verus!
