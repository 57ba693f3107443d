//! Small verified domain models.
//!
//! The core is a calendar date (`fecha`) with validity, leap years, day
//! arithmetic and ordering, and its laws over day numbers (`numero_de_dia`).
//! Around it: primality (`primos`), a rectangle (`rectangulo`), a person
//! (`persona`), a lending library (`biblioteca`), a playlist (`playlist`), a
//! veterinary clinic (`veterinaria`) and subscription tiers
//! (`suscripciones`). `secuencias` and `texto` hold what they share.

pub mod fecha;
pub mod numero_de_dia;
pub mod primos;
pub mod rectangulo;
pub mod texto;
pub mod persona;
pub mod secuencias;
pub mod biblioteca;
pub mod playlist;
pub mod veterinaria;
pub mod suscripciones;
