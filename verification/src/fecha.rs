//! A calendar date (day, month, year) in the Gregorian calendar: validity,
//! leap years, day-by-day arithmetic and ordering.
//!
//! A `Fecha` stores its three fields verbatim. Nothing is validated at
//! construction; `es_fecha_valida` answers on demand.

use crate::numero_de_dia::{
    es_fecha_contable, lema_numero_al_restar, lema_numero_al_sumar, numero_de_dia,
};
use vstd::prelude::*;

verus! {

/// The mathematical value of a date: three unbounded integers.
pub struct FechaModelo {
    pub dia: int,
    pub mes: int,
    pub anio: int,
}

/// A year has 366 days iff it is divisible by 4 and not by 100, or divisible by 400.
pub open spec fn es_bisiesto_spec(anio: int) -> bool {
    (anio % 4 == 0 && anio % 100 != 0) || anio % 400 == 0
}

/// Number of days of a month; 0 for a month outside 1..=12.
pub open spec fn dias_del_mes(mes: int, anio: int) -> int {
    if mes == 1 || mes == 3 || mes == 5 || mes == 7 || mes == 8 || mes == 10 || mes == 12 {
        31
    } else if mes == 4 || mes == 6 || mes == 9 || mes == 11 {
        30
    } else if mes == 2 {
        if es_bisiesto_spec(anio) { 29 } else { 28 }
    } else {
        0
    }
}

/// A date is valid iff its month is in 1..=12 and its day is in 1..=days of that month.
pub open spec fn es_valida_spec(f: FechaModelo) -> bool {
    1 <= f.mes <= 12 && 1 <= f.dia <= dias_del_mes(f.mes, f.anio)
}

/// Strict lexicographic order by (year, month, day).
pub open spec fn es_mayor_spec(a: FechaModelo, b: FechaModelo) -> bool {
    a.anio > b.anio || (a.anio == b.anio && (a.mes > b.mes || (a.mes == b.mes && a.dia > b.dia)))
}

/// The date one unit increment later: the day goes up by one; where that
/// leaves the valid range, the day returns to 1 and the month goes up by one;
/// past December, the month returns to 1 and the year goes up by one.
pub open spec fn dia_siguiente(f: FechaModelo) -> FechaModelo {
    if es_valida_spec(FechaModelo { dia: f.dia + 1, mes: f.mes, anio: f.anio }) {
        FechaModelo { dia: f.dia + 1, mes: f.mes, anio: f.anio }
    } else if f.mes + 1 > 12 {
        FechaModelo { dia: 1, mes: 1, anio: f.anio + 1 }
    } else {
        FechaModelo { dia: 1, mes: f.mes + 1, anio: f.anio }
    }
}

/// The date one unit decrement earlier: a day above 1 goes down by one;
/// otherwise the date moves to the last day of the previous month, and from
/// January (or a month below it) to 31 December of the previous year. Where
/// the previous month is above 12 the day is left as it is.
pub open spec fn dia_anterior(f: FechaModelo) -> FechaModelo {
    if f.dia > 1 {
        FechaModelo { dia: f.dia - 1, mes: f.mes, anio: f.anio }
    } else if f.mes > 1 {
        FechaModelo {
            dia: if f.mes - 1 <= 12 { dias_del_mes(f.mes - 1, f.anio) } else { f.dia },
            mes: f.mes - 1,
            anio: f.anio,
        }
    } else {
        FechaModelo { dia: 31, mes: 12, anio: f.anio - 1 }
    }
}

/// `n` unit increments applied to `f`.
pub open spec fn sumar_dias_spec(f: FechaModelo, n: nat) -> FechaModelo
    decreases n,
{
    if n == 0 {
        f
    } else {
        dia_siguiente(sumar_dias_spec(f, (n - 1) as nat))
    }
}

/// `n` unit decrements applied to `f`.
pub open spec fn restar_dias_spec(f: FechaModelo, n: nat) -> FechaModelo
    decreases n,
{
    if n == 0 {
        f
    } else {
        dia_anterior(restar_dias_spec(f, (n - 1) as nat))
    }
}

#[derive(PartialEq, Eq, Debug, Structural)]
pub struct Fecha {
    pub dia: u32,
    pub mes: u32,
    pub anio: u32,
}

impl View for Fecha {
    type V = FechaModelo;

    open spec fn view(&self) -> FechaModelo {
        FechaModelo { dia: self.dia as int, mes: self.mes as int, anio: self.anio as int }
    }
}

/// The mathematical value of an optional date.
pub open spec fn fecha_opcional(f: Option<Fecha>) -> Option<FechaModelo> {
    match f {
        Some(f) => Some(f@),
        None => None,
    }
}

impl Clone for Fecha {
    fn clone(&self) -> (r: Fecha)
        ensures
            r == *self,
    {
        Fecha { dia: self.dia, mes: self.mes, anio: self.anio }
    }
}

impl Fecha {
    /// Stores the three fields as given; no validation.
    pub fn new(dia: u32, mes: u32, anio: u32) -> (f: Fecha)
        ensures
            f == (Fecha { dia, mes, anio }),
    {
        Fecha { dia, mes, anio }
    }

    /// Whether the day is in range for the month, February depending on the
    /// leap rule. The answer depends on the three fields alone, and the date
    /// is left as it is.
    pub fn es_fecha_valida(&self) -> (r: bool)
        ensures
            r == es_valida_spec(self@),
    {
        match self.mes {
            1 | 3 | 5 | 7 | 8 | 10 | 12 => self.dia > 0 && self.dia <= 31,
            4 | 6 | 9 | 11 => self.dia > 0 && self.dia <= 30,
            2 => {
                if self.dia > 0 {
                    if self.es_bisiesto() {
                        self.dia <= 29
                    } else {
                        self.dia <= 28
                    }
                } else {
                    false
                }
            },
            _ => false,
        }
    }

    /// Whether the date's year is a leap year. The answer depends on the
    /// year alone, and the date is left as it is.
    pub fn es_bisiesto(&self) -> (r: bool)
        ensures
            r == es_bisiesto_spec(self@.anio),
    {
        (self.anio % 4 == 0 && self.anio % 100 != 0) || self.anio % 400 == 0
    }

    /// Applies `dias` unit increments in place and hands the date back. A
    /// valid date becomes the valid date `dias` days later; a date that was
    /// not valid is valid after the first increment.
    ///
    /// The machine limits ask that no field overflows on the way: with at
    /// least one day to add, day and month are below `u32::MAX`, and the year
    /// reached fits in a `u32` (`lema_sumar_anio` bounds it by the year plus
    /// the days).
    pub fn sumar_dias(&mut self, dias: u32) -> (r: &Self)
        requires
            dias > 0 ==> old(self).dia < u32::MAX && old(self).mes < u32::MAX,
            sumar_dias_spec(old(self)@, dias as nat).anio <= u32::MAX,
        ensures
            final(self)@ == sumar_dias_spec(old(self)@, dias as nat),
            *r == *final(self),
            dias == 0 ==> *final(self) == *old(self),
            dias > 0 ==> es_valida_spec(final(self)@),
            es_valida_spec(old(self)@) ==> es_valida_spec(final(self)@) && numero_de_dia(final(self)@)
                == numero_de_dia(old(self)@) + dias,
    {
        let ghost inicio = self@;
        proof {
            if es_fecha_contable(inicio) {
                lema_numero_al_sumar(inicio, dias as nat);
            }
        }
        let mut i: u32 = 0;
        while i < dias
            invariant
                i <= dias,
                self@ == sumar_dias_spec(inicio, i as nat),
                i == 0 ==> *self == *old(self),
                i > 0 ==> es_valida_spec(self@),
                dias > 0 ==> old(self).dia < u32::MAX && old(self).mes < u32::MAX,
                inicio == old(self)@,
                sumar_dias_spec(inicio, dias as nat).anio <= u32::MAX,
            decreases dias - i,
        {
            proof {
                // the year reached after one more step stays within the final year
                lema_sumar_compone(inicio, (i + 1) as nat, (dias - i - 1) as nat);
                lema_sumar_anio(sumar_dias_spec(inicio, (i + 1) as nat), (dias - i - 1) as nat);
            }
            self.dia += 1;
            if !self.es_fecha_valida() {
                self.dia = 1;
                self.mes += 1;
                if self.mes > 12 {
                    self.mes = 1;
                    self.anio += 1;
                }
            }
            i += 1;
        }
        self
    }

    /// Applies `dias` unit decrements in place. A valid date becomes the
    /// valid date `dias` days earlier.
    ///
    /// The machine limits ask that the year reached is not below 0
    /// (`lema_restar_anio` bounds it by the year less the days).
    pub fn restar_dias(&mut self, dias: u32)
        requires
            restar_dias_spec(old(self)@, dias as nat).anio >= 0,
        ensures
            final(self)@ == restar_dias_spec(old(self)@, dias as nat),
            dias == 0 ==> *final(self) == *old(self),
            es_valida_spec(old(self)@) ==> es_valida_spec(final(self)@) && numero_de_dia(final(self)@)
                == numero_de_dia(old(self)@) - dias,
    {
        let ghost inicio = self@;
        proof {
            if es_fecha_contable(inicio) {
                lema_numero_al_restar(inicio, dias as nat);
            }
        }
        let mut i: u32 = 0;
        while i < dias
            invariant
                i <= dias,
                self@ == restar_dias_spec(inicio, i as nat),
                i == 0 ==> *self == *old(self),
                inicio == old(self)@,
                restar_dias_spec(inicio, dias as nat).anio >= 0,
            decreases dias - i,
        {
            proof {
                lema_restar_compone(inicio, (i + 1) as nat, (dias - i - 1) as nat);
                lema_restar_anio(restar_dias_spec(inicio, (i + 1) as nat), (dias - i - 1) as nat);
            }
            if self.dia > 1 {
                self.dia -= 1;
            } else {
                if self.mes > 1 {
                    self.mes -= 1;
                    match self.mes {
                        1 | 3 | 5 | 7 | 8 | 10 | 12 => self.dia = 31,
                        4 | 6 | 9 | 11 => self.dia = 30,
                        2 => {
                            if self.es_bisiesto() {
                                self.dia = 29;
                            } else {
                                self.dia = 28;
                            }
                        },
                        _ => (),
                    }
                } else {
                    self.mes = 12;
                    self.anio -= 1;
                    self.dia = 31;
                }
            }
            i += 1;
        }
    }

    /// Whether `self` is strictly later than `otra_fecha`.
    pub fn es_mayor(&self, otra_fecha: &Fecha) -> (r: bool)
        ensures
            r == es_mayor_spec(self@, otra_fecha@),
    {
        if self.anio > otra_fecha.anio {
            true
        } else if self.anio < otra_fecha.anio {
            false
        } else if self.mes > otra_fecha.mes {
            true
        } else if self.mes < otra_fecha.mes {
            false
        } else {
            self.dia > otra_fecha.dia
        }
    }
}

/// Adding days never moves the year backwards, and moves it forwards by at
/// most one per day added.
pub proof fn lema_sumar_anio(f: FechaModelo, n: nat)
    ensures
        f.anio <= sumar_dias_spec(f, n).anio <= f.anio + n,
    decreases n,
{
    if n > 0 {
        lema_sumar_anio(f, (n - 1) as nat);
    }
}

/// After at least one increment a date is valid, whatever its day and
/// month were before (the month not being negative).
pub proof fn lema_sumar_valida(f: FechaModelo, n: nat)
    requires
        n >= 1,
        f.mes >= 0,
    ensures
        es_valida_spec(sumar_dias_spec(f, n)),
    decreases n,
{
    if n > 1 {
        lema_sumar_valida(f, (n - 1) as nat);
    } else {
        assert(sumar_dias_spec(f, 0) == f);
    }
}

/// Subtracting days never moves the year forwards, and moves it backwards by
/// at most one per day subtracted.
pub proof fn lema_restar_anio(f: FechaModelo, n: nat)
    ensures
        f.anio - n <= restar_dias_spec(f, n).anio <= f.anio,
    decreases n,
{
    if n > 0 {
        lema_restar_anio(f, (n - 1) as nat);
    }
}

/// Adding `a` days and then `b` days is adding `a + b` days.
pub proof fn lema_sumar_compone(f: FechaModelo, a: nat, b: nat)
    ensures
        sumar_dias_spec(sumar_dias_spec(f, a), b) == sumar_dias_spec(f, a + b),
    decreases b,
{
    if b > 0 {
        lema_sumar_compone(f, a, (b - 1) as nat);
        assert((a + b - 1) as nat == a + (b - 1) as nat);
    }
}

/// Subtracting `a` days and then `b` days is subtracting `a + b` days.
pub proof fn lema_restar_compone(f: FechaModelo, a: nat, b: nat)
    ensures
        restar_dias_spec(restar_dias_spec(f, a), b) == restar_dias_spec(f, a + b),
    decreases b,
{
    if b > 0 {
        lema_restar_compone(f, a, (b - 1) as nat);
        assert((a + b - 1) as nat == a + (b - 1) as nat);
    }
}

/// Validity rejects day 0, any day above 31, day 31 in a 30-day month, any
/// day above 29 in February and day 29 in a February of a non-leap year, and
/// any month outside 1..=12.
pub proof fn lema_fechas_rechazadas(f: FechaModelo)
    ensures
        f.dia <= 0 ==> !es_valida_spec(f),
        f.dia > 31 ==> !es_valida_spec(f),
        (f.mes == 4 || f.mes == 6 || f.mes == 9 || f.mes == 11) && f.dia > 30 ==> !es_valida_spec(f),
        f.mes == 2 && f.dia > 29 ==> !es_valida_spec(f),
        f.mes == 2 && f.dia == 29 ==> (es_valida_spec(f) <==> es_bisiesto_spec(f.anio)),
        f.mes < 1 || f.mes > 12 ==> !es_valida_spec(f),
{
}

/// "Later than" is a strict total order on dates: nothing is later than
/// itself, of two distinct dates exactly one is later than the other, and
/// the relation is transitive.
pub proof fn lema_es_mayor_orden(a: FechaModelo, b: FechaModelo, c: FechaModelo)
    ensures
        !es_mayor_spec(a, a),
        es_mayor_spec(a, b) ==> !es_mayor_spec(b, a),
        a != b ==> es_mayor_spec(a, b) || es_mayor_spec(b, a),
        es_mayor_spec(a, b) && es_mayor_spec(b, c) ==> es_mayor_spec(a, c),
{
}

/// Adding no days, or subtracting none, leaves the date as it is.
pub proof fn lema_cero_dias(f: FechaModelo)
    ensures
        sumar_dias_spec(f, 0) == f,
        restar_dias_spec(f, 0) == f,
{
}

/// The day after a valid date is valid and later, and the day before it is
/// the date itself.
pub proof fn lema_siguiente_de_valida(f: FechaModelo)
    requires
        es_valida_spec(f),
    ensures
        es_valida_spec(dia_siguiente(f)),
        es_mayor_spec(dia_siguiente(f), f),
        dia_anterior(dia_siguiente(f)) == f,
{
}

/// Adding at least one day to a valid date gives a later date.
pub proof fn lema_sumar_es_mayor(f: FechaModelo, n: nat)
    requires
        es_valida_spec(f),
        n >= 1,
    ensures
        es_mayor_spec(sumar_dias_spec(f, n), f),
    decreases n,
{
    if n > 1 {
        lema_sumar_es_mayor(f, (n - 1) as nat);
        lema_sumar_valida(f, (n - 1) as nat);
        let g = sumar_dias_spec(f, (n - 1) as nat);
        lema_siguiente_de_valida(g);
        lema_es_mayor_orden(dia_siguiente(g), g, f);
    } else {
        assert(sumar_dias_spec(f, 0) == f);
        lema_siguiente_de_valida(f);
    }
}

/// Subtracting from a valid date the days that were added to it gives the
/// date back.
pub proof fn lema_restar_deshace_sumar(f: FechaModelo, n: nat)
    requires
        es_valida_spec(f),
    ensures
        restar_dias_spec(sumar_dias_spec(f, n), n) == f,
    decreases n,
{
    if n > 0 {
        let g = sumar_dias_spec(f, (n - 1) as nat);
        if n > 1 {
            lema_sumar_valida(f, (n - 1) as nat);
        }
        lema_siguiente_de_valida(g);
        // one decrement first, then the remaining n - 1
        lema_restar_compone(dia_siguiente(g), 1, (n - 1) as nat);
        assert(restar_dias_spec(dia_siguiente(g), 1) == dia_anterior(restar_dias_spec(dia_siguiente(g), 0)));
        lema_restar_deshace_sumar(f, (n - 1) as nat);
    }
}

} // verus!
