//! Dates counted as days: every valid date from year 0 on has a day number,
//! consecutive dates have consecutive numbers, and a later date has a larger
//! number. Adding and subtracting days is adding and subtracting on that
//! number.

use crate::fecha::{
    dia_anterior, dia_siguiente, dias_del_mes, es_bisiesto_spec, es_mayor_spec, es_valida_spec,
    lema_restar_anio, restar_dias_spec, sumar_dias_spec, FechaModelo,
};
use vstd::prelude::*;

verus! {

/// Number of days of a year.
pub open spec fn dias_del_anio(anio: int) -> int {
    if es_bisiesto_spec(anio) {
        366
    } else {
        365
    }
}

/// Number of days in the years 0, .., `anio - 1`.
pub open spec fn dias_antes_del_anio(anio: int) -> int
    decreases anio,
{
    if anio <= 0 {
        0
    } else {
        dias_antes_del_anio(anio - 1) + dias_del_anio(anio - 1)
    }
}

/// Number of days in the months 1, .., `mes - 1` of the year `anio`.
pub open spec fn dias_antes_del_mes(mes: int, anio: int) -> int
    decreases mes,
{
    if mes <= 1 {
        0
    } else {
        dias_antes_del_mes(mes - 1, anio) + dias_del_mes(mes - 1, anio)
    }
}

/// The day number of a date: 1 for 1 January of year 0.
pub open spec fn numero_de_dia(f: FechaModelo) -> int {
    dias_antes_del_anio(f.anio) + dias_antes_del_mes(f.mes, f.anio) + f.dia
}

/// A valid date from year 0 on.
pub open spec fn es_fecha_contable(f: FechaModelo) -> bool {
    es_valida_spec(f) && f.anio >= 0
}

/// The twelve months of a year add up to the days of the year, and a valid
/// date lies between the first and the last day of its year.
pub proof fn lema_dia_del_anio(f: FechaModelo)
    requires
        es_valida_spec(f),
    ensures
        dias_antes_del_mes(13, f.anio) == dias_del_anio(f.anio),
        1 <= dias_antes_del_mes(f.mes, f.anio) + f.dia <= dias_antes_del_mes(f.mes + 1, f.anio)
            <= dias_del_anio(f.anio),
{
    reveal_with_fuel(dias_antes_del_mes, 14);
}

/// The days before a year do not shrink as the year grows.
pub proof fn lema_dias_antes_del_anio_crece(a: int, b: int)
    requires
        a <= b,
    ensures
        0 <= dias_antes_del_anio(a) <= dias_antes_del_anio(b),
    decreases b - a,
{
    if a < b {
        lema_dias_antes_del_anio_crece(a, b - 1);
    } else {
        lema_dias_antes_del_anio_no_negativo(a);
    }
}

/// The days before a year are never negative.
pub proof fn lema_dias_antes_del_anio_no_negativo(a: int)
    ensures
        0 <= dias_antes_del_anio(a),
    decreases a,
{
    if a > 0 {
        lema_dias_antes_del_anio_no_negativo(a - 1);
    }
}

/// The day after a valid date has the next day number.
pub proof fn lema_numero_del_dia_siguiente(f: FechaModelo)
    requires
        es_fecha_contable(f),
    ensures
        es_fecha_contable(dia_siguiente(f)),
        numero_de_dia(dia_siguiente(f)) == numero_de_dia(f) + 1,
{
    lema_dia_del_anio(f);
    reveal_with_fuel(dias_antes_del_mes, 14);
}

/// The day before a valid date, other than 1 January of year 0, has the
/// previous day number, and the day after it is the date itself.
pub proof fn lema_numero_del_dia_anterior(f: FechaModelo)
    requires
        es_fecha_contable(f),
        dia_anterior(f).anio >= 0,
    ensures
        es_fecha_contable(dia_anterior(f)),
        numero_de_dia(dia_anterior(f)) == numero_de_dia(f) - 1,
        dia_siguiente(dia_anterior(f)) == f,
{
    lema_dia_del_anio(f);
    reveal_with_fuel(dias_antes_del_mes, 14);
}

/// Of two valid dates the later one is the one with the larger day number.
pub proof fn lema_orden_por_numero(a: FechaModelo, b: FechaModelo)
    requires
        es_fecha_contable(a),
        es_fecha_contable(b),
    ensures
        es_mayor_spec(a, b) <==> numero_de_dia(a) > numero_de_dia(b),
        a == b <==> numero_de_dia(a) == numero_de_dia(b),
{
    lema_dia_del_anio(a);
    lema_dia_del_anio(b);
    reveal_with_fuel(dias_antes_del_mes, 14);
    if a.anio > b.anio {
        lema_dias_antes_del_anio_crece(b.anio + 1, a.anio);
    } else if a.anio < b.anio {
        lema_dias_antes_del_anio_crece(a.anio + 1, b.anio);
    }
}

/// Adding `n` days to a valid date gives the valid date whose day number is
/// larger by `n`.
pub proof fn lema_numero_al_sumar(f: FechaModelo, n: nat)
    requires
        es_fecha_contable(f),
    ensures
        es_fecha_contable(sumar_dias_spec(f, n)),
        numero_de_dia(sumar_dias_spec(f, n)) == numero_de_dia(f) + n,
    decreases n,
{
    if n > 0 {
        lema_numero_al_sumar(f, (n - 1) as nat);
        lema_numero_del_dia_siguiente(sumar_dias_spec(f, (n - 1) as nat));
    }
}

/// Subtracting `n` days from a valid date, without leaving year 0, gives
/// the valid date whose day number is smaller by `n`.
pub proof fn lema_numero_al_restar(f: FechaModelo, n: nat)
    requires
        es_fecha_contable(f),
        restar_dias_spec(f, n).anio >= 0,
    ensures
        es_fecha_contable(restar_dias_spec(f, n)),
        numero_de_dia(restar_dias_spec(f, n)) == numero_de_dia(f) - n,
    decreases n,
{
    if n > 0 {
        let g = restar_dias_spec(f, (n - 1) as nat);
        assert(g.anio >= 0) by {
            lema_restar_anio(g, 1);
            assert(restar_dias_spec(g, 1) == dia_anterior(restar_dias_spec(g, 0)));
        }
        lema_numero_al_restar(f, (n - 1) as nat);
        lema_numero_del_dia_anterior(g);
    }
}

/// Adding to a valid date the days that were subtracted from it, without
/// leaving year 0, gives the date back.
pub proof fn lema_sumar_deshace_restar(f: FechaModelo, n: nat)
    requires
        es_fecha_contable(f),
        restar_dias_spec(f, n).anio >= 0,
    ensures
        sumar_dias_spec(restar_dias_spec(f, n), n) == f,
{
    lema_numero_al_restar(f, n);
    lema_numero_al_sumar(restar_dias_spec(f, n), n);
    lema_orden_por_numero(sumar_dias_spec(restar_dias_spec(f, n), n), f);
}

} // verus!
