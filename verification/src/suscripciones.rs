//! Subscription tiers of a streaming service and how a user moves between
//! them, and the choice of the most frequent entry of a tally.

use vstd::prelude::*;

verus! {

#[derive(PartialEq, Eq, Hash, Debug, Structural)]
pub enum TipoSuscripcion {
    Basic,
    Clasic,
    Super,
}

impl Clone for TipoSuscripcion {
    fn clone(&self) -> (r: TipoSuscripcion)
        ensures
            r == *self,
    {
        match self {
            TipoSuscripcion::Basic => TipoSuscripcion::Basic,
            TipoSuscripcion::Clasic => TipoSuscripcion::Clasic,
            TipoSuscripcion::Super => TipoSuscripcion::Super,
        }
    }
}

#[derive(PartialEq, Eq, Hash, Debug, Structural)]
pub enum MedioDepago {
    Efectivo,
    MercadoPago,
    TarjetaDeCred,
    Transferencia,
    Cripto,
}

impl Clone for MedioDepago {
    fn clone(&self) -> (r: MedioDepago)
        ensures
            r == *self,
    {
        match self {
            MedioDepago::Efectivo => MedioDepago::Efectivo,
            MedioDepago::MercadoPago => MedioDepago::MercadoPago,
            MedioDepago::TarjetaDeCred => MedioDepago::TarjetaDeCred,
            MedioDepago::Transferencia => MedioDepago::Transferencia,
            MedioDepago::Cripto => MedioDepago::Cripto,
        }
    }
}

/// The rank of a tier: 0 for the lowest, 2 for the highest.
pub open spec fn nivel(t: TipoSuscripcion) -> int {
    match t {
        TipoSuscripcion::Basic => 0,
        TipoSuscripcion::Clasic => 1,
        TipoSuscripcion::Super => 2,
    }
}

impl TipoSuscripcion {
    /// The tier after an upgrade: one rank up, and the highest tier stays.
    pub fn superior(&self) -> (r: TipoSuscripcion)
        ensures
            nivel(r) == if nivel(*self) < 2 {
                nivel(*self) + 1
            } else {
                2
            },
    {
        match self {
            TipoSuscripcion::Basic => TipoSuscripcion::Clasic,
            TipoSuscripcion::Clasic => TipoSuscripcion::Super,
            TipoSuscripcion::Super => TipoSuscripcion::Super,
        }
    }

    /// The tier after a downgrade: one rank down, and `None` from the
    /// lowest tier, where a downgrade ends the subscription.
    pub fn inferior(&self) -> (r: Option<TipoSuscripcion>)
        ensures
            r.is_some() == (nivel(*self) > 0),
            r.is_some() ==> nivel(r.unwrap()) == nivel(*self) - 1,
    {
        match self {
            TipoSuscripcion::Super => Some(TipoSuscripcion::Clasic),
            TipoSuscripcion::Clasic => Some(TipoSuscripcion::Basic),
            TipoSuscripcion::Basic => None,
        }
    }
}

/// A tier is known by its rank.
pub proof fn lema_nivel_inyectivo(a: TipoSuscripcion, b: TipoSuscripcion)
    ensures
        0 <= nivel(a) <= 2,
        nivel(a) == nivel(b) <==> a == b,
{
}

/// `i` is the position of the last largest entry of `s`.
pub open spec fn es_ultimo_maximo(s: Seq<u32>, i: int) -> bool {
    &&& 0 <= i < s.len()
    &&& forall|j: int| 0 <= j < s.len() ==> #[trigger] s[j] <= s[i]
    &&& forall|j: int| i < j < s.len() ==> #[trigger] s[j] < s[i]
}

/// A sequence has at most one position of its last largest entry.
pub proof fn lema_ultimo_maximo_unico(s: Seq<u32>, i: int, k: int)
    requires
        es_ultimo_maximo(s, i),
        es_ultimo_maximo(s, k),
    ensures
        i == k,
{
    if i < k {
        assert(s[k] < s[i]);
        assert(s[i] <= s[k]);
    } else if k < i {
        assert(s[i] < s[k]);
        assert(s[k] <= s[i]);
    }
}

/// The position of the largest count, the last one among equals; `None`
/// for an empty tally.
pub fn posicion_del_maximo(cantidades: &Vec<u32>) -> (r: Option<usize>)
    ensures
        r.is_some() == (cantidades@.len() > 0),
        r.is_some() ==> es_ultimo_maximo(cantidades@, r.unwrap() as int),
{
    if cantidades.len() == 0 {
        return None;
    }
    let mut mejor: usize = 0;
    let mut i: usize = 1;
    while i < cantidades.len()
        invariant
            1 <= i <= cantidades.len(),
            mejor < i,
            forall|j: int| 0 <= j < i ==> #[trigger] cantidades@[j] <= cantidades@[mejor as int],
            forall|j: int| mejor < j < i ==> #[trigger] cantidades@[j] < cantidades@[mejor as int],
        decreases cantidades.len() - i,
    {
        if cantidades[i] >= cantidades[mejor] {
            mejor = i;
        }
        i += 1;
    }
    Some(mejor)
}

} // verus!
