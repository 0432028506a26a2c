use vstd::prelude::*;

verus! {

/// A menor unidade de tempo do ciclo: `Foco` ou `Pausa`.
#[derive(Debug, Clone, Copy, PartialEq, Eq, Structural)]
pub enum Etapa {
    Foco,
    Pausa,
}

/// A etapa que segue `e`.
pub open spec fn etapa_seguinte(e: Etapa) -> Etapa {
    match e {
        Etapa::Foco => Etapa::Pausa,
        Etapa::Pausa => Etapa::Foco,
    }
}

impl Etapa {
    pub fn alternar(self) -> (r: Self)
        ensures
            r == etapa_seguinte(self),
    {
        match self {
            Etapa::Foco => Etapa::Pausa,
            Etapa::Pausa => Etapa::Foco,
        }
    }
}

/// Alternar duas vezes volta à etapa de partida, e alternar nunca mantém a etapa.
pub proof fn alternar_e_uma_involucao(e: Etapa)
    ensures
        etapa_seguinte(etapa_seguinte(e)) == e,
        etapa_seguinte(e) != e,
{
}

} // verus!
